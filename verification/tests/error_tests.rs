use openbook::error::Error;

#[test]
fn from_message_renders_with_local_prefix() {
    let e = Error::from_message(String::from("configuration is missing"));
    assert_eq!(e.to_message(), "OpenBook error: configuration is missing");
}

#[test]
fn from_inner_renders_with_inner_prefix() {
    let e = Error::from_inner(String::from("permission denied"));
    assert_eq!(e.to_message(), "OpenBook inner error: permission denied");
}

#[test]
fn empty_payloads_render_as_bare_prefixes() {
    assert_eq!(Error::from_message(String::new()).to_message(), "OpenBook error: ");
    assert_eq!(Error::from_inner(String::new()).to_message(), "OpenBook inner error: ");
}

#[test]
fn rendered_text_tells_provenance_apart() {
    let inner = Error::from_inner(String::from("boom"));
    let local = Error::from_message(String::from("boom"));
    assert_ne!(inner.to_message(), local.to_message());
}

#[test]
fn variants_are_preserved() {
    let inner = Error::from_inner(String::from("io failure"));
    assert!(matches!(inner, Error::Inner(ref m) if m == "io failure"));
    let local = Error::from_message(String::from("bad state"));
    assert!(matches!(local, Error::Msg(ref m) if m == "bad state"));
}
