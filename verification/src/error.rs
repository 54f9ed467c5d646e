//! The error type shared by every fallible operation of this crate.

use vstd::prelude::*;

verus! {

/// Errors come from two sources:
///
/// * failures of an underlying facility (the operating system, the watcher
///   backend), carried by the `Inner` variant as the failure's rendered
///   description;
/// * conditions raised directly by this crate's components, carried by the
///   `Msg` variant.
///
/// The `Inner` variant deliberately carries the underlying failure as text
/// rather than as a typed, chainable cause: provenance stays diagnosable
/// from the variant and the text, but the fine-grained error codes of the
/// wrapped failure are not inspectable through this type.
#[derive(Clone, Debug)]
pub enum Error {
    Inner(String),
    Msg(String),
}

impl Error {
    /// Wrap an underlying failure, given as its rendered description.
    pub fn from_inner(inner: String) -> (r: Error)
        ensures
            r == Error::Inner(inner),
    {
        Error::Inner(inner)
    }

    /// Raise an error with a locally constructed message.
    pub fn from_message(msg: String) -> (r: Error)
        ensures
            r == Error::Msg(msg),
    {
        Error::Msg(msg)
    }

    /// The rendered form of this error: a variant-specific prefix followed
    /// by the payload, so that an error's provenance stays diagnosable from
    /// its text alone.
    pub open spec fn message_view(&self) -> Seq<char> {
        match self {
            Error::Inner(inner) => "OpenBook inner error: "@ + inner@,
            Error::Msg(msg) => "OpenBook error: "@ + msg@,
        }
    }

    /// Render this error as text, distinguishably per variant.
    pub fn to_message(&self) -> (r: String)
        ensures
            r@ == self.message_view(),
    {
        match self {
            Error::Inner(inner) => {
                let mut s = String::from_str("OpenBook inner error: ");
                s.append(inner.as_str());
                s
            },
            Error::Msg(msg) => {
                let mut s = String::from_str("OpenBook error: ");
                s.append(msg.as_str());
                s
            },
        }
    }
}

/// Law: the rendered text of a wrapped underlying failure is never equal to
/// the rendered text of a locally raised message, whatever the payloads, so
/// an error's provenance can always be told from its text.
pub proof fn lemma_message_tells_provenance(a: Error, b: Error)
    requires
        a is Inner,
        b is Msg,
    ensures
        a.message_view() != b.message_view(),
{
    reveal_strlit("OpenBook inner error: ");
    reveal_strlit("OpenBook error: ");
    assert(a.message_view()[9] == 'i');
    assert(b.message_view()[9] == 'e');
}

} // verus!
