use openbook::tree::builder::GlobalizedBooksBuilder;
use openbook::tree::visitor::{visit, Visitor};
use openbook::tree::{
    Book, BookConfig, Chapter, GlobalizedBooks, Section, TextDirection,
};

#[test]
fn empty_builder_builds_default_tree() {
    let tree = GlobalizedBooksBuilder::new().build();
    assert!(tree.books.is_empty());
    assert_eq!(tree.config.root, "");
    assert!(tree.config.title.is_none());
    assert!(tree.config.description.is_none());
    assert!(tree.config.author.is_none());
    assert!(tree.config.isbn.is_none());
    assert!(tree.config.language.is_none());
    assert!(tree.config.direction.is_none());
    assert!(tree.config.structure.readme.is_none());
    assert!(tree.config.structure.summary.is_none());
    assert!(tree.config.structure.glossary.is_none());
    assert!(tree.config.structure.languages.is_none());
}

#[test]
fn set_config_is_kept() {
    let mut config = BookConfig::default();
    config.root = String::from("/books");
    config.title = Some(String::from("Manual"));
    config.direction = Some(TextDirection::Rtl);
    let tree = GlobalizedBooksBuilder::new().set_config(config).build();
    assert_eq!(tree.config.root, "/books");
    assert_eq!(tree.config.title.as_deref(), Some("Manual"));
    assert_eq!(tree.config.direction, Some(TextDirection::Rtl));
}

#[test]
fn books_are_kept_in_insertion_order_with_languages() {
    let tree = GlobalizedBooksBuilder::new()
        .add_default_book(Book::default())
        .add_localized_book(String::from("en"), Book::default())
        .add_localized_book(String::from("zh"), Book::default())
        .build();
    assert_eq!(tree.books.len(), 3);
    assert_eq!(tree.books[0].0, "");
    assert_eq!(tree.books[1].0, "en");
    assert_eq!(tree.books[2].0, "zh");
}

#[test]
fn text_direction_defaults_to_left_to_right() {
    assert_eq!(TextDirection::default(), TextDirection::Ltr);
}

#[test]
fn cloning_a_tree_copies_every_field_deeply() {
    let mut book = Book::default();
    book.config.title = Some(String::from("Original"));
    book.chapters = vec![Chapter {
        name: String::from("c1"),
        sections: vec![section("outer", vec![section("inner", vec![])])],
    }];
    let copy = book.clone();
    assert_eq!(copy.config.title.as_deref(), Some("Original"));
    assert_eq!(copy.chapters.len(), 1);
    assert_eq!(copy.chapters[0].name, "c1");
    assert_eq!(copy.chapters[0].sections[0].name, "outer");
    assert_eq!(copy.chapters[0].sections[0].subsections[0].name, "inner");

    let builder = GlobalizedBooksBuilder::new().add_localized_book(String::from("en"), book);
    let tree_a = builder.clone().build();
    let tree_b = builder.build();
    assert_eq!(tree_a.books.len(), tree_b.books.len());
    assert_eq!(tree_a.books[0].0, "en");
    assert_eq!(tree_b.books[0].0, "en");
}

struct TraceVisitor {
    trace: Vec<String>,
}

impl Visitor for TraceVisitor {
    fn visit_globalized_books(&mut self, _globalized_books: &GlobalizedBooks) {
        self.trace.push(String::from("root"));
    }

    fn visit_book(&mut self, book: &Book) {
        let title = book.config.title.clone().unwrap_or_default();
        self.trace.push(format!("book:{}", title));
    }

    fn visit_section(&mut self, section: &Section) {
        self.trace.push(format!("section:{}", section.name));
    }
}

fn section(name: &str, subsections: Vec<Section>) -> Section {
    let mut s = Section::default();
    s.name = String::from(name);
    s.subsections = subsections;
    s
}

#[test]
fn traversal_is_depth_first_pre_order() {
    let mut book = Book::default();
    book.config.title = Some(String::from("b1"));
    book.chapters = vec![
        Chapter {
            name: String::from("c1"),
            sections: vec![
                section("s1", vec![section("s1a", vec![]), section("s1b", vec![])]),
                section("s2", vec![]),
            ],
        },
        Chapter { name: String::from("c2"), sections: vec![section("s3", vec![])] },
    ];
    let tree = GlobalizedBooksBuilder::new()
        .add_localized_book(String::from("en"), book)
        .build();

    let mut visitor = TraceVisitor { trace: Vec::new() };
    visit(&tree, &mut visitor);
    assert_eq!(
        visitor.trace,
        vec![
            String::from("root"),
            String::from("book:b1"),
            String::from("section:s1"),
            String::from("section:s1a"),
            String::from("section:s1b"),
            String::from("section:s2"),
            String::from("section:s3"),
        ]
    );
}
