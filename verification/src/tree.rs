//! The document tree of a project: a container of books per language, each
//! book made of chapters, each chapter made of nested sections.
//!
//! The tree is plain data composition. It consumes file contents and
//! directory listings obtained through the file-system abstraction of the
//! `fs` module, but has no concurrency or protocol concerns of its own.

pub mod builder;
pub mod visitor;

use vstd::prelude::*;

verus! {

/// The root of a project tree: the container for all books contained in the
/// project that are written in different natural languages.
#[derive(Clone, Debug)]
pub struct GlobalizedBooks {
    /// The global configuration.
    pub config: BookConfig,

    /// All books contained in this project.
    ///
    /// The first field of an element is the name of the natural language in
    /// which the book is written. The second field is the book's node.
    pub books: Vec<(String, Book)>,
}

impl Default for GlobalizedBooks {
    /// A tree root with a default configuration and no book.
    fn default() -> (r: GlobalizedBooks)
        ensures
            is_default_book_config(r.config),
            r.books@ == Seq::<(String, Book)>::empty(),
    {
        GlobalizedBooks { config: BookConfig::default(), books: Vec::new() }
    }
}

/// A book written in some language.
#[derive(Clone, Debug)]
pub struct Book {
    /// The local configuration.
    ///
    /// Entries in the local configuration overwrite the corresponding
    /// entries given in the global configuration.
    pub config: BookConfig,

    /// All chapters contained in this book.
    pub chapters: Vec<Chapter>,
}

impl Default for Book {
    /// A book with a default configuration and no chapter.
    fn default() -> (r: Book)
        ensures
            is_default_book_config(r.config),
            r.chapters@ == Seq::<Chapter>::empty(),
    {
        Book { config: BookConfig::default(), chapters: Vec::new() }
    }
}

/// Book configuration, split into a global part on the tree root and a local
/// part on each book.
#[derive(Clone, Debug)]
pub struct BookConfig {
    /// Path to the root directory of the book.
    pub root: String,

    /// Structural configuration of the book.
    pub structure: BookStructureConfig,

    /// Title of the book.
    pub title: Option<String>,

    /// Description of the book.
    pub description: Option<String>,

    /// Author of the book.
    pub author: Option<String>,

    /// ISBN of the book.
    pub isbn: Option<String>,

    /// Language of the book, as an ISO 639-1 language code.
    pub language: Option<String>,

    /// Text direction of the book.
    pub direction: Option<TextDirection>,
}

/// Whether a book configuration carries no entry at all: an empty root path
/// and every optional entry absent.
pub open spec fn is_default_book_config(c: BookConfig) -> bool {
    &&& c.root@ == Seq::<char>::empty()
    &&& is_default_book_structure_config(c.structure)
    &&& c.title is None
    &&& c.description is None
    &&& c.author is None
    &&& c.isbn is None
    &&& c.language is None
    &&& c.direction is None
}

impl Default for BookConfig {
    /// A configuration with no entry set.
    fn default() -> (r: BookConfig)
        ensures
            is_default_book_config(r),
    {
        BookConfig {
            root: String::new(),
            structure: BookStructureConfig::default(),
            title: None,
            description: None,
            author: None,
            isbn: None,
            language: None,
            direction: None,
        }
    }
}

/// Book structural configuration: the paths to the four special documents of
/// a book.
///
/// * `README.md` is the "first page" within a book;
/// * `SUMMARY.md` can provide an alternate table of contents;
/// * `GLOSSARY.md` provides a list of terms to annotate;
/// * `LANGS.md` describes the mapping from language names to books written
///   in that language.
#[derive(Clone, Debug)]
pub struct BookStructureConfig {
    /// Path to the `README.md` file.
    pub readme: Option<String>,

    /// Path to the `SUMMARY.md` file.
    pub summary: Option<String>,

    /// Path to the `GLOSSARY.md` file.
    pub glossary: Option<String>,

    /// Path to the `LANGS.md` file.
    pub languages: Option<String>,
}

/// Whether a structural configuration names none of the special documents.
pub open spec fn is_default_book_structure_config(c: BookStructureConfig) -> bool {
    &&& c.readme is None
    &&& c.summary is None
    &&& c.glossary is None
    &&& c.languages is None
}

impl Default for BookStructureConfig {
    /// A structural configuration that names none of the special documents.
    fn default() -> (r: BookStructureConfig)
        ensures
            is_default_book_structure_config(r),
    {
        BookStructureConfig { readme: None, summary: None, glossary: None, languages: None }
    }
}

/// Text direction of a book.
#[derive(Clone, Copy, Debug, Eq, PartialEq, Structural)]
pub enum TextDirection {
    /// Left to right.
    Ltr,

    /// Right to left.
    Rtl,
}

impl Default for TextDirection {
    /// Left-to-right text is the default direction.
    fn default() -> (r: TextDirection)
        ensures
            r == TextDirection::Ltr,
    {
        TextDirection::Ltr
    }
}

/// A chapter within a book.
#[derive(Clone, Debug)]
pub struct Chapter {
    /// Name of the chapter.
    pub name: String,

    /// All sections in this chapter.
    pub sections: Vec<Section>,
}

impl Default for Chapter {
    /// A chapter with an empty name and no section.
    fn default() -> (r: Chapter)
        ensures
            r.name@ == Seq::<char>::empty(),
            r.sections@ == Seq::<Section>::empty(),
    {
        Chapter { name: String::new(), sections: Vec::new() }
    }
}

/// A section within a chapter.
#[derive(Debug)]
pub struct Section {
    /// Path to the file that contains the content of this section.
    pub file: String,

    /// Name of the section.
    pub name: String,

    /// Content of the section.
    pub content: String,

    /// All subsections of this section.
    pub subsections: Vec<Section>,
}

/// Whether two sections agree in every field, subsections included, all
/// the way down.
pub open spec fn section_deep_eq(a: Section, b: Section) -> bool
    decreases a,
{
    &&& a.file == b.file
    &&& a.name == b.name
    &&& a.content == b.content
    &&& a.subsections@.len() == b.subsections@.len()
    &&& forall|i: int|
        0 <= i < a.subsections@.len() ==> section_deep_eq(
            #[trigger] a.subsections@[i],
            b.subsections@[i],
        )
}

/// Deep copy of one section and its subsections; the derived clone cannot
/// be used here because the type is recursive.
fn clone_section(section: &Section) -> (r: Section)
    ensures
        section_deep_eq(*section, r),
    decreases section,
{
    let mut subsections: Vec<Section> = Vec::new();
    let n = section.subsections.len();
    let mut i: usize = 0;
    while i < n
        invariant
            n == section.subsections@.len(),
            i <= n,
            subsections@.len() == i,
            forall|j: int|
                0 <= j < i ==> section_deep_eq(
                    #[trigger] section.subsections@[j],
                    subsections@[j],
                ),
        decreases n - i,
    {
        proof {
            assert(decreases_to!(section => section.subsections@[i as int]));
        }
        subsections.push(clone_section(&section.subsections[i]));
        i = i + 1;
    }
    Section {
        file: section.file.clone(),
        name: section.name.clone(),
        content: section.content.clone(),
        subsections,
    }
}

impl Clone for Section {
    /// A deep copy: the result agrees with the original in every field,
    /// subsections included.
    fn clone(&self) -> (r: Section)
        ensures
            section_deep_eq(*self, r),
    {
        clone_section(self)
    }
}

impl Default for Section {
    /// A section with empty file path, name and content, and no subsection.
    fn default() -> (r: Section)
        ensures
            r.file@ == Seq::<char>::empty(),
            r.name@ == Seq::<char>::empty(),
            r.content@ == Seq::<char>::empty(),
            r.subsections@ == Seq::<Section>::empty(),
    {
        Section {
            file: String::new(),
            name: String::new(),
            content: String::new(),
            subsections: Vec::new(),
        }
    }
}

} // verus!
