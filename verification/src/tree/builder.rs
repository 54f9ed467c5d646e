//! Builder for the root node of a document tree.

use vstd::prelude::*;

use crate::tree::{is_default_book_config, Book, BookConfig, GlobalizedBooks};

verus! {

/// Build [`GlobalizedBooks`] nodes in a declarative way.
#[derive(Clone, Debug)]
pub struct GlobalizedBooksBuilder {
    config: Option<BookConfig>,
    books: Vec<(String, Book)>,
}

impl GlobalizedBooksBuilder {
    /// The configuration set so far, if any.
    pub closed spec fn spec_config(&self) -> Option<BookConfig> {
        self.config
    }

    /// The books added so far, each with its language name, in the order
    /// they were added.
    pub closed spec fn spec_books(&self) -> Seq<(String, Book)> {
        self.books@
    }

    /// Create a new builder, with no configuration and no book.
    pub fn new() -> (r: GlobalizedBooksBuilder)
        ensures
            r.spec_config() is None,
            r.spec_books() == Seq::<(String, Book)>::empty(),
    {
        GlobalizedBooksBuilder { config: None, books: Vec::new() }
    }

    /// Set the book's configuration, replacing any configuration set before.
    pub fn set_config(self, config: BookConfig) -> (r: Self)
        ensures
            r.spec_config() == Some(config),
            r.spec_books() == self.spec_books(),
    {
        let mut next = self;
        next.config = Some(config);
        next
    }

    /// Add a [`Book`] node as a child of the [`GlobalizedBooks`] node under
    /// build. The book is not associated with any language: its language
    /// name is empty.
    pub fn add_default_book(self, book: Book) -> (r: Self)
        ensures
            r.spec_config() == self.spec_config(),
            r.spec_books().len() == self.spec_books().len() + 1,
            r.spec_books().drop_last() == self.spec_books(),
            r.spec_books().last().0@ == Seq::<char>::empty(),
            r.spec_books().last().1 == book,
    {
        let ghost before = self.books@;
        let mut next = self;
        next.books.push((String::new(), book));
        proof {
            assert(next.books@.drop_last() =~= before);
        }
        next
    }

    /// Add a [`Book`] node as a child of the [`GlobalizedBooks`] node under
    /// build. The book is associated with the specified language.
    pub fn add_localized_book(self, language: String, book: Book) -> (r: Self)
        ensures
            r.spec_config() == self.spec_config(),
            r.spec_books() == self.spec_books().push((language, book)),
    {
        let mut next = self;
        next.books.push((language, book));
        next
    }

    /// Build the [`GlobalizedBooks`] object: the configuration set on the
    /// builder, or the default configuration where none was set, and the
    /// added books in order.
    pub fn build(self) -> (r: GlobalizedBooks)
        ensures
            r.books@ == self.spec_books(),
            self.spec_config() matches Some(c) ==> r.config == c,
            self.spec_config() is None ==> is_default_book_config(r.config),
    {
        let config = match self.config {
            Some(c) => c,
            None => BookConfig::default(),
        };
        GlobalizedBooks { config, books: self.books }
    }
}

} // verus!
