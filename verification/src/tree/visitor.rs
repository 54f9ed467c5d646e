//! Depth-first pre-order traversal of a document tree.
//!
//! Tree visitors implement the [`Visitor`] trait. A node is handed to the
//! visitor before its children are traversed. To start traversing from a
//! node, call the free [`visit`] function.

use vstd::prelude::*;

use crate::tree::{Book, GlobalizedBooks, Section};

verus! {

/// Document tree visitors. User-defined visitors implement this trait; the
/// traversal promises nothing of what a visitor's methods do.
pub trait Visitor {
    /// Visit the given [`GlobalizedBooks`] node.
    fn visit_globalized_books(&mut self, globalized_books: &GlobalizedBooks);

    /// Visit the given [`Book`] node.
    fn visit_book(&mut self, book: &Book);

    /// Visit the given [`Section`] node.
    fn visit_section(&mut self, section: &Section);
}

/// Types that support the `visit` operation. In normal cases, users should
/// not use this trait directly; call the free [`visit`] function instead.
pub trait VisitorHost {
    /// Visit this object with the specified visitor.
    fn visit<V: Visitor>(&self, visitor: &mut V);
}

impl VisitorHost for GlobalizedBooks {
    /// Hand this node to the visitor, then traverse each book in order.
    fn visit<V: Visitor>(&self, visitor: &mut V) {
        visitor.visit_globalized_books(self);
        let n = self.books.len();
        let mut i: usize = 0;
        while i < n
            invariant
                n == self.books@.len(),
            decreases n - i,
        {
            self.books[i].1.visit(visitor);
            i = i + 1;
        }
    }
}

impl VisitorHost for Book {
    /// Hand this node to the visitor, then traverse the sections of each
    /// chapter in order.
    fn visit<V: Visitor>(&self, visitor: &mut V) {
        visitor.visit_book(self);
        let n = self.chapters.len();
        let mut i: usize = 0;
        while i < n
            invariant
                n == self.chapters@.len(),
            decreases n - i,
        {
            let m = self.chapters[i].sections.len();
            let mut j: usize = 0;
            while j < m
                invariant
                    n == self.chapters@.len(),
                    i < n,
                    m == self.chapters@[i as int].sections@.len(),
                decreases m - j,
            {
                visit_section_subtree(&self.chapters[i].sections[j], visitor);
                j = j + 1;
            }
            i = i + 1;
        }
    }
}

impl VisitorHost for Section {
    /// Hand this node to the visitor, then traverse each subsection in
    /// order, recursively.
    fn visit<V: Visitor>(&self, visitor: &mut V) {
        visit_section_subtree(self, visitor);
    }
}

/// Depth-first pre-order traversal of one section and its subsections.
fn visit_section_subtree<V: Visitor>(section: &Section, visitor: &mut V)
    decreases section,
{
    visitor.visit_section(section);
    let n = section.subsections.len();
    let mut i: usize = 0;
    while i < n
        invariant
            n == section.subsections@.len(),
        decreases n - i,
    {
        proof {
            assert(decreases_to!(section => section.subsections@[i as int]));
        }
        visit_section_subtree(&section.subsections[i], visitor);
        i = i + 1;
    }
}

/// Visit the specified [`VisitorHost`] object with the specified visitor,
/// depth-first and pre-order.
pub fn visit<H: VisitorHost, V: Visitor>(host: &H, visitor: &mut V) {
    host.visit(visitor);
}

} // verus!
