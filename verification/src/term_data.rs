//! How the text of a term is stored.
//!
//! A term is generic over the storage of its text: borrowed, owned, or
//! shared behind a reference count. What a term is never depends on the
//! storage, only on the text that the storage holds.
use std::rc::Rc;
use std::sync::Arc;
use vstd::prelude::*;

verus! {

/// A storage of text that can be read as a string slice.
pub trait TermData: Sized {
    /// The text held by this value.
    spec fn text(&self) -> Seq<char>;

    /// Read access to the text.
    fn as_str(&self) -> (s: &str)
        ensures
            s@ == self.text(),
    ;
}

/// A storage of text that can be made from a string slice that lives for
/// `'a`.
pub trait FromText<'a>: TermData {
    /// A storage that holds the text of `s`.
    fn from_text(s: &'a str) -> (r: Self)
        ensures
            r.text() == s@,
    ;
}

/// `Box::<str>::from` copies the text of a string slice into a box.
#[verifier::external_body]
fn boxed(s: &str) -> (r: Box<str>)
    ensures
        r@ == s@,
{
    Box::from(s)
}

/// `Rc::<str>::from` copies the text of a string slice behind a reference
/// count.
#[verifier::external_body]
fn counted(s: &str) -> (r: Rc<str>)
    ensures
        (*r)@ == s@,
{
    Rc::from(s)
}

/// `Arc::<str>::from` copies the text of a string slice behind an atomic
/// reference count.
#[verifier::external_body]
fn shared(s: &str) -> (r: Arc<str>)
    ensures
        (*r)@ == s@,
{
    Arc::from(s)
}

impl<'a> TermData for &'a str {
    open spec fn text(&self) -> Seq<char> {
        self@
    }

    fn as_str(&self) -> (s: &str) {
        *self
    }
}

impl<'a> FromText<'a> for &'a str {
    fn from_text(s: &'a str) -> (r: Self) {
        s
    }
}

impl TermData for String {
    open spec fn text(&self) -> Seq<char> {
        self@
    }

    fn as_str(&self) -> (s: &str) {
        self.as_str()
    }
}

impl<'a> FromText<'a> for String {
    fn from_text(s: &'a str) -> (r: Self) {
        s.to_owned()
    }
}

impl TermData for Box<str> {
    open spec fn text(&self) -> Seq<char> {
        self@
    }

    fn as_str(&self) -> (s: &str) {
        &**self
    }
}

impl<'a> FromText<'a> for Box<str> {
    fn from_text(s: &'a str) -> (r: Self) {
        boxed(s)
    }
}

impl TermData for Rc<str> {
    open spec fn text(&self) -> Seq<char> {
        (**self)@
    }

    fn as_str(&self) -> (s: &str) {
        &**self
    }
}

impl<'a> FromText<'a> for Rc<str> {
    fn from_text(s: &'a str) -> (r: Self) {
        counted(s)
    }
}

impl TermData for Arc<str> {
    open spec fn text(&self) -> Seq<char> {
        (**self)@
    }

    fn as_str(&self) -> (s: &str) {
        &**self
    }
}

impl<'a> FromText<'a> for Arc<str> {
    fn from_text(s: &'a str) -> (r: Self) {
        shared(s)
    }
}

} // verus!
