//! Variables.
use crate::error::{TermError, TermErrorView};
use crate::hashing::feed;
use crate::lexical::{is_var_name, is_valid_var_name};
use crate::term_data::{FromText, TermData};
use crate::text::text_eq;
use std::hash::{Hash, Hasher};
use vstd::prelude::*;
use vstd::std_specs::cmp::PartialEqSpecImpl;

verus! {

/// A variable: a named placeholder in a pattern.
#[derive(Clone, Copy, Debug, Eq)]
pub struct Variable<T: TermData> {
    name: T,
}

impl<T: TermData> View for Variable<T> {
    type V = Seq<char>;

    /// The name.
    closed spec fn view(&self) -> Seq<char> {
        self.name.text()
    }
}

impl<T: TermData> Variable<T> {
    /// The name is a variable name.
    pub open spec fn wf(&self) -> bool {
        is_var_name(self@)
    }

    /// A variable with the name `name`.
    ///
    /// Fails with `InvalidVariableName` exactly when the text is not a variable
    /// name.
    pub fn new<'a>(name: &'a str) -> (r: Result<Self, TermError>) where T: FromText<'a>
        ensures
            is_var_name(name@) ==> r is Ok,
            r matches Ok(b) ==> b@ == name@ && b.wf(),
            r matches Err(e) ==> !is_var_name(name@)
                && e@ == TermErrorView::InvalidVariableName(name@),
    {
        if is_valid_var_name(name) {
            Ok(Variable { name: T::from_text(name) })
        } else {
            Err(TermError::InvalidVariableName(name.to_owned()))
        }
    }

    /// A variable with a name that is known to be valid.
    pub fn new_unchecked(name: T) -> (r: Self)
        requires
            is_var_name(name.text()),
        ensures
            r@ == name.text(),
            r.wf(),
    {
        Variable { name }
    }

    /// The name.
    pub fn as_str(&self) -> (r: &str)
        ensures
            r@ == self@,
    {
        self.name.as_str()
    }

    /// A copy of `other` in another storage, made by `factory`.
    pub fn from_with<'a, U: TermData, F: Fn(&'a str) -> T>(
        other: &'a Variable<U>,
        factory: &F,
    ) -> (r: Self)
        requires
            forall|s: &'a str| call_requires(factory, (s,)),
            forall|s: &'a str, t: T| call_ensures(factory, (s,), t) ==> t.text() == s@,
        ensures
            r@ == other@,
    {
        Variable { name: factory(other.name.as_str()) }
    }
}

impl<T: TermData, U: TermData> PartialEq<Variable<U>> for Variable<T> {
    /// Two variables are equal when their names are the same.
    fn eq(&self, other: &Variable<U>) -> (r: bool) {
        text_eq(self.name.as_str(), other.name.as_str())
    }
}

impl<T: TermData, U: TermData> PartialEqSpecImpl<Variable<U>> for Variable<T> {
    open spec fn obeys_eq_spec() -> bool {
        true
    }

    open spec fn eq_spec(&self, other: &Variable<U>) -> bool {
        self@ == other@
    }
}

impl<T: TermData> Hash for Variable<T> {
    /// Feeds the name to the hasher.
    fn hash<H: Hasher>(&self, state: &mut H) {
        feed(state, self.name.as_str())
    }
}

} // verus!
