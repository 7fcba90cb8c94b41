//! IRI references, stored whole or cut in a namespace and a suffix.
use crate::error::{TermError, TermErrorView};
use crate::lexical::{check_iri_chars, check_scheme, has_scheme, is_iri_ref};
use crate::term_data::{FromText, TermData};
use crate::text::{chars_of, chars_of_pair, concat_eq, push_str, string_of};
use crate::hashing::feed;
use std::borrow::Cow;
use std::hash::{Hash, Hasher};
use vstd::prelude::*;
use vstd::std_specs::cmp::PartialEqSpecImpl;

verus! {

/// How an IRI is cut in a namespace and a suffix.
#[derive(Clone, Copy, Debug, PartialEq, Eq, Structural)]
pub enum Normalization {
    /// The whole text is the namespace; there is no suffix.
    NoSuffix,
    /// The namespace ends with the last `#` or `/` of the text, and the
    /// suffix is what follows. A text without `#` and `/`, or that ends
    /// with one, has no suffix.
    LastHashOrSlash,
}

/// `#` or `/`, after which an IRI may be cut.
pub open spec fn is_separator(c: char) -> bool {
    c == '#' || c == '/'
}

/// No character of `s` is a separator.
pub open spec fn no_separator(s: Seq<char>) -> bool {
    forall|i: int| 0 <= i < s.len() ==> !is_separator(#[trigger] s[i])
}

/// The cut of a text in `ns` and `suffix` is the one that `policy` asks
/// for. For each text and policy there is exactly one such cut.
pub open spec fn in_form(ns: Seq<char>, suffix: Option<Seq<char>>, policy: Normalization) -> bool {
    match policy {
        Normalization::NoSuffix => suffix is None,
        Normalization::LastHashOrSlash => match suffix {
            None => ns.len() == 0 || is_separator(ns.last()) || no_separator(ns),
            Some(sf) => sf.len() > 0 && ns.len() > 0 && is_separator(ns.last()) && no_separator(
                sf,
            ),
        },
    }
}

/// A text has one cut only in the form that a policy asks for: two cuts of
/// the same text, both in the form, are the same cut.
pub proof fn lemma_in_form_unique(
    ns1: Seq<char>,
    suffix1: Option<Seq<char>>,
    ns2: Seq<char>,
    suffix2: Option<Seq<char>>,
    policy: Normalization,
)
    requires
        ns1 + suffix_text(suffix1) == ns2 + suffix_text(suffix2),
        in_form(ns1, suffix1, policy),
        in_form(ns2, suffix2, policy),
    ensures
        ns1 == ns2,
        suffix1 == suffix2,
{
    let text = ns1 + suffix_text(suffix1);
    let sf1 = suffix_text(suffix1);
    let sf2 = suffix_text(suffix2);
    assert(text.len() == ns1.len() + sf1.len());
    assert(text.len() == ns2.len() + sf2.len());
    if ns1.len() < ns2.len() {
        // the last character of `ns2` lies in the first suffix
        let k = ns2.len() - 1;
        assert(text[k] == ns2[k]);
        assert(text[k] == sf1[k - ns1.len()]);
        assert(suffix2 is Some ==> is_separator(ns2.last()));
        if suffix2 is None {
            assert(sf1.last() == text.last());
            assert(ns2.last() == text.last());
            assert(is_separator(ns1.last()));
            assert(text[ns1.len() - 1] == ns1.last());
            assert(ns2[ns1.len() - 1] == ns1.last());
        }
        assert(false);
    } else if ns2.len() < ns1.len() {
        let k = ns1.len() - 1;
        assert(text[k] == ns1[k]);
        assert(text[k] == sf2[k - ns2.len()]);
        assert(suffix1 is Some ==> is_separator(ns1.last()));
        if suffix1 is None {
            assert(sf2.last() == text.last());
            assert(ns1.last() == text.last());
            assert(is_separator(ns2.last()));
            assert(text[ns2.len() - 1] == ns2.last());
            assert(ns1[ns2.len() - 1] == ns2.last());
        }
        assert(false);
    } else {
        assert(ns1 =~= text.take(ns1.len() as int));
        assert(ns2 =~= text.take(ns1.len() as int));
        assert(sf1 =~= text.skip(ns1.len() as int));
        assert(sf2 =~= text.skip(ns1.len() as int));
    }
}

/// The text of an optional suffix.
pub open spec fn suffix_text(suffix: Option<Seq<char>>) -> Seq<char> {
    match suffix {
        Some(s) => s,
        None => Seq::empty(),
    }
}

/// An IRI reference. Its text is the namespace followed by the suffix; how
/// the text is cut between the two is invisible to equality.
#[derive(Clone, Copy, Debug, Eq)]
pub struct Iri<T: TermData> {
    ns: T,
    suffix: Option<T>,
    absolute: bool,
}

impl<T: TermData> View for Iri<T> {
    type V = Seq<char>;

    /// The whole text of the IRI.
    open spec fn view(&self) -> Seq<char> {
        self.spec_ns() + suffix_text(self.spec_suffix())
    }
}

impl<T: TermData> Iri<T> {
    /// The text of the namespace.
    pub closed spec fn spec_ns(&self) -> Seq<char> {
        self.ns.text()
    }

    /// The text of the suffix, if there is one.
    pub closed spec fn spec_suffix(&self) -> Option<Seq<char>> {
        match self.suffix {
            Some(s) => Some(s.text()),
            None => None,
        }
    }

    /// The flag that says whether the IRI is absolute.
    pub closed spec fn spec_absolute(&self) -> bool {
        self.absolute
    }

    /// The text is an IRI reference, and the flag says whether it starts
    /// with a scheme.
    pub open spec fn wf(&self) -> bool {
        &&& is_iri_ref(self@)
        &&& self.spec_absolute() == has_scheme(self@)
    }

    /// An IRI with the text of `iri`, stored whole.
    ///
    /// Fails with `InvalidIri` exactly when the text is not an IRI
    /// reference.
    pub fn new<'a>(iri: &'a str) -> (r: Result<Self, TermError>) where T: FromText<'a>
        ensures
            is_iri_ref(iri@) ==> r is Ok,
            r matches Ok(i) ==> i@ == iri@ && i.wf() && i.spec_ns() == iri@ && i.spec_suffix()
                is None,
            r matches Err(e) ==> !is_iri_ref(iri@) && e@ == TermErrorView::InvalidIri(iri@),
    {
        let v = chars_of(iri);
        if check_iri_chars(&v) {
            let absolute = check_scheme(&v);
            let i = Iri { ns: T::from_text(iri), suffix: None, absolute };
            assert(i@ =~= iri@);
            Ok(i)
        } else {
            Err(TermError::InvalidIri(iri.to_owned()))
        }
    }

    /// An IRI whose text is `ns` followed by `suffix`, stored in two parts.
    ///
    /// Fails with `InvalidIri` exactly when the whole text is not an IRI
    /// reference; the error holds the whole text.
    pub fn new_suffixed<'a>(ns: &'a str, suffix: &'a str) -> (r: Result<Self, TermError>) where
        T: FromText<'a>,

        ensures
            is_iri_ref(ns@ + suffix@) ==> r is Ok,
            r matches Ok(i) ==> i@ == ns@ + suffix@ && i.wf() && i.spec_ns() == ns@
                && i.spec_suffix() == Some(suffix@),
            r matches Err(e) ==> !is_iri_ref(ns@ + suffix@)
                && e@ == TermErrorView::InvalidIri(ns@ + suffix@),
    {
        let v = chars_of_pair(ns, suffix);
        if check_iri_chars(&v) {
            let absolute = check_scheme(&v);
            let i = Iri { ns: T::from_text(ns), suffix: Some(T::from_text(suffix)), absolute };
            Ok(i)
        } else {
            let mut whole = ns.to_owned();
            push_str(&mut whole, suffix);
            Err(TermError::InvalidIri(whole))
        }
    }

    /// An IRI made of parts that are known to be valid.
    pub fn new_unchecked(ns: T, suffix: Option<T>, absolute: bool) -> (r: Self)
        requires
            is_iri_ref(
                ns.text() + suffix_text(
                    match suffix {
                        Some(s) => Some(s.text()),
                        None => None,
                    },
                ),
            ),
            absolute == has_scheme(
                ns.text() + suffix_text(
                    match suffix {
                        Some(s) => Some(s.text()),
                        None => None,
                    },
                ),
            ),
        ensures
            r.wf(),
            r.spec_ns() == ns.text(),
            r.spec_suffix() == (match suffix {
                Some(s) => Some(s.text()),
                None => None,
            }),
            r.spec_absolute() == absolute,
    {
        Iri { ns, suffix, absolute }
    }

    /// The namespace.
    pub fn ns(&self) -> (r: &T)
        ensures
            r.text() == self.spec_ns(),
    {
        &self.ns
    }

    /// The suffix, if there is one.
    pub fn suffix(&self) -> (r: &Option<T>)
        ensures
            r is Some == self.spec_suffix() is Some,
            r matches Some(s) ==> Some(s.text()) == self.spec_suffix(),
    {
        &self.suffix
    }

    /// Whether the IRI is absolute.
    pub fn is_absolute(&self) -> (r: bool)
        ensures
            r == self.spec_absolute(),
            self.wf() ==> r == has_scheme(self@),
    {
        self.absolute
    }

    /// The characters of the whole text.
    pub fn chars(&self) -> (r: Vec<char>)
        ensures
            r@ == self@,
    {
        match &self.suffix {
            Some(s) => chars_of_pair(self.ns.as_str(), s.as_str()),
            None => {
                let v = chars_of(self.ns.as_str());
                assert(self@ =~= self.ns.text());
                v
            },
        }
    }

    /// Whether the whole text is `text`.
    pub fn is(&self, text: &str) -> (r: bool)
        ensures
            r == (self@ == text@),
    {
        let a = match &self.suffix {
            Some(s) => s.as_str(),
            None => "",
        };
        proof {
            reveal_strlit("");
            assert(self@ =~= self.ns.text() + a@);
            assert(text@ + ""@ =~= text@);
        }
        concat_eq(self.ns.as_str(), a, text, "")
    }

    /// The whole text, in one new string.
    pub fn value(&self) -> (r: String)
        ensures
            r@ == self@,
    {
        let mut out = String::new();
        self.write_to(&mut out);
        assert(out@ =~= self@);
        out
    }

    /// Appends the whole text to `out`.
    pub fn write_to(&self, out: &mut String)
        ensures
            final(out)@ == old(out)@ + self@,
    {
        push_str(out, self.ns.as_str());
        match &self.suffix {
            Some(s) => {
                push_str(out, s.as_str());
                assert(out@ =~= old(out)@ + self@);
            },
            None => {
                assert(out@ =~= old(out)@ + self@);
            },
        }
    }

    /// A copy of `other` in another storage, each part made by `factory`.
    pub fn from_with<'a, U: TermData, F: Fn(&'a str) -> T>(other: &'a Iri<U>, factory: &F) -> (r:
        Self)
        requires
            forall|s: &'a str| call_requires(factory, (s,)),
            forall|s: &'a str, t: T| call_ensures(factory, (s,), t) ==> t.text() == s@,
        ensures
            r@ == other@,
            r.spec_ns() == other.spec_ns(),
            r.spec_suffix() == other.spec_suffix(),
            r.spec_absolute() == other.spec_absolute(),
    {
        let ns = factory(other.ns.as_str());
        let suffix = match &other.suffix {
            Some(s) => Some(factory(s.as_str())),
            None => None,
        };
        Iri { ns, suffix, absolute: other.absolute }
    }

    /// A copy of this IRI in another storage, each part made by `factory`.
    pub fn copy_with<'a, U: TermData, F: Fn(&'a str) -> U>(&'a self, factory: &F) -> (r: Iri<U>)
        requires
            forall|s: &'a str| call_requires(factory, (s,)),
            forall|s: &'a str, t: U| call_ensures(factory, (s,), t) ==> t.text() == s@,
        ensures
            r@ == self@,
            r.spec_ns() == self.spec_ns(),
            r.spec_suffix() == self.spec_suffix(),
            r.spec_absolute() == self.spec_absolute(),
    {
        Iri::from_with(self, factory)
    }

    /// This IRI with its parts borrowed.
    pub fn as_ref_iri<'a>(&'a self) -> (r: Iri<&'a str>)
        ensures
            r@ == self@,
            r.spec_ns() == self.spec_ns(),
            r.spec_suffix() == self.spec_suffix(),
            r.spec_absolute() == self.spec_absolute(),
    {
        let suffix = match &self.suffix {
            Some(s) => Some(s.as_str()),
            None => None,
        };
        Iri { ns: self.ns.as_str(), suffix, absolute: self.absolute }
    }

    /// Whether the text is already cut as `policy` asks.
    pub fn is_normalized(&self, policy: Normalization) -> (r: bool)
        ensures
            r == in_form(self.spec_ns(), self.spec_suffix(), policy),
    {
        match policy {
            Normalization::NoSuffix => self.suffix.is_none(),
            Normalization::LastHashOrSlash => {
                let ns = chars_of(self.ns.as_str());
                match &self.suffix {
                    None => ns.len() == 0 || separator(ns[ns.len() - 1]) || last_cut(&ns) == 0,
                    Some(s) => {
                        let sf = chars_of(s.as_str());
                        sf.len() > 0 && ns.len() > 0 && separator(ns[ns.len() - 1]) && last_cut(
                            &sf,
                        ) == 0
                    },
                }
            },
        }
    }

    /// This IRI cut as `policy` asks: itself, borrowed, when it is already
    /// cut so, and otherwise a new IRI with the same text.
    pub fn normalized(&self, policy: Normalization) -> (r: Cow<'_, Self>) where
        T: Clone + for <'x>FromText<'x>,

        ensures
            r matches Cow::Borrowed(b) ==> *b == *self && in_form(
                self.spec_ns(),
                self.spec_suffix(),
                policy,
            ),
            r matches Cow::Owned(o) ==> o@ == self@ && o.spec_absolute() == self.spec_absolute()
                && in_form(o.spec_ns(), o.spec_suffix(), policy) && !in_form(
                self.spec_ns(),
                self.spec_suffix(),
                policy,
            ),
    {
        if self.is_normalized(policy) {
            return Cow::Borrowed(self);
        }
        let v = self.chars();
        let n = v.len();
        let k = match policy {
            Normalization::NoSuffix => n,
            Normalization::LastHashOrSlash => last_cut(&v),
        };
        if k == 0 || k == n {
            let whole = string_of(&v, 0, n);
            assert(v@.subrange(0, n as int) =~= v@);
            let o = Iri { ns: T::from_text(whole.as_str()), suffix: None, absolute: self.absolute };
            assert(o@ =~= self@);
            Cow::Owned(o)
        } else {
            let ns = string_of(&v, 0, k);
            let sf = string_of(&v, k, n);
            let o = Iri {
                ns: T::from_text(ns.as_str()),
                suffix: Some(T::from_text(sf.as_str())),
                absolute: self.absolute,
            };
            assert(o@ =~= self@);
            Cow::Owned(o)
        }
    }
}

fn separator(c: char) -> (b: bool)
    ensures
        b == is_separator(c),
{
    c == '#' || c == '/'
}

/// The place just after the last separator of `v`, or 0 where it has none.
fn last_cut(v: &Vec<char>) -> (k: usize)
    ensures
        k <= v.len(),
        k > 0 ==> is_separator(v@[k - 1]),
        forall|j: int| k <= j < v.len() ==> !is_separator(#[trigger] v@[j]),
        k == 0 <==> no_separator(v@),
{
    let mut k: usize = v.len();
    while k > 0
        invariant
            k <= v.len(),
            forall|j: int| k <= j < v.len() ==> !is_separator(#[trigger] v@[j]),
        decreases k,
    {
        if separator(v[k - 1]) {
            assert(!no_separator(v@));
            return k;
        }
        k -= 1;
    }
    k
}

impl<T: TermData, U: TermData> PartialEq<Iri<U>> for Iri<T> {
    /// Two IRIs are equal when their whole texts are the same.
    fn eq(&self, other: &Iri<U>) -> (r: bool) {
        let a = match &self.suffix {
            Some(s) => s.as_str(),
            None => "",
        };
        let b = match &other.suffix {
            Some(s) => s.as_str(),
            None => "",
        };
        proof {
            reveal_strlit("");
            assert(self@ =~= self.ns.text() + a@);
            assert(other@ =~= other.ns.text() + b@);
        }
        concat_eq(self.ns.as_str(), a, other.ns.as_str(), b)
    }
}

impl<T: TermData, U: TermData> PartialEqSpecImpl<Iri<U>> for Iri<T> {
    open spec fn obeys_eq_spec() -> bool {
        true
    }

    open spec fn eq_spec(&self, other: &Iri<U>) -> bool {
        self@ == other@
    }
}

impl<T: TermData> Hash for Iri<T> {
    /// Feeds the whole text to the hasher, so that the cut between
    /// namespace and suffix does not show in the hash.
    fn hash<H: Hasher>(&self, state: &mut H) {
        let whole = self.value();
        feed(state, whole.as_str())
    }
}

} // verus!
