//! The element model the scanner works on: a tag name plus an ordered
//! attribute list, as handed over by the DOM layer.

use vstd::prelude::*;

verus! {

/// One document element, reduced to what the metadata items inspect:
/// its tag name and its attributes in document order.
#[derive(Debug, Clone)]
pub struct Elem {
    pub name: String,
    pub attrs: Vec<(String, String)>,
}

/// The value of the first attribute in `attrs` whose name is `name`.
pub open spec fn attr_lookup(attrs: Seq<(String, String)>, name: Seq<char>) -> Option<Seq<char>>
    decreases attrs.len(),
{
    if attrs.len() == 0 {
        None
    } else if attrs[0].0@ == name {
        Some(attrs[0].1@)
    } else {
        attr_lookup(attrs.drop_first(), name)
    }
}

/// The attribute getter the decode layer relies on.
pub open spec fn attr_of(e: Elem, name: Seq<char>) -> Option<Seq<char>> {
    attr_lookup(e.attrs@, name)
}

/// Relies on `str`'s `PartialEq`: two `&str` are equal exactly when they
/// hold the same characters.
#[verifier::external_body]
pub(crate) fn str_eq(a: &str, b: &str) -> (r: bool)
    ensures
        r == (a@ == b@),
{
    a == b
}

impl Elem {
    /// The value of the first attribute named `name`, if any.
    pub fn get_attr<'a>(&'a self, name: &str) -> (r: Option<&'a String>)
        ensures
            match r {
                Some(v) => attr_of(*self, name@) == Some(v@),
                None => attr_of(*self, name@) is None,
            },
    {
        let n = self.attrs.len();
        let mut i: usize = 0;
        assert(self.attrs@.skip(0) =~= self.attrs@);
        while i < n
            invariant
                i <= n,
                n == self.attrs@.len(),
                attr_lookup(self.attrs@, name@) == attr_lookup(self.attrs@.skip(i as int), name@),
            decreases n - i,
        {
            let pair = &self.attrs[i];
            if str_eq(pair.0.as_str(), name) {
                assert(self.attrs@.skip(i as int)[0] == self.attrs@[i as int]);
                return Some(&self.attrs[i].1);
            }
            assert(self.attrs@.skip(i as int).drop_first() =~= self.attrs@.skip(i + 1));
            i = i + 1;
        }
        assert(self.attrs@.skip(i as int).len() == 0);
        None
    }

    /// Whether this element carries attribute `name` with exactly `value`.
    pub fn has_attr_value(&self, name: &str, value: &str) -> (r: bool)
        ensures
            r == (attr_of(*self, name@) == Some(value@)),
    {
        match self.get_attr(name) {
            Some(v) => str_eq(v.as_str(), value),
            None => false,
        }
    }
}

} // verus!
