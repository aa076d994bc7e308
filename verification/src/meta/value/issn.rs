//! ISSN validation: four digits, a dash, three digits, then a digit or `X`.

use vstd::prelude::*;
use crate::error::MetaError;
use crate::error::MetaResult;

verus! {

/// Whether `c` is a decimal digit.
pub open spec fn is_digit_char(c: char) -> bool {
    48 <= (c as u32) && (c as u32) <= 57
}

/// The ISSN shape: `DDDD-DDDC` where `C` is a digit or `X`.
pub open spec fn spec_is_issn(s: Seq<char>) -> bool {
    &&& s.len() == 9
    &&& is_digit_char(s[0])
    &&& is_digit_char(s[1])
    &&& is_digit_char(s[2])
    &&& is_digit_char(s[3])
    &&& (s[4] as u32) == 45
    &&& is_digit_char(s[5])
    &&& is_digit_char(s[6])
    &&& is_digit_char(s[7])
    &&& (is_digit_char(s[8]) || (s[8] as u32) == 88)
}

/// Whether position `i` of `text` holds a decimal digit.
fn digit_at(text: &str, i: usize) -> (r: bool)
    requires
        i < text@.len(),
    ensures
        r == is_digit_char(text@[i as int]),
{
    let c = text.get_char(i);
    let u = c as u32;
    48 <= u && u <= 57
}

/// Whether `text` has the ISSN shape.
pub fn is_issn(text: &str) -> (r: bool)
    ensures
        r == spec_is_issn(text@),
{
    if text.unicode_len() != 9 {
        return false;
    }
    digit_at(text, 0) && digit_at(text, 1) && digit_at(text, 2) && digit_at(text, 3) && (text.get_char(4) as u32) == 45 && digit_at(text, 5)
        && digit_at(text, 6) && digit_at(text, 7) && (digit_at(text, 8) || (text.get_char(8) as u32) == 88)
}

/// A serial number in ISSN shape.
#[derive(Debug)]
pub struct Issn {
    pub data: String,
}

impl Issn {
    /// The stored text has the ISSN shape.
    pub open spec fn wf(self) -> bool {
        spec_is_issn(self.data@)
    }

    /// Accept `text` exactly when it has the ISSN shape.
    pub fn from_str(text: &str) -> (r: MetaResult<Issn>)
        ensures
            (r is Ok) == spec_is_issn(text@),
            r matches Ok(i) ==> i.data@ == text@ && i.wf(),
            r matches Err(e) ==> e == MetaError::IssnParse,
    {
        if is_issn(text) {
            Ok(Issn { data: text.to_owned() })
        } else {
            Err(MetaError::IssnParse)
        }
    }
}

} // verus!
