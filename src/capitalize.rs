//! The two capitalization strategies applied to a window's class value.

use vstd::prelude::*;
use vstd::string::StrSliceExecFns;

use convert_case::{Case, Casing};

verus! {

/// What `char::to_uppercase` yields for a character: its Unicode uppercase
/// mapping, which may be more than one character.
pub uninterp spec fn upper_of(c: char) -> Seq<char>;

/// What convert_case's `Case::Title` conversion makes of a string: split into
/// words, each word's first letter uppercased and the rest lowercased, the
/// words joined by single spaces.
pub uninterp spec fn title_of(s: Seq<char>) -> Seq<char>;

/// Relies on `char::to_uppercase`: its documentation promises one or more
/// characters, the uppercase mapping of `c`; an ASCII lowercase letter maps
/// to its ASCII capital alone.
#[verifier::external_body]
fn uppercase_char(c: char) -> (r: String)
    ensures
        r@ == upper_of(c),
        r@.len() >= 1,
        'a' <= c && c <= 'z' ==> r@.len() == 1 && r@[0] as u32 + 32 == c as u32,
{
    c.to_uppercase().collect()
}

/// Relies on convert_case's `Casing::to_case` with `Case::Title`; an empty
/// text has no words, and their join is empty.
#[verifier::external_body]
fn title_case(s: &str) -> (r: String)
    ensures
        r@ == title_of(s@),
        s@.len() == 0 ==> r@.len() == 0,
{
    s.to_case(Case::Title)
}

/// `s` with its first character replaced by its uppercase mapping.
pub open spec fn first_capitalized(s: Seq<char>) -> Seq<char> {
    if s.len() == 0 {
        s
    } else {
        upper_of(s[0]) + s.drop_first()
    }
}

/// Uppercases the first character of `s` and keeps the rest as it is.
pub fn capitalize_first(s: &str) -> (r: String)
    ensures
        r@ == first_capitalized(s@),
        s@.len() == 0 <==> r@.len() == 0,
        r@.len() >= s@.len(),
        s@.len() > 0 ==> upper_of(s@[0]).len() >= 1 && r@.skip(upper_of(s@[0]).len() as int) == s@.drop_first(),
        s@.len() > 0 && 'a' <= s@[0] && s@[0] <= 'z' ==> r@.len() == s@.len() && r@[0] as u32 + 32
            == s@[0] as u32 && r@.drop_first() == s@.drop_first(),
{
    let len = s.unicode_len();
    if len == 0 {
        return String::new();
    }
    let mut r = uppercase_char(s.get_char(0));
    let ghost upper = r@;
    let rest = s.substring_char(1, len);
    r.append(rest);
    assert(rest@ =~= s@.drop_first());
    assert(r@.skip(upper.len() as int) =~= s@.drop_first());
    proof {
        if 'a' <= s@[0] && s@[0] <= 'z' {
            assert(r@.drop_first() =~= s@.drop_first());
        }
    }
    r
}

#[derive(Copy, Clone, Debug, PartialEq, Eq, Structural)]
pub enum CapitalizeMode {
    FirstLetter,
    AllWords,
}

impl CapitalizeMode {
    /// The label that `value` becomes under this mode.
    pub open spec fn apply(self, value: Seq<char>) -> Seq<char> {
        match self {
            CapitalizeMode::FirstLetter => first_capitalized(value),
            CapitalizeMode::AllWords => title_of(value),
        }
    }

    pub fn capitalize(&self, value: &str) -> (r: String)
        ensures
            r@ == self.apply(value@),
            value@.len() == 0 ==> r@.len() == 0,
    {
        match self {
            CapitalizeMode::FirstLetter => capitalize_first(value),
            CapitalizeMode::AllWords => title_case(value),
        }
    }
}

impl Default for CapitalizeMode {
    fn default() -> (r: Self)
        ensures
            r == CapitalizeMode::FirstLetter,
    {
        CapitalizeMode::FirstLetter
    }
}

} // verus!
