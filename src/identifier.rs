//! Rule keys: a window property kind and the value that property must hold,
//! written `<kind>=<value>`.

use vstd::prelude::*;
use vstd::string::StrSliceExecFns;

verus! {

#[derive(Copy, Clone, Debug, PartialEq, Eq, Hash, Structural)]
pub enum WindowIdentifierKind {
    Class,
    Name,
}

#[derive(Copy, Clone, Debug, PartialEq, Eq, Structural)]
pub enum IdentifierError {
    /// The text holds no `=` between kind and value.
    MissingSeparator,
    /// The text before the first `=` names no known kind.
    UnknownKind,
}

/// `c` equals `l`, or `c` is the ASCII uppercase form of the lowercase letter `l`.
pub open spec fn char_matches_lower(c: char, l: char) -> bool {
    c == l || ('a' <= l && l <= 'z' && c as u32 + 32 == l as u32)
}

/// `s` spells the lowercase word `word`, ignoring ASCII case.
pub open spec fn spells(s: Seq<char>, word: Seq<char>) -> bool {
    s.len() == word.len() && forall|i: int| 0 <= i < s.len() ==> char_matches_lower(#[trigger] s[i], word[i])
}

pub open spec fn names_class(s: Seq<char>) -> bool {
    spells(s, "wm_class"@) || spells(s, "wmc"@) || spells(s, "wc"@) || spells(s, "c"@)
        || spells(s, "cls"@) || spells(s, "wcls"@) || spells(s, "class"@)
}

pub open spec fn names_name(s: Seq<char>) -> bool {
    spells(s, "wm_name"@) || spells(s, "wmn"@) || spells(s, "wn"@) || spells(s, "n"@)
        || spells(s, "name"@)
}

/// The kind that the text `s` names, if any.
pub open spec fn kind_of(s: Seq<char>) -> Option<WindowIdentifierKind> {
    if names_class(s) {
        Some(WindowIdentifierKind::Class)
    } else if names_name(s) {
        Some(WindowIdentifierKind::Name)
    } else {
        None
    }
}

/// The canonical spelling of a kind.
pub open spec fn kind_tag(k: WindowIdentifierKind) -> Seq<char> {
    match k {
        WindowIdentifierKind::Class => "wm_class"@,
        WindowIdentifierKind::Name => "wm_name"@,
    }
}

/// `i` is the position of the first `=` in `s`.
pub open spec fn is_first_separator(s: Seq<char>, i: int) -> bool {
    0 <= i < s.len() && s[i] == '=' && forall|j: int| 0 <= j < i ==> s[j] != '='
}

/// What the text `s` parses to: the kind named before the first `=`, and
/// everything after it as the value.
pub open spec fn parse_spec(s: Seq<char>) -> Result<(WindowIdentifierKind, Seq<char>), IdentifierError> {
    if exists|i: int| is_first_separator(s, i) {
        let i = choose|i: int| is_first_separator(s, i);
        match kind_of(s.take(i)) {
            Some(k) => Ok((k, s.skip(i + 1))),
            None => Err(IdentifierError::UnknownKind),
        }
    } else {
        Err(IdentifierError::MissingSeparator)
    }
}

/// The canonical text of a rule key.
pub open spec fn display_spec(k: WindowIdentifierKind, value: Seq<char>) -> Seq<char> {
    kind_tag(k) + seq!['='] + value
}

/// Case-insensitive comparison of `s` with the lowercase word `word`.
fn spells_word(s: &str, word: &str) -> (r: bool)
    ensures
        r == spells(s@, word@),
{
    let n = s.unicode_len();
    if n != word.unicode_len() {
        return false;
    }
    let mut i: usize = 0;
    while i < n
        invariant
            n == s@.len(),
            n == word@.len(),
            i <= n,
            forall|j: int| 0 <= j < i ==> char_matches_lower(#[trigger] s@[j], word@[j]),
        decreases n - i,
    {
        let c = s.get_char(i);
        let l = word.get_char(i);
        if !(c == l || ('a' <= l && l <= 'z' && c as u32 + 32 == l as u32)) {
            return false;
        }
        i = i + 1;
    }
    true
}

impl WindowIdentifierKind {
    /// Reads a kind from any of its spellings, ignoring ASCII case.
    pub fn parse(s: &str) -> (r: Result<WindowIdentifierKind, IdentifierError>)
        ensures
            r == (match kind_of(s@) {
                Some(k) => Ok(k),
                None => Err(IdentifierError::UnknownKind),
            }),
    {
        if spells_word(s, "wm_class") || spells_word(s, "wmc") || spells_word(s, "wc")
            || spells_word(s, "c") || spells_word(s, "cls") || spells_word(s, "wcls")
            || spells_word(s, "class") {
            Ok(WindowIdentifierKind::Class)
        } else if spells_word(s, "wm_name") || spells_word(s, "wmn") || spells_word(s, "wn")
            || spells_word(s, "n") || spells_word(s, "name") {
            Ok(WindowIdentifierKind::Name)
        } else {
            Err(IdentifierError::UnknownKind)
        }
    }
}

impl std::str::FromStr for WindowIdentifierKind {
    type Err = IdentifierError;

    fn from_str(s: &str) -> Result<Self, Self::Err> {
        WindowIdentifierKind::parse(s)
    }
}

/// A rule key: a window property kind and the value it must hold.
#[derive(Clone, Debug)]
pub struct WindowIdentifier {
    pub kind: WindowIdentifierKind,
    pub value: String,
}

impl WindowIdentifier {
    /// The key as a pair of plain values; two identifiers name the same rule
    /// exactly when their keys are equal.
    pub open spec fn key(&self) -> (WindowIdentifierKind, Seq<char>) {
        (self.kind, self.value@)
    }

    /// Reads `<kind>=<value>`, splitting at the first `=`.
    pub fn parse(s: &str) -> (r: Result<WindowIdentifier, IdentifierError>)
        ensures
            (forall|j: int| 0 <= j < s@.len() ==> s@[j] != '=') ==> r == Err::<WindowIdentifier, IdentifierError>(
                IdentifierError::MissingSeparator,
            ),
            match r {
                Ok(id) => parse_spec(s@) == Ok::<_, IdentifierError>(id.key()),
                Err(e) => parse_spec(s@) == Err::<(WindowIdentifierKind, Seq<char>), _>(e),
            },
    {
        let len = s.unicode_len();
        let mut i: usize = 0;
        while i < len && s.get_char(i) != '='
            invariant
                len == s@.len(),
                i <= len,
                forall|j: int| 0 <= j < i ==> s@[j] != '=',
            decreases len - i,
        {
            i = i + 1;
        }
        if i == len {
            return Err(IdentifierError::MissingSeparator);
        }
        proof {
            assert(is_first_separator(s@, i as int));
            let c = choose|c: int| is_first_separator(s@, c);
            assert(c == i as int) by {
                if c < i as int {
                    assert(s@[c] != '=');
                } else if c > i as int {
                    assert(s@[i as int] != '=');
                }
            }
        }
        let head = s.substring_char(0, i);
        assert(head@ =~= s@.take(i as int));
        match WindowIdentifierKind::parse(head) {
            Ok(kind) => {
                let tail = s.substring_char(i + 1, len);
                assert(tail@ =~= s@.skip(i + 1));
                Ok(WindowIdentifier { kind, value: tail.to_owned() })
            },
            Err(e) => Err(e),
        }
    }

    /// The canonical text `wm_class=<value>` or `wm_name=<value>`.
    pub fn to_string(&self) -> (r: String)
        ensures
            r@ == display_spec(self.kind, self.value@),
    {
        let mut r = match self.kind {
            WindowIdentifierKind::Class => String::from_str("wm_class="),
            WindowIdentifierKind::Name => String::from_str("wm_name="),
        };
        proof {
            reveal_strlit("wm_class=");
            reveal_strlit("wm_class");
            reveal_strlit("wm_name=");
            reveal_strlit("wm_name");
            assert("wm_class="@ =~= "wm_class"@ + seq!['=']);
            assert("wm_name="@ =~= "wm_name"@ + seq!['=']);
        }
        r.append(self.value.as_str());
        r
    }
}

impl std::str::FromStr for WindowIdentifier {
    type Err = IdentifierError;

    fn from_str(s: &str) -> Result<Self, Self::Err> {
        WindowIdentifier::parse(s)
    }
}

/// Writing a key in its canonical text and reading that text back gives the
/// same key, whatever the value holds.
pub proof fn lemma_display_parse_round_trip(k: WindowIdentifierKind, value: Seq<char>)
    ensures
        parse_spec(display_spec(k, value)) == Ok::<_, IdentifierError>((k, value)),
{
    reveal_strlit("wm_class");
    reveal_strlit("wm_name");
    reveal_strlit("wmc");
    reveal_strlit("wc");
    reveal_strlit("c");
    reveal_strlit("cls");
    reveal_strlit("wcls");
    reveal_strlit("class");
    let s = display_spec(k, value);
    let tag = kind_tag(k);
    let t = tag.len() as int;
    assert forall|j: int| 0 <= j < t implies s[j] != '=' by {
        assert(s[j] == tag[j]);
    }
    assert(is_first_separator(s, t));
    let c = choose|c: int| is_first_separator(s, c);
    assert(c == t) by {
        if c < t {
            assert(s[c] != '=');
        } else if c > t {
            assert(s[t] != '=');
        }
    }
    assert(s.take(t) =~= tag);
    assert(s.skip(t + 1) =~= value);
    assert(spells(tag, tag));
}

} // verus!
