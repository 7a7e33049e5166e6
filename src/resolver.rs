//! The rule table and the resolution of a window's class and name to a label.

use vstd::prelude::*;
use vstd::string::StrSliceExecFns;

use crate::capitalize::CapitalizeMode;
use crate::filter::{Filter, Options};
use crate::identifier::{WindowIdentifier, WindowIdentifierKind};

verus! {

/// The rule table: options applied when no rule matches, the label of the
/// desktop, and the rules keyed by window identifier.
#[derive(Clone, Debug)]
pub struct Resolver {
    pub global_options: Option<Options>,
    pub desktop_name: Option<String>,
    pub filters: Vec<(WindowIdentifier, Filter)>,
}

impl Resolver {
    /// No two rules share a key.
    pub open spec fn wf(&self) -> bool {
        forall|i: int, j: int|
            0 <= i < self.filters@.len() && 0 <= j < self.filters@.len() && i != j
                ==> (#[trigger] self.filters@[i]).0.key() != (#[trigger] self.filters@[j]).0.key()
    }

    pub open spec fn has_rule(&self, k: (WindowIdentifierKind, Seq<char>)) -> bool {
        exists|i: int| 0 <= i < self.filters@.len() && (#[trigger] self.filters@[i]).0.key() == k
    }

    pub open spec fn rule_index(&self, k: (WindowIdentifierKind, Seq<char>)) -> int {
        choose|i: int| 0 <= i < self.filters@.len() && (#[trigger] self.filters@[i]).0.key() == k
    }

    /// The rules, as a map from key to filter.
    pub open spec fn rules(&self) -> Map<(WindowIdentifierKind, Seq<char>), Filter> {
        Map::new(|k: (WindowIdentifierKind, Seq<char>)| self.has_rule(k), |k: (WindowIdentifierKind, Seq<char>)| self.filters@[self.rule_index(k)].1)
    }

    /// The filter that applies to a window of class `class` and name `name`:
    /// a rule on the class, else a rule on the name, else the global options.
    pub open spec fn filter_for(&self, class: Seq<char>, name: Seq<char>) -> Option<Filter> {
        if self.rules().contains_key((WindowIdentifierKind::Class, class)) {
            Some(self.rules()[(WindowIdentifierKind::Class, class)])
        } else if self.rules().contains_key((WindowIdentifierKind::Name, name)) {
            Some(self.rules()[(WindowIdentifierKind::Name, name)])
        } else {
            match self.global_options {
                Some(options) => Some(Filter::Options(options)),
                None => None,
            }
        }
    }

    /// The label of a window of class `class` and name `name`: the chosen
    /// filter applied to the class, or the class itself when none applies.
    pub open spec fn resolve_spec(&self, class: Seq<char>, name: Seq<char>) -> Seq<char> {
        match self.filter_for(class, name) {
            Some(f) => f.apply(class),
            None => class,
        }
    }

    /// The label shown when no window has the focus.
    pub open spec fn desktop_spec(&self) -> Seq<char> {
        match self.desktop_name {
            Some(d) => d@,
            None => Seq::empty(),
        }
    }

    /// A table with the given options and desktop label, and no rules.
    pub fn new(global_options: Option<Options>, desktop_name: Option<String>) -> (r: Resolver)
        ensures
            r.wf(),
            r.rules() == Map::<(WindowIdentifierKind, Seq<char>), Filter>::empty(),
            r.global_options == global_options,
            r.desktop_name == desktop_name,
    {
        let r = Resolver { global_options, desktop_name, filters: Vec::new() };
        assert(r.rules() =~= Map::<(WindowIdentifierKind, Seq<char>), Filter>::empty());
        r
    }

    /// The position of the rule keyed by `kind` and `value`, if there is one.
    fn find_rule(&self, kind: WindowIdentifierKind, value: &str) -> (r: Option<usize>)
        requires
            self.wf(),
        ensures
            match r {
                Some(i) => i < self.filters@.len() && self.filters@[i as int].0.key() == (kind, value@)
                    && self.rule_index((kind, value@)) == i,
                None => !self.has_rule((kind, value@)),
            },
    {
        let n = self.filters.len();
        let mut i: usize = 0;
        while i < n
            invariant
                self.wf(),
                n == self.filters@.len(),
                i <= n,
                forall|j: int| 0 <= j < i ==> (#[trigger] self.filters@[j]).0.key() != (kind, value@),
            decreases n - i,
        {
            let id = &self.filters[i].0;
            if id.kind == kind && same_text(id.value.as_str(), value) {
                proof {
                    let k = (kind, value@);
                    assert(self.filters@[i as int].0.key() == k);
                    assert(self.has_rule(k));
                    let c = self.rule_index(k);
                    assert(self.filters@[c].0.key() == k);
                    assert(0 <= c < self.filters@.len());
                    assert(self.filters@[c].0.key() == k);
                    if c != i as int {
                        assert(self.filters@[c].0.key() != self.filters@[i as int].0.key());
                    }
                }
                return Some(i);
            }
            i = i + 1;
        }
        None
    }

    /// The rule keyed by `kind` and `value`, if there is one.
    pub fn rule(&self, kind: WindowIdentifierKind, value: &str) -> (r: Option<&Filter>)
        requires
            self.wf(),
        ensures
            match r {
                Some(f) => self.rules().contains_key((kind, value@)) && *f == self.rules()[(kind, value@)],
                None => !self.rules().contains_key((kind, value@)),
            },
    {
        match self.find_rule(kind, value) {
            Some(i) => Some(&self.filters[i].1),
            None => None,
        }
    }

    /// Adds a rule, replacing the one with the same key if there is one.
    pub fn insert_filter(&mut self, id: WindowIdentifier, filter: Filter)
        requires
            old(self).wf(),
        ensures
            final(self).wf(),
            final(self).rules() == old(self).rules().insert(id.key(), filter),
            final(self).global_options == old(self).global_options,
            final(self).desktop_name == old(self).desktop_name,
    {
        let ghost k = id.key();
        let ghost before = *self;
        match self.find_rule(id.kind, id.value.as_str()) {
            Some(i) => {
                self.filters.set(i, (id, filter));
                proof {
                    assert(self.filters@[i as int].0.key() == k);
                    assert(before.filters@[i as int].0.key() == k);
                    assert forall|kk: (WindowIdentifierKind, Seq<char>)|
                        #![auto]
                        self.has_rule(kk) == before.has_rule(kk) by {
                        if before.has_rule(kk) {
                            let j = before.rule_index(kk);
                            if j == i as int {
                                assert(self.filters@[j].0.key() == kk);
                            } else {
                                assert(self.filters@[j] == before.filters@[j]);
                            }
                        }
                        if self.has_rule(kk) {
                            let j = self.rule_index(kk);
                            if j != i as int {
                                assert(self.filters@[j] == before.filters@[j]);
                            }
                        }
                    }
                    assert forall|kk: (WindowIdentifierKind, Seq<char>)|
                        #![auto]
                        self.has_rule(kk) && kk != k implies
                            self.filters@[self.rule_index(kk)].1 == before.filters@[before.rule_index(kk)].1 by {
                        let j = self.rule_index(kk);
                        let j0 = before.rule_index(kk);
                        assert(j != i as int);
                        assert(before.filters@[j] == self.filters@[j]);
                        assert(j == j0);
                    }
                    assert(self.has_rule(k));
                    assert(self.rule_index(k) == i as int);
                    assert(self.rules() =~= before.rules().insert(k, filter));
                }
            },
            None => {
                self.filters.push((id, filter));
                proof {
                    let n = before.filters@.len();
                    assert forall|kk: (WindowIdentifierKind, Seq<char>)|
                        #![auto]
                        self.has_rule(kk) == (before.has_rule(kk) || kk == k) by {
                        if before.has_rule(kk) {
                            let j = before.rule_index(kk);
                            assert(self.filters@[j] == before.filters@[j]);
                        }
                        if kk == k {
                            assert(self.filters@[n as int].0.key() == k);
                        }
                        if self.has_rule(kk) && kk != k {
                            let j = self.rule_index(kk);
                            assert(j != n as int);
                            assert(self.filters@[j] == before.filters@[j]);
                        }
                    }
                    assert forall|kk: (WindowIdentifierKind, Seq<char>)|
                        #![auto]
                        self.has_rule(kk) && kk != k implies
                            self.filters@[self.rule_index(kk)].1 == before.filters@[before.rule_index(kk)].1 by {
                        let j = self.rule_index(kk);
                        let j0 = before.rule_index(kk);
                        assert(before.filters@[j0] == self.filters@[j0]);
                        assert(j == j0);
                    }
                    assert(self.rule_index(k) == n as int);
                    assert(self.rules() =~= before.rules().insert(k, filter));
                }
            },
        }
    }

    /// The label of a window of class `wm_class` and name `wm_name`.
    pub fn resolve(&self, wm_class: &str, wm_name: &str) -> (r: String)
        requires
            self.wf(),
        ensures
            r@ == self.resolve_spec(wm_class@, wm_name@),
    {
        if let Some(filter) = self.rule(WindowIdentifierKind::Class, wm_class) {
            return filter.resolve(wm_class);
        }
        if let Some(filter) = self.rule(WindowIdentifierKind::Name, wm_name) {
            return filter.resolve(wm_class);
        }
        match &self.global_options {
            Some(options) => Filter::Options(*options).resolve(wm_class),
            None => wm_class.to_owned(),
        }
    }

    /// The label shown when no window has the focus: the desktop name, or
    /// the empty string when none is set.
    pub fn desktop(&self) -> (r: String)
        ensures
            r@ == self.desktop_spec(),
    {
        match &self.desktop_name {
            Some(d) => d.as_str().to_owned(),
            None => String::new(),
        }
    }
}

/// Whether two texts hold the same characters.
pub(crate) fn same_text(a: &str, b: &str) -> (r: bool)
    ensures
        r == (a@ == b@),
{
    let n = a.unicode_len();
    if n != b.unicode_len() {
        return false;
    }
    let mut i: usize = 0;
    while i < n
        invariant
            n == a@.len(),
            n == b@.len(),
            i <= n,
            forall|j: int| 0 <= j < i ==> a@[j] == b@[j],
        decreases n - i,
    {
        if a.get_char(i) != b.get_char(i) {
            return false;
        }
        i = i + 1;
    }
    assert(a@ =~= b@);
    true
}

impl Default for Resolver {
    /// Every class capitalized at its first letter, the desktop labelled
    /// `Desktop`, and no rules.
    fn default() -> (r: Resolver)
        ensures
            r.wf(),
            r.rules() == Map::<(WindowIdentifierKind, Seq<char>), Filter>::empty(),
            r.global_options == Some(Options { capitalize: Some(CapitalizeMode::FirstLetter) }),
            r.desktop_name.is_some() && r.desktop_name.unwrap()@ == "Desktop"@,
    {
        Resolver::new(
            Some(Options { capitalize: Some(CapitalizeMode::FirstLetter) }),
            Some(String::from_str("Desktop")),
        )
    }
}

/// When a rule on the class matches, its filter decides the label, whether or
/// not a rule on the name matches too.
pub proof fn lemma_class_rule_wins(r: Resolver, class: Seq<char>, name: Seq<char>)
    requires
        r.rules().contains_key((WindowIdentifierKind::Class, class)),
    ensures
        r.resolve_spec(class, name) == r.rules()[(WindowIdentifierKind::Class, class)].apply(class),
{
}

/// When no rule matches and global options are set, the label is the class
/// transformed by those options.
pub proof fn lemma_global_options_fallback(r: Resolver, class: Seq<char>, name: Seq<char>)
    requires
        !r.rules().contains_key((WindowIdentifierKind::Class, class)),
        !r.rules().contains_key((WindowIdentifierKind::Name, name)),
        r.global_options.is_some(),
    ensures
        r.resolve_spec(class, name) == r.global_options.unwrap().apply(class),
        r.global_options.unwrap().capitalize is None ==> r.resolve_spec(class, name) == class,
        r.global_options.unwrap().capitalize is Some ==> r.resolve_spec(class, name)
            == r.global_options.unwrap().capitalize.unwrap().apply(class),
{
}

/// A replacing filter gives its own name, whatever the window's class and name.
pub proof fn lemma_new_name_verbatim(r: Resolver, new_name: String, class: Seq<char>, name: Seq<char>)
    requires
        r.filter_for(class, name) == Some(Filter::NewName(new_name)),
    ensures
        Filter::NewName(new_name).apply(class) == new_name@,
        r.resolve_spec(class, name) == new_name@,
{
}

} // verus!
