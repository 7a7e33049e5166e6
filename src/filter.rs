//! The transforms that a rule can apply to a window's class value.

use vstd::prelude::*;

use crate::capitalize::CapitalizeMode;

verus! {

/// Transform options: an absent `capitalize` leaves the value unchanged.
#[derive(Copy, Clone, Debug)]
pub struct Options {
    pub capitalize: Option<CapitalizeMode>,
}

impl Options {
    /// The label that `value` becomes under these options.
    pub open spec fn apply(self, value: Seq<char>) -> Seq<char> {
        match self.capitalize {
            Some(mode) => mode.apply(value),
            None => value,
        }
    }

    pub fn resolve(&self, value: &str) -> (r: String)
        ensures
            r@ == self.apply(value@),
    {
        match &self.capitalize {
            Some(mode) => mode.capitalize(value),
            None => value.to_owned(),
        }
    }
}

/// A rule's action: transform the value, or replace it outright.
#[derive(Clone, Debug)]
pub enum Filter {
    Options(Options),
    NewName(String),
}

impl Filter {
    /// The label that `value` becomes under this filter.
    pub open spec fn apply(self, value: Seq<char>) -> Seq<char> {
        match self {
            Filter::Options(options) => options.apply(value),
            Filter::NewName(name) => name@,
        }
    }

    pub fn resolve(&self, wm_class: &str) -> (r: String)
        ensures
            r@ == self.apply(wm_class@),
    {
        match self {
            Filter::Options(options) => options.resolve(wm_class),
            Filter::NewName(name) => name.as_str().to_owned(),
        }
    }
}

} // verus!
