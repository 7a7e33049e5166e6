//! The settings that the watcher runs with.

use vstd::prelude::*;

use crate::capitalize::CapitalizeMode;
use crate::filter::{Filter, Options};
use crate::identifier::WindowIdentifierKind;
use crate::resolver::Resolver;

verus! {

/// The display to connect to (the environment's when absent), the template
/// that each label is rendered through, and the rule table.
#[derive(Clone, Debug)]
pub struct Config {
    pub display_name: Option<String>,
    pub template: String,
    pub resolver: Resolver,
}

/// The template used when none is configured: the label alone.
pub fn template() -> (r: String)
    ensures
        r@ == "{{ name }}"@,
{
    String::from_str("{{ name }}")
}

impl Default for Config {
    fn default() -> (r: Config)
        ensures
            r.display_name is None,
            r.template@ == "{{ name }}"@,
            r.resolver.wf(),
            r.resolver.rules() == Map::<(WindowIdentifierKind, Seq<char>), Filter>::empty(),
            r.resolver.global_options == Some(Options { capitalize: Some(CapitalizeMode::FirstLetter) }),
            r.resolver.desktop_name.is_some() && r.resolver.desktop_name.unwrap()@ == "Desktop"@,
    {
        Config { display_name: None, template: template(), resolver: Resolver::default() }
    }
}

} // verus!
