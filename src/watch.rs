//! The decisions of the watch loop: from the loop's state and the event that
//! the windowing server delivered, the next state and what to do next.
//! Waiting for events and querying the server is left to the caller.

use vstd::prelude::*;
use vstd::string::StrSliceExecFns;

use std::collections::HashMap;

use handlebars::Handlebars;

use crate::config::Config;
use crate::resolver::{same_text, Resolver};

verus! {

#[verifier::external_type_specification]
#[verifier::external_body]
pub struct ExRenderError(handlebars::RenderError);

/// What handlebars renders from `template` with the data `{ name: name }`:
/// the text, or `None` where it reports an error.
pub uninterp spec fn rendered(template: Seq<char>, name: Seq<char>) -> Option<Seq<char>>;

/// Characters that may stand between the `{{` that opens a tag and the `>`
/// that makes it a partial: whitespace, `~` and `#`.
pub open spec fn partial_filler(c: char) -> bool {
    c == ' ' || c == '\t' || c == '\n' || c == '\r' || c == '~' || c == '#'
}

/// A tag opened at `i` includes a partial, whose `>` stands at `j`.
pub open spec fn partial_at(t: Seq<char>, i: int, j: int) -> bool {
    0 <= i && i + 2 <= j < t.len() && t[i] == '{' && t[i + 1] == '{' && t[j] == '>'
        && forall|k: int| i + 2 <= k < j ==> partial_filler(#[trigger] t[k])
}

/// The template includes a partial somewhere. Rendering such a template may
/// not return: an inline partial can include itself without bound.
pub open spec fn includes_partial(t: Seq<char>) -> bool {
    exists|i: int, j: int| partial_at(t, i, j)
}

/// Relies on handlebars' `Registry::render_template` on a fresh registry: it
/// compiles `template` and renders it with `name` bound to `name`, a result
/// that depends on the two texts alone. Without partials nothing in the
/// template can recurse, so the call returns.
#[verifier::external_body]
fn render_with_handlebars(template: &str, name: &str) -> (r: Result<String, handlebars::RenderError>)
    requires
        !includes_partial(template@),
    ensures
        r is Ok <==> rendered(template@, name@) is Some,
        r matches Ok(s) ==> rendered(template@, name@) == Some(s@),
{
    let mut data = HashMap::with_capacity(1);
    data.insert("name", name);
    Handlebars::new().render_template(template, &data)
}

/// Whether the template includes a partial.
pub fn has_partial(template: &str) -> (r: bool)
    ensures
        r == includes_partial(template@),
{
    let n = template.unicode_len();
    let mut i: usize = 0;
    while i < n
        invariant
            n == template@.len(),
            i <= n,
            forall|a: int, b: int| 0 <= a < i ==> !partial_at(template@, a, b),
        decreases n - i,
    {
        if i + 1 < n && template.get_char(i) == '{' && template.get_char(i + 1) == '{' {
            let mut j: usize = i + 2;
            while j < n && is_partial_filler(template.get_char(j))
                invariant
                    n == template@.len(),
                    i + 2 <= j <= n,
                    forall|k: int| i + 2 <= k < j ==> partial_filler(#[trigger] template@[k]),
                decreases n - j,
            {
                j = j + 1;
            }
            if j < n && template.get_char(j) == '>' {
                assert(partial_at(template@, i as int, j as int));
                return true;
            }
            assert forall|b: int| !partial_at(template@, i as int, b) by {
                if partial_at(template@, i as int, b) {
                    if b < j as int {
                        assert(partial_filler(template@[b]));
                    } else if b > j as int {
                        assert(partial_filler(template@[j as int]));
                    }
                }
            }
        }
        i = i + 1;
    }
    assert forall|a: int, b: int| !partial_at(template@, a, b) by {
        if partial_at(template@, a, b) {
            assert(a < i);
        }
    }
    false
}

fn is_partial_filler(c: char) -> (r: bool)
    ensures
        r == partial_filler(c),
{
    c == ' ' || c == '\t' || c == '\n' || c == '\r' || c == '~' || c == '#'
}

/// Why the watch loop stopped.
#[derive(Copy, Clone, Debug, PartialEq, Eq, Structural)]
pub enum WatchError {
    /// The server could not be reached or the subscription failed.
    Connection,
    /// A request to the server failed.
    Protocol,
    /// A property's bytes are not valid UTF-8.
    Encoding,
    /// A property that must have a value had none.
    MissingValue,
    /// The template could not be rendered.
    Render,
    /// An event arrived that the current state does not expect.
    UnexpectedEvent,
}

/// Renders a label through the template.
pub fn render(template: &str, name: &str) -> (r: Result<String, WatchError>)
    requires
        !includes_partial(template@),
    ensures
        match r {
            Ok(s) => rendered(template@, name@) == Some(s@),
            Err(e) => e == WatchError::Render && rendered(template@, name@) is None,
        },
{
    match render_with_handlebars(template, name) {
        Ok(s) => Ok(s),
        Err(_) => Err(WatchError::Render),
    }
}

#[derive(Copy, Clone, Debug, PartialEq, Eq, Structural)]
pub enum WatchState {
    /// Waiting for the next event.
    Waiting,
    /// A property of `window` changed; its atom's name was asked for.
    CheckingAtom { window: u32, atom: u32 },
    /// The active window changed; the property's value was asked for.
    ReadingActiveWindow,
    /// The class and name of the newly focused window were asked for.
    ReadingWindowNames,
    /// The loop stopped on an error.
    Failed,
}

/// What the server (or a request to it) delivered.
#[derive(Clone, Debug)]
pub enum WatchEvent {
    /// An event other than a property change.
    Other,
    /// A property change on `window`.
    PropertyChanged { window: u32, atom: u32 },
    /// The name of the atom that was asked for.
    AtomName(String),
    /// The first 32-bit value of the property that was asked for, if it had one.
    PropertyValue(Option<u32>),
    /// The class and name of the window that was asked for.
    WindowNames { wm_class: String, wm_name: String },
    /// A request failed.
    Failed(WatchError),
}

/// What the caller does next.
#[derive(Clone, Debug)]
pub enum WatchAction {
    WaitForEvent,
    QueryAtomName(u32),
    QueryPropertyValue { window: u32, atom: u32 },
    QueryWindowNames(u32),
    /// Print this line, then wait for the next event.
    Emit(String),
    Stop(WatchError),
}

/// The name of the property that holds the focused window.
pub open spec fn active_window_atom() -> Seq<char> {
    "_NET_ACTIVE_WINDOW"@
}

/// The label to render when `event` arrives in `state`, if it completes a
/// change of the focused window.
pub open spec fn label_for(resolver: Resolver, state: WatchState, event: WatchEvent) -> Option<Seq<char>> {
    match (state, event) {
        (WatchState::ReadingActiveWindow, WatchEvent::PropertyValue(Some(0))) => Some(resolver.desktop_spec()),
        (WatchState::ReadingWindowNames, WatchEvent::WindowNames { wm_class, wm_name }) => Some(
            resolver.resolve_spec(wm_class@, wm_name@),
        ),
        _ => None,
    }
}

/// The next state and action when `event` arrives in `state` and completes
/// no change of the focused window.
pub open spec fn next_spec(state: WatchState, event: WatchEvent) -> (WatchState, WatchAction) {
    match event {
        WatchEvent::Failed(e) => (WatchState::Failed, WatchAction::Stop(e)),
        _ => match state {
            WatchState::Waiting => match event {
                WatchEvent::Other => (WatchState::Waiting, WatchAction::WaitForEvent),
                WatchEvent::PropertyChanged { window, atom } => (
                    WatchState::CheckingAtom { window, atom },
                    WatchAction::QueryAtomName(atom),
                ),
                _ => (WatchState::Failed, WatchAction::Stop(WatchError::UnexpectedEvent)),
            },
            WatchState::CheckingAtom { window, atom } => match event {
                WatchEvent::AtomName(name) => if name@ == active_window_atom() {
                    (WatchState::ReadingActiveWindow, WatchAction::QueryPropertyValue { window, atom })
                } else {
                    (WatchState::Waiting, WatchAction::WaitForEvent)
                },
                _ => (WatchState::Failed, WatchAction::Stop(WatchError::UnexpectedEvent)),
            },
            WatchState::ReadingActiveWindow => match event {
                WatchEvent::PropertyValue(None) => (WatchState::Failed, WatchAction::Stop(WatchError::MissingValue)),
                WatchEvent::PropertyValue(Some(handle)) => (
                    WatchState::ReadingWindowNames,
                    WatchAction::QueryWindowNames(handle),
                ),
                _ => (WatchState::Failed, WatchAction::Stop(WatchError::UnexpectedEvent)),
            },
            _ => (WatchState::Failed, WatchAction::Stop(WatchError::UnexpectedEvent)),
        },
    }
}

/// The label rendered and emitted, or the loop stopped because the
/// template cannot be rendered with it.
pub open spec fn emits(template: Seq<char>, label: Seq<char>, r: (WatchState, WatchAction)) -> bool {
    match r.1 {
        WatchAction::Emit(line) => r.0 == WatchState::Waiting && rendered(template, label) == Some(line@),
        WatchAction::Stop(e) => r.0 == WatchState::Failed && e == WatchError::Render
            && rendered(template, label) is None,
        _ => false,
    }
}

/// Renders a label and emits it, or stops when rendering fails.
fn emit(template: &str, label: &str) -> (r: (WatchState, WatchAction))
    requires
        !includes_partial(template@),
    ensures
        emits(template@, label@, r),
{
    match render(template, label) {
        Ok(line) => (WatchState::Waiting, WatchAction::Emit(line)),
        Err(e) => (WatchState::Failed, WatchAction::Stop(e)),
    }
}

/// One step of the watch loop. Any failure stops the loop: there is no
/// recovery from an error in a single event.
pub fn step(config: &Config, state: WatchState, event: WatchEvent) -> (r: (WatchState, WatchAction))
    requires
        config.resolver.wf(),
        !includes_partial(config.template@),
    ensures
        match label_for(config.resolver, state, event) {
            Some(label) => emits(config.template@, label, r),
            None => r == next_spec(state, event),
        },
{
    match event {
        WatchEvent::Failed(e) => (WatchState::Failed, WatchAction::Stop(e)),
        WatchEvent::Other => match state {
            WatchState::Waiting => (WatchState::Waiting, WatchAction::WaitForEvent),
            _ => (WatchState::Failed, WatchAction::Stop(WatchError::UnexpectedEvent)),
        },
        WatchEvent::PropertyChanged { window, atom } => match state {
            WatchState::Waiting => (WatchState::CheckingAtom { window, atom }, WatchAction::QueryAtomName(atom)),
            _ => (WatchState::Failed, WatchAction::Stop(WatchError::UnexpectedEvent)),
        },
        WatchEvent::AtomName(name) => match state {
            WatchState::CheckingAtom { window, atom } => {
                if same_text(name.as_str(), "_NET_ACTIVE_WINDOW") {
                    (WatchState::ReadingActiveWindow, WatchAction::QueryPropertyValue { window, atom })
                } else {
                    (WatchState::Waiting, WatchAction::WaitForEvent)
                }
            },
            _ => (WatchState::Failed, WatchAction::Stop(WatchError::UnexpectedEvent)),
        },
        WatchEvent::PropertyValue(value) => match state {
            WatchState::ReadingActiveWindow => match value {
                None => (WatchState::Failed, WatchAction::Stop(WatchError::MissingValue)),
                Some(handle) => if handle == 0 {
                    let desktop = config.resolver.desktop();
                    emit(config.template.as_str(), desktop.as_str())
                } else {
                    (WatchState::ReadingWindowNames, WatchAction::QueryWindowNames(handle))
                },
            },
            _ => (WatchState::Failed, WatchAction::Stop(WatchError::UnexpectedEvent)),
        },
        WatchEvent::WindowNames { wm_class, wm_name } => match state {
            WatchState::ReadingWindowNames => {
                let label = config.resolver.resolve(wm_class.as_str(), wm_name.as_str());
                emit(config.template.as_str(), label.as_str())
            },
            _ => (WatchState::Failed, WatchAction::Stop(WatchError::UnexpectedEvent)),
        },
    }
}

/// A focus change to no window (handle zero) is labelled with the desktop
/// name, or the empty string when none is set, whatever the rules hold. The
/// outcome `r` that `step` promises for it issues no request to the server:
/// it is the rendered label, or a stop where the template cannot render it.
pub proof fn lemma_desktop_without_queries(resolver: Resolver, template: Seq<char>, r: (WatchState, WatchAction))
    requires
        emits(template, resolver.desktop_spec(), r),
    ensures
        label_for(resolver, WatchState::ReadingActiveWindow, WatchEvent::PropertyValue(Some(0)))
            == Some(resolver.desktop_spec()),
        resolver.desktop_name is None ==> resolver.desktop_spec() == Seq::<char>::empty(),
        resolver.desktop_name is Some ==> resolver.desktop_spec() == resolver.desktop_name.unwrap()@,
        rendered(template, resolver.desktop_spec()) is Some ==> r.0 == WatchState::Waiting && (
        r.1 matches WatchAction::Emit(line) && rendered(template, resolver.desktop_spec()) == Some(line@)),
        r.1 is Emit || r.1 is Stop,
{
}

} // verus!
