//! Handling of the GUI's platform output: the parts that are decisions on
//! plain values.

use crate::collections::{map_get, map_insert, map_new, spec_map_contents};
use bevy_platform::collections::HashMap;
use vstd::prelude::*;

verus! {

/// Settings shared by all contexts.
#[derive(Clone, Copy, Debug, PartialEq, Eq, Hash, Structural)]
pub struct EguiGlobalSettings {
    /// Whether the focused context follows the pointer.
    pub enable_focused_context_updates: bool,
}

impl Default for EguiGlobalSettings {
    /// Focused context updates are on.
    fn default() -> (r: Self)
        ensures
            r.enable_focused_context_updates,
    {
        EguiGlobalSettings { enable_focused_context_updates: true }
    }
}

/// Where a link is opened.
#[derive(Debug, PartialEq, Eq)]
pub enum UrlTarget {
    /// A new tab.
    Blank,
    /// The browsing context of the page.
    Current,
    /// The target that the context's settings name.
    Named(String),
}

/// The target hint for opening a link: a new tab where the link asks for
/// one, else the target of the settings, else the page itself.
pub fn open_url_target(new_tab: bool, default_target: Option<&String>) -> (r: UrlTarget)
    ensures
        new_tab ==> r == UrlTarget::Blank,
        !new_tab && default_target is None ==> r == UrlTarget::Current,
        !new_tab && default_target is Some ==> (r matches UrlTarget::Named(name) && name@
            == default_target.unwrap()@),
{
    if new_tab {
        UrlTarget::Blank
    } else {
        match default_target {
            Some(name) => UrlTarget::Named(name.clone()),
            None => UrlTarget::Current,
        }
    }
}

/// Whether a redraw is to be requested after a frame: some context asked for
/// a repaint and has something to paint.
pub open spec fn spec_needs_redraw(contexts: Seq<RepaintState>) -> bool {
    exists|k: int|
        0 <= k < contexts.len() && (#[trigger] contexts[k]).requested_repaint
            && !contexts[k].output_is_empty
}

/// What the redraw request reads of a context after a frame.
#[derive(Clone, Copy, Debug, PartialEq, Eq, Hash, Structural)]
pub struct RepaintState {
    /// The GUI asked for a repaint.
    pub requested_repaint: bool,
    /// The frame's render output is empty.
    pub output_is_empty: bool,
}

/// Whether a redraw is to be requested after a frame.
pub fn needs_redraw(contexts: &Vec<RepaintState>) -> (r: bool)
    ensures
        r == spec_needs_redraw(contexts@),
{
    let mut i: usize = 0;
    while i < contexts.len()
        invariant
            i <= contexts@.len(),
            forall|k: int|
                0 <= k < i ==> !((#[trigger] contexts@[k]).requested_repaint
                    && !contexts@[k].output_is_empty),
        decreases contexts@.len() - i,
    {
        if contexts[i].requested_repaint && !contexts[i].output_is_empty {
            return true;
        }
        i += 1;
    }
    false
}

/// The cursor icon that every context starts with.
pub const DEFAULT_CURSOR_ICON: u32 = 0;

/// Remembers the cursor icon last set for each context, so that the window's
/// cursor is only touched when the icon changes.
#[derive(Debug)]
pub struct CursorIcons {
    last: HashMap<u64, u32>,
}

impl View for CursorIcons {
    type V = Map<u64, u32>;

    closed spec fn view(&self) -> Map<u64, u32> {
        spec_map_contents(self.last)
    }
}

impl CursorIcons {
    /// The icon last set for a context: the default before any was set.
    pub open spec fn spec_last(&self, context: u64) -> u32 {
        if self@.contains_key(context) {
            self@[context]
        } else {
            DEFAULT_CURSOR_ICON
        }
    }

    /// Nothing set yet.
    pub fn new() -> (r: Self)
        ensures
            r@ == Map::<u64, u32>::empty(),
    {
        CursorIcons { last: map_new() }
    }

    /// Takes the icon that a context asks for and tells whether the window's
    /// cursor has to be set: only when the icon differs from the last one.
    /// Either way the icon is remembered.
    pub fn update(&mut self, context: u64, icon: u32) -> (changed: bool)
        ensures
            changed == (icon != old(self).spec_last(context)),
            final(self)@ == old(self)@.insert(context, icon),
    {
        let last = match map_get(&self.last, context) {
            Some(icon) => icon,
            None => DEFAULT_CURSOR_ICON,
        };
        let _ = map_insert(&mut self.last, context, icon);
        last != icon
    }
}

} // verus!
