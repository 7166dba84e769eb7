//! The cached view of the workspace: panes (resources) and tabs (containers),
//! as delivered wholesale by each host snapshot. The orchestrator never holds
//! a live resource, only these observed attributes.
use vstd::prelude::*;

verus! {

/// One pane as observed in the latest workspace snapshot.
pub struct Pane {
    /// Host-assigned identifier; may vanish from a later snapshot at any time.
    pub id: u32,
    /// Index of the tab this pane currently sits in.
    pub tab: usize,
    /// Declared title.
    pub title: String,
    /// The command line the pane was started with, when the host reports one.
    pub command: Option<String>,
    /// The pane is a plugin surface, not a terminal.
    pub is_plugin: bool,
    /// The pane's process has exited.
    pub exited: bool,
    pub is_focused: bool,
    /// Shown as an overlay rather than embedded in the tiled layout.
    pub is_floating: bool,
    /// Hidden from view but not destroyed.
    pub is_suppressed: bool,
}

impl Clone for Pane {
    fn clone(&self) -> (r: Self)
        ensures
            r == *self,
    {
        Pane {
            id: self.id,
            tab: self.tab,
            title: self.title.clone(),
            command: match &self.command {
                Some(c) => Some(c.clone()),
                None => None,
            },
            is_plugin: self.is_plugin,
            exited: self.exited,
            is_focused: self.is_focused,
            is_floating: self.is_floating,
            is_suppressed: self.is_suppressed,
        }
    }
}

/// One tab as observed in the latest tab listing.
pub struct Tab {
    /// Ordered position of the tab, as the host reports it.
    pub position: usize,
    pub name: String,
    /// The tab the host currently marks active.
    pub active: bool,
    pub selectable_tiled_panes_count: usize,
    pub selectable_floating_panes_count: usize,
}

impl Clone for Tab {
    fn clone(&self) -> (r: Self)
        ensures
            r == *self,
    {
        Tab {
            position: self.position,
            name: self.name.clone(),
            active: self.active,
            selectable_tiled_panes_count: self.selectable_tiled_panes_count,
            selectable_floating_panes_count: self.selectable_floating_panes_count,
        }
    }
}

/// A pane that can stand in for a usable resource: not exited, not a plugin
/// surface. Lookups that want a usable resource treat "absent" and "exited"
/// identically, so they all go through this.
pub open spec fn pane_usable(p: Pane) -> bool {
    !p.exited && !p.is_plugin
}

} // verus!
