//! Application state: the open project and the active tab.

use vstd::prelude::*;
use crate::project::Project;

verus! {

/// The tabs of the application.
#[derive(Debug, Clone, Copy, PartialEq, Eq, Structural)]
pub enum MenuEntry {
    ProjectSelector,
    AwcGenerator,
    OcclGenerator,
}

impl MenuEntry {
    /// The label a tab shows, if it appears in the tab bar at all; the
    /// project selector has no tab of its own.
    pub fn label(&self) -> (r: Option<&'static str>)
        ensures
            match self {
                MenuEntry::ProjectSelector => r is None,
                MenuEntry::AwcGenerator => r matches Some(s) && s@ == "AWC Generator"@,
                MenuEntry::OcclGenerator => r matches Some(s) && s@ == "Audio Occlusion"@,
            },
    {
        match self {
            MenuEntry::ProjectSelector => None,
            MenuEntry::AwcGenerator => Some("AWC Generator"),
            MenuEntry::OcclGenerator => Some("Audio Occlusion"),
        }
    }
}

/// What the application currently shows and works on.
#[derive(Debug)]
pub struct State {
    pub active_menu: MenuEntry,
    pub active_project: Option<Project>,
}

impl Default for State {
    /// Starts on the project selector with no project open.
    fn default() -> (r: Self)
        ensures
            r.active_menu is ProjectSelector,
            r.active_project is None,
    {
        Self { active_menu: MenuEntry::ProjectSelector, active_project: None }
    }
}

impl State {
    /// Switches the active tab; without an open project the state is
    /// untouched and the selector stays in front.
    pub fn change_menu(&mut self, entry: MenuEntry)
        ensures
            old(self).active_project is None ==> *final(self) == *old(self),
            old(self).active_project is Some ==> final(self).active_menu == entry
                && final(self).active_project == old(self).active_project,
    {
        if self.active_project.is_none() {
            return;
        }
        self.active_menu = entry;
    }

    /// Makes `project` the open project.
    pub fn set_project(&mut self, project: Project)
        ensures
            final(self).active_project == Some(project),
            final(self).active_menu == old(self).active_menu,
    {
        self.active_project = Some(project);
    }

    /// Closes the open project, if any.
    pub fn close_project(&mut self)
        ensures
            final(self).active_project is None,
            final(self).active_menu == old(self).active_menu,
    {
        self.active_project = None;
    }
}

} // verus!
