//! The shell controller: owns the installed menu tree and the window set,
//! and carries out the operations the front-end triggers.

use vstd::prelude::*;
use crate::menu::MenuTree;
use crate::menu::app_menu;
use crate::menu::build_recent_entries;
use crate::menu::is_app_menu_with;
use crate::menu::is_installed_app_menu;
use crate::menu::is_recent_entries;
use crate::menu::menu_with_recent;
use crate::menu::path_views;
use crate::menu::recent_children_of;
use crate::windows::FatalError;
use crate::windows::ShellWindows;

verus! {

/// The native shell: the installed application menu and the two windows.
#[derive(PartialEq, Eq, Debug)]
pub struct Shell {
    pub menu: MenuTree,
    pub windows: ShellWindows,
}

/// The recent-files paths a front-end payload carried: the parsed list, or
/// nothing when the payload could not be parsed.
pub open spec fn parsed_paths(parsed: Option<Vec<String>>) -> Seq<Seq<char>> {
    match parsed {
        Some(paths) => path_views(paths@),
        None => Seq::empty(),
    }
}

impl Shell {
    /// Builds the shell as it stands at process start: the application menu
    /// with an empty Recent submenu, the splashscreen shown and the main
    /// window hidden.
    pub fn startup() -> (s: Shell)
        ensures
            is_app_menu_with(s.menu, Seq::empty()),
            s.windows == ShellWindows::startup_state(),
    {
        Shell { menu: app_menu(), windows: ShellWindows::startup() }
    }

    /// The one-shot splash-to-main transition; the menu is untouched.
    pub fn transition_from_splash(&mut self) -> (r: Result<(), FatalError>)
        ensures
            final(self).menu == old(self).menu,
            ShellWindows::transition_post(old(self).windows, final(self).windows, r),
    {
        self.windows.transition_from_splash()
    }

    /// Replaces the Recent submenu's children with one action per path of the
    /// parsed front-end payload, in list order; a payload that could not be
    /// parsed degrades to an empty list. The prior children are discarded
    /// wholesale, the rest of the menu and the windows are untouched, and the
    /// rebuilt tree is what the shell reinstalls as the application menu.
    pub fn on_recent_file_paths_changed(&mut self, parsed: Option<Vec<String>>)
        requires
            is_installed_app_menu(old(self).menu),
        ensures
            final(self).windows == old(self).windows,
            is_installed_app_menu(final(self).menu),
            is_recent_entries(recent_children_of(final(self).menu), parsed_paths(parsed)),
    {
        let entries = match parsed {
            Some(paths) => build_recent_entries(&paths),
            None => Vec::new(),
        };
        self.menu = menu_with_recent(entries);
    }
}

} // verus!
