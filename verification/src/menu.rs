//! The application's menu tree: an ordered forest of entries, built once at
//! startup, whose only mutable part is the children of the "Recent" submenu
//! inside the "File" submenu.

use vstd::prelude::*;
use crate::text::lemma_dec_rep_len;
use crate::text::lemma_recent_id_injective;
use crate::text::recent_action_id;
use crate::text::recent_id_seq;

verus! {

/// The fixed metadata shown by the native About entry.
#[derive(PartialEq, Eq, Debug)]
pub struct AboutMetadata {
    pub version: String,
    pub authors: Vec<String>,
    pub license: String,
    pub website: String,
    pub website_label: String,
}

/// One entry of the menu forest: a clickable action with a stable identifier
/// and a display label, a separator line, the native copy entry, the native
/// About entry, or a labeled submenu of further entries.
#[derive(PartialEq, Eq, Debug)]
pub enum MenuEntry {
    Action { id: String, label: String },
    Separator,
    NativeCopy,
    About { name: String, metadata: AboutMetadata },
    Submenu { label: String, children: Vec<MenuEntry> },
}

/// The menu forest the shell installs as the application menu.
#[derive(PartialEq, Eq, Debug)]
pub struct MenuTree {
    pub entries: Vec<MenuEntry>,
}

/// Whether `e` is a clickable action with identifier `id` and label `label`.
pub open spec fn is_action(e: MenuEntry, id: Seq<char>, label: Seq<char>) -> bool {
    e matches MenuEntry::Action { id: i, label: l } && i@ == id && l@ == label
}

/// Whether `e` is the "Recent" submenu holding exactly `recent` as children.
pub open spec fn is_recent_submenu(e: MenuEntry, recent: Seq<MenuEntry>) -> bool {
    e matches MenuEntry::Submenu { label, children } && label@ == "Recent"@ && children@ == recent
}

/// Whether `e` is the "File" submenu: Open, Open Fadel URL, the Recent
/// submenu holding `recent`, a separator, Reset, another separator, Quit.
pub open spec fn is_file_submenu(e: MenuEntry, recent: Seq<MenuEntry>) -> bool {
    &&& e matches MenuEntry::Submenu { label, children }
    &&& label@ == "File"@
    &&& children@.len() == 7
    &&& is_action(children@[0], "open"@, "Open"@)
    &&& is_action(children@[1], "openFromURL"@, "Open Fadel URL"@)
    &&& is_recent_submenu(children@[2], recent)
    &&& children@[3] is Separator
    &&& is_action(children@[4], "reset"@, "Reset"@)
    &&& children@[5] is Separator
    &&& is_action(children@[6], "quit"@, "Quit"@)
}

/// The fixed About metadata: version, three authors, license, website.
pub open spec fn about_metadata_fixed(m: AboutMetadata) -> bool {
    &&& m.version@ == "1.0.0"@
    &&& m.authors@.len() == 3
    &&& m.authors@[0]@ == "Fadel"@
    &&& m.authors@[1]@ == "Omar Ibrahim"@
    &&& m.authors@[2]@ == "Abdelrahman Khalil"@
    &&& m.license@ == "MIT"@
    &&& m.website@ == "https://fadel.pages.dev/"@
    &&& m.website_label@ == "Fadel Website"@
}

/// Whether `e` is the "Help" submenu: the single About entry with the fixed
/// application metadata.
pub open spec fn is_help_submenu(e: MenuEntry) -> bool {
    &&& e matches MenuEntry::Submenu { label, children }
    &&& label@ == "Help"@
    &&& children@.len() == 1
    &&& (children@[0] matches MenuEntry::About { name, metadata } && name@
        == "Fadel - Compare Images"@ && about_metadata_fixed(metadata))
}

/// Whether `t` is the application menu whose Recent submenu holds exactly
/// `recent`: the native copy entry, the File submenu, the Help submenu.
/// Every part of the tree outside `recent` is pinned down.
pub open spec fn is_app_menu_with(t: MenuTree, recent: Seq<MenuEntry>) -> bool {
    &&& t.entries@.len() == 3
    &&& t.entries@[0] is NativeCopy
    &&& is_file_submenu(t.entries@[1], recent)
    &&& is_help_submenu(t.entries@[2])
}

/// The children of the Recent submenu of an application menu.
pub open spec fn recent_children_of(t: MenuTree) -> Seq<MenuEntry> {
    t.entries@[1]->Submenu_children@[2]->Submenu_children@
}

/// Whether `t` has the application menu's shape, whatever its Recent
/// submenu currently holds.
pub open spec fn is_installed_app_menu(t: MenuTree) -> bool {
    is_app_menu_with(t, recent_children_of(t))
}

/// Whether `es` is the recent-files entry list for `paths`: one action per
/// path, in order, the action at position `i` carrying identifier
/// `open-recent-<i>` and the path as its label.
pub open spec fn is_recent_entries(es: Seq<MenuEntry>, paths: Seq<Seq<char>>) -> bool {
    &&& es.len() == paths.len()
    &&& forall|i: int|
        0 <= i < es.len() ==> is_action(#[trigger] es[i], recent_id_seq(i as nat), paths[i])
}

/// The character sequences of a list of path strings.
pub open spec fn path_views(paths: Seq<String>) -> Seq<Seq<char>> {
    paths.map_values(|s: String| s@)
}

/// Builds the recent-files entry list for `paths`: one action per path, in
/// list order, with the per-position identifier and the path as label.
pub fn build_recent_entries(paths: &Vec<String>) -> (r: Vec<MenuEntry>)
    ensures
        is_recent_entries(r@, path_views(paths@)),
{
    let mut r: Vec<MenuEntry> = Vec::new();
    let mut i: usize = 0;
    while i < paths.len()
        invariant
            i <= paths.len(),
            r@.len() == i,
            forall|j: int|
                0 <= j < i ==> is_action(#[trigger] r@[j], recent_id_seq(j as nat), paths@[j]@),
        decreases paths.len() - i,
    {
        let id = recent_action_id(i);
        let label = paths[i].clone();
        r.push(MenuEntry::Action { id, label });
        i = i + 1;
    }
    r
}

/// Builds the application menu with `recent` as the children of its Recent
/// submenu. The rest of the tree is the fixed static surface.
pub fn menu_with_recent(recent: Vec<MenuEntry>) -> (t: MenuTree)
    ensures
        is_app_menu_with(t, recent@),
{
    let mut file_children: Vec<MenuEntry> = Vec::new();
    file_children.push(MenuEntry::Action { id: ("open").to_owned(), label: ("Open").to_owned() });
    file_children.push(
        MenuEntry::Action { id: ("openFromURL").to_owned(), label: ("Open Fadel URL").to_owned() },
    );
    file_children.push(MenuEntry::Submenu { label: ("Recent").to_owned(), children: recent });
    file_children.push(MenuEntry::Separator);
    file_children.push(MenuEntry::Action { id: ("reset").to_owned(), label: ("Reset").to_owned() });
    file_children.push(MenuEntry::Separator);
    file_children.push(MenuEntry::Action { id: ("quit").to_owned(), label: ("Quit").to_owned() });

    let mut authors: Vec<String> = Vec::new();
    authors.push(("Fadel").to_owned());
    authors.push(("Omar Ibrahim").to_owned());
    authors.push(("Abdelrahman Khalil").to_owned());
    let metadata = AboutMetadata {
        version: ("1.0.0").to_owned(),
        authors,
        license: ("MIT").to_owned(),
        website: ("https://fadel.pages.dev/").to_owned(),
        website_label: ("Fadel Website").to_owned(),
    };

    let mut help_children: Vec<MenuEntry> = Vec::new();
    help_children.push(
        MenuEntry::About { name: ("Fadel - Compare Images").to_owned(), metadata },
    );

    let mut entries: Vec<MenuEntry> = Vec::new();
    entries.push(MenuEntry::NativeCopy);
    entries.push(MenuEntry::Submenu { label: ("File").to_owned(), children: file_children });
    entries.push(MenuEntry::Submenu { label: ("Help").to_owned(), children: help_children });
    MenuTree { entries }
}

/// Builds the application menu of a freshly started shell: the Recent
/// submenu is empty.
pub fn app_menu() -> (t: MenuTree)
    ensures
        is_app_menu_with(t, Seq::empty()),
{
    menu_with_recent(Vec::new())
}

/// The action identifiers of an application menu, in menu order: the four
/// static ones, then one per recent-files entry.
pub open spec fn app_menu_action_ids(t: MenuTree) -> Seq<Seq<char>> {
    seq!["open"@, "openFromURL"@, "reset"@, "quit"@] + recent_children_of(t).map_values(
        |e: MenuEntry| e->Action_id@,
    )
}

/// Whether the elements of `s` are pairwise distinct.
pub open spec fn seq_unique(s: Seq<Seq<char>>) -> bool {
    forall|i: int, j: int| 0 <= i < j < s.len() ==> s[i] != s[j]
}

/// Law: action identifiers are unique within the application menu, whatever
/// recent-files list its Recent submenu was rebuilt from.
pub proof fn lemma_app_menu_ids_unique(t: MenuTree, paths: Seq<Seq<char>>)
    requires
        is_installed_app_menu(t),
        is_recent_entries(recent_children_of(t), paths),
    ensures
        seq_unique(app_menu_action_ids(t)),
{
    let ids = app_menu_action_ids(t);
    let rec = recent_children_of(t);
    reveal_strlit("open");
    reveal_strlit("openFromURL");
    reveal_strlit("reset");
    reveal_strlit("quit");
    reveal_strlit("open-recent-");
    assert("open"@.len() == 4);
    assert("openFromURL"@.len() == 11);
    assert("reset"@.len() == 5);
    assert("quit"@.len() == 4);
    assert("open-recent-"@.len() == 12);
    assert("open"@[0] == 'o' && "quit"@[0] == 'q');
    assert forall|k: int| 0 <= k < rec.len() implies #[trigger] ids[4 + k] == recent_id_seq(
        k as nat,
    ) && ids[4 + k].len() >= 13 by {
        assert(is_action(rec[k], recent_id_seq(k as nat), paths[k]));
        lemma_dec_rep_len(k as nat);
    }
    assert forall|i: int, j: int| 0 <= i < j < ids.len() implies ids[i] != ids[j] by {
        if j >= 4 {
            lemma_dec_rep_len((j - 4) as nat);
            if i >= 4 {
                lemma_recent_id_injective((i - 4) as nat, (j - 4) as nat);
            }
        }
    }
}

/// Law: menu construction is deterministic — two application menus whose
/// Recent submenus were rebuilt from the same paths carry the same action
/// identifiers in the same order. (Their labels agree as well: the static
/// labels are pinned to fixed strings by `is_app_menu_with`, and each
/// recent entry's label is pinned to its path by `is_recent_entries`.)
pub proof fn lemma_menu_construction_deterministic(
    t1: MenuTree,
    t2: MenuTree,
    paths: Seq<Seq<char>>,
)
    requires
        is_installed_app_menu(t1),
        is_recent_entries(recent_children_of(t1), paths),
        is_installed_app_menu(t2),
        is_recent_entries(recent_children_of(t2), paths),
    ensures
        app_menu_action_ids(t1) == app_menu_action_ids(t2),
{
    let ids1 = app_menu_action_ids(t1);
    let ids2 = app_menu_action_ids(t2);
    let rec1 = recent_children_of(t1);
    let rec2 = recent_children_of(t2);
    assert forall|k: int| 0 <= k < paths.len() implies #[trigger] ids1[4 + k] == ids2[4 + k] by {
        assert(is_action(rec1[k], recent_id_seq(k as nat), paths[k]));
        assert(is_action(rec2[k], recent_id_seq(k as nat), paths[k]));
    }
    assert(ids1 =~= ids2);
}

} // verus!
