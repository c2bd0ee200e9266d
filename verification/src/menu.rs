//! The application menu: its item ids, the update item's text, and finding
//! an item by id.

use vstd::prelude::*;

verus! {

/// The id of the "Check for Updates..." item.
pub const CHECK_FOR_UPDATES_ID: &'static str = "check_for_updates";

/// The id of the "Toggle Developer Tools" item.
pub const TOGGLE_DEVTOOLS_ID: &'static str = "toggle_developer_tools";

/// The text of the update menu item.
pub open spec fn update_item_text(apply: bool, downloaded: bool) -> Seq<char> {
    if downloaded {
        "Restart to Update"@
    } else if apply {
        "Update and Restart"@
    } else {
        "Check for Updates..."@
    }
}

/// The text of the update menu item: restart once an update is downloaded,
/// update when one is to be applied, otherwise check.
pub fn update_menu_text(apply: bool, downloaded: bool) -> (text: String)
    ensures
        text@ == update_item_text(apply, downloaded),
{
    if downloaded {
        String::from_str("Restart to Update")
    } else if apply {
        String::from_str("Update and Restart")
    } else {
        String::from_str("Check for Updates...")
    }
}

/// What a click on an application menu item does.
pub enum AppMenuAction {
    CheckForUpdates,
    ToggleDevtools,
    Ignore,
}

/// The action of the application menu item `id`.
pub fn app_menu_action(id: &str) -> (a: AppMenuAction)
    ensures
        id@ == "check_for_updates"@ ==> a is CheckForUpdates,
        id@ == "toggle_developer_tools"@ ==> a is ToggleDevtools,
        id@ != "check_for_updates"@ && id@ != "toggle_developer_tools"@ ==> a is Ignore,
{
    proof {
        reveal_strlit("check_for_updates");
        reveal_strlit("toggle_developer_tools");
        assert("check_for_updates"@[0] != "toggle_developer_tools"@[0]);
    }
    if crate::text::str_eq(id, "check_for_updates") {
        AppMenuAction::CheckForUpdates
    } else if crate::text::str_eq(id, "toggle_developer_tools") {
        AppMenuAction::ToggleDevtools
    } else {
        AppMenuAction::Ignore
    }
}

/// An entry of a menu: its id, whether it is a plain menu item (whose text
/// can be set), and its entries when it is a submenu.
pub struct MenuEntry {
    pub id: String,
    pub is_item: bool,
    pub children: Vec<MenuEntry>,
}

/// The path (an index at each level) to the first entry with id `id`, searching
/// `entries` from position `i` on, depth first: an entry before its children,
/// its children before the entries that follow it.
pub open spec fn find_from(entries: Seq<MenuEntry>, id: Seq<char>, i: int) -> Option<Seq<usize>>
    decreases entries, entries.len() - i,
{
    if i < 0 || i >= entries.len() || i > usize::MAX as int {
        None
    } else if entries[i].id@ == id {
        Some(seq![i as usize])
    } else {
        match find_from(entries[i].children@, id, 0) {
            Some(p) => Some(seq![i as usize] + p),
            None => find_from(entries, id, i + 1),
        }
    }
}

/// The entry that `path` leads to, an index at each level.
pub open spec fn entry_at(entries: Seq<MenuEntry>, path: Seq<usize>) -> Option<MenuEntry>
    decreases path.len(),
{
    if path.len() == 0 || path[0] >= entries.len() {
        None
    } else if path.len() == 1 {
        Some(entries[path[0] as int])
    } else {
        entry_at(entries[path[0] as int].children@, path.drop_first())
    }
}

/// Law: the path found for `id` leads to an entry with that id.
pub proof fn law_found_entry_has_id(entries: Seq<MenuEntry>, id: Seq<char>, i: int)
    requires
        find_from(entries, id, i) is Some,
    ensures
        find_from(entries, id, i)->Some_0.len() > 0,
        entry_at(entries, find_from(entries, id, i)->Some_0) matches Some(e) && e.id@ == id,
    decreases entries, entries.len() - i,
{
    if entries[i].id@ == id {
    } else {
        match find_from(entries[i].children@, id, 0) {
            Some(q) => {
                assert(decreases_to!(entries => entries[i]));
                law_found_entry_has_id(entries[i].children@, id, 0);
                let p = seq![i as usize] + q;
                assert(p.drop_first() =~= q);
            },
            None => {
                law_found_entry_has_id(entries, id, i + 1);
            },
        }
    }
}

/// Finds the entry with id `id` in a menu, depth first, and gives the path to it.
pub fn find_menu_entry(entries: &Vec<MenuEntry>, id: &str) -> (path: Option<Vec<usize>>)
    ensures
        match path {
            Some(p) => find_from(entries@, id@, 0) == Some(p@),
            None => find_from(entries@, id@, 0) is None,
        },
    decreases entries@,
{
    let mut i: usize = 0;
    while i < entries.len()
        invariant
            i <= entries@.len(),
            find_from(entries@, id@, 0) == find_from(entries@, id@, i as int),
        decreases entries.len() - i,
    {
        if crate::text::str_eq(entries[i].id.as_str(), id) {
            let mut p: Vec<usize> = Vec::new();
            p.push(i);
            assert(p@ =~= seq![i]);
            return Some(p);
        }
        proof {
            assert(decreases_to!(entries@ => entries@[i as int]));
        }
        match find_menu_entry(&entries[i].children, id) {
            Some(sub) => {
                let mut p: Vec<usize> = Vec::new();
                p.push(i);
                let mut j: usize = 0;
                while j < sub.len()
                    invariant
                        j <= sub@.len(),
                        p@ =~= seq![i] + sub@.take(j as int),
                    decreases sub.len() - j,
                {
                    p.push(sub[j]);
                    j = j + 1;
                    assert(sub@.take(j as int) =~= sub@.take(j - 1).push(sub@[j - 1]));
                }
                assert(sub@.take(j as int) =~= sub@);
                return Some(p);
            },
            None => {},
        }
        i = i + 1;
    }
    None
}

} // verus!
