//! The state of the file manager's panels: a stack of directories, each
//! with its entries and the selection among them.

use vstd::prelude::*;
use vstd::seq_lib::{to_multiset_build, to_multiset_insert};
use vstd::string::{StringExecFns, StrSliceExecFns};
use crate::app::list_display_status::ListState;
use crate::app::list_wrap_display_status::ScrollAction;
use crate::text::{lowercased, str_eq, to_lowercase};
use crate::utils::{
    join_path,
    join_path_spec,
    lemma_text_lt_asymmetric,
    lemma_text_lt_transitive,
    text_less,
    text_lt,
};

verus! {

/// An entry of a directory shown in a panel.
#[derive(Debug, PartialEq, Eq)]
pub enum ChildItem {
    /// A local entry: its name, and whether it is a directory.
    Local(String, bool),
    /// An entry in the cloud: its name, its id, whether it is a directory,
    /// and its size.
    Cloud(String, u64, bool, u64),
}

/// A directory on the stack.
pub struct ListItem {
    /// The directory's path.
    pub path: String,
    /// Its entries.
    pub children: Vec<ChildItem>,
    /// The selection among them.
    pub list_state: ListState,
}

/// The directories a panel has gone into, the current one last.
pub struct List {
    /// The stack; empty until the panel has been filled.
    pub items: Vec<ListItem>,
}

impl ChildItem {
    /// The entry's name.
    pub open spec fn name(self) -> Seq<char> {
        match self {
            ChildItem::Local(name, _) => name@,
            ChildItem::Cloud(name, _, _, _) => name@,
        }
    }

    /// Whether the entry is a directory.
    pub open spec fn dir(self) -> bool {
        match self {
            ChildItem::Local(_, is_dir) => is_dir,
            ChildItem::Cloud(_, _, is_dir, _) => is_dir,
        }
    }

    /// Whether the entry is local.
    pub fn is_local(&self) -> (local: bool)
        ensures
            local == (*self is Local),
    {
        match self {
            ChildItem::Local(_, _) => true,
            ChildItem::Cloud(_, _, _, _) => false,
        }
    }

    /// Whether the entry is a directory.
    pub fn is_dir(&self) -> (dir: bool)
        ensures
            dir == self.dir(),
    {
        match self {
            ChildItem::Local(_, is_dir) => *is_dir,
            ChildItem::Cloud(_, _, is_dir, _) => *is_dir,
        }
    }

    /// The entry's name.
    pub fn as_str(&self) -> (name: &str)
        ensures
            name@ == self.name(),
    {
        match self {
            ChildItem::Local(name, _) => name.as_str(),
            ChildItem::Cloud(name, _, _, _) => name.as_str(),
        }
    }
}

/// The entry at a position of a directory, counted from its first visible
/// row; none if the position lies outside the directory.
pub open spec fn visible_child(item: ListItem, idx: usize) -> Option<ChildItem> {
    if item.list_state.top_row >= 0 && item.list_state.top_row + idx < item.children@.len() {
        Some(item.children@[item.list_state.top_row + idx])
    } else {
        None
    }
}

/// The selected entry of a directory; none if the selection lies outside
/// the directory.
pub open spec fn selected_child(item: ListItem) -> Option<ChildItem> {
    if 0 <= item.list_state.selected_idx < item.children@.len() {
        Some(item.children@[item.list_state.selected_idx as int])
    } else {
        None
    }
}

/// Whether a directory has an entry of a name, whatever the case of its
/// letters.
pub open spec fn has_child_named(item: ListItem, name: Seq<char>) -> bool {
    exists|i: int|
        0 <= i < item.children@.len() && lowercased((#[trigger] item.children@[i]).name())
            == lowercased(name)
}

/// Whether one of the texts is the wanted one.
pub fn contains_text(texts: &Vec<String>, wanted: &str) -> (found: bool)
    ensures
        found == exists|i: int| 0 <= i < texts@.len() && (#[trigger] texts@[i])@ == wanted@,
{
    let mut i: usize = 0;
    while i < texts.len()
        invariant
            i <= texts.len(),
            forall|j: int| 0 <= j < i ==> (#[trigger] texts@[j])@ != wanted@,
        decreases texts.len() - i,
    {
        if str_eq(texts[i].as_str(), wanted) {
            return true;
        }
        i += 1;
    }
    false
}

/// The name of an entry as a directory's: ending in a slash.
pub open spec fn dir_name(name: Seq<char>) -> Seq<char> {
    if name.len() > 0 && name.last() == '/' {
        name
    } else {
        name + seq!['/']
    }
}

impl List {
    /// The current directory, if the panel has been filled.
    pub open spec fn current(self) -> Option<ListItem> {
        if self.items@.len() > 0 {
            Some(self.items@.last())
        } else {
            None
        }
    }

    /// A panel that has not been filled.
    pub fn new() -> (list: List)
        ensures
            list.items@ == Seq::<ListItem>::empty(),
    {
        List { items: Vec::new() }
    }

    /// Leaves the current directory, unless it is the first. Says whether
    /// it was left.
    pub fn pop(&mut self) -> (left: bool)
        ensures
            left == (old(self).items@.len() > 1),
            final(self).items@ == if left {
                old(self).items@.drop_last()
            } else {
                old(self).items@
            },
    {
        if self.items.len() > 1 {
            self.items.pop();
            return true;
        }
        false
    }

    /// The entry at a position of the current directory, counted from its
    /// first visible row.
    pub fn get(&self, idx: usize) -> (child: Option<&ChildItem>)
        ensures
            match self.current() {
                Some(item) => match child {
                    Some(c) => visible_child(item, idx) == Some(*c),
                    None => visible_child(item, idx).is_none(),
                },
                None => child.is_none(),
            },
    {
        if self.items.len() == 0 {
            return None;
        }
        let item = &self.items[self.items.len() - 1];
        if item.list_state.top_row < 0 {
            return None;
        }
        let top = item.list_state.top_row as usize;
        if idx >= item.children.len() || top >= item.children.len() - idx {
            return None;
        }
        Some(&item.children[top + idx])
    }

    /// Whether the current directory has an entry of a name, whatever the
    /// case of its letters.
    pub fn is_exists(&self, name: &str) -> (found: bool)
        ensures
            found == match self.current() {
                Some(item) => has_child_named(item, name@),
                None => false,
            },
    {
        if self.items.len() == 0 {
            return false;
        }
        let item = &self.items[self.items.len() - 1];
        let wanted = to_lowercase(name);
        let mut lowered: Vec<String> = Vec::new();
        let mut i: usize = 0;
        while i < item.children.len()
            invariant
                i <= item.children.len(),
                lowered@.len() == i,
                forall|j: int|
                    0 <= j < i ==> (#[trigger] lowered@[j])@ == lowercased(item.children@[j].name()),
            decreases item.children.len() - i,
        {
            lowered.push(to_lowercase(item.children[i].as_str()));
            i += 1;
        }
        let found = contains_text(&lowered, wanted.as_str());
        proof {
            if found {
                let k = choose|k: int| 0 <= k < lowered@.len() && (#[trigger] lowered@[k])@ == wanted@;
                assert(lowercased(item.children@[k].name()) == lowercased(name@));
            } else {
                assert forall|k: int| 0 <= k < item.children@.len() implies lowercased(
                    (#[trigger] item.children@[k]).name(),
                ) != lowercased(name@) by {
                    assert(lowered@[k]@ != wanted@);
                }
            }
        }
        found
    }

    /// The selected entry of the current directory.
    pub fn selected_item(&self) -> (child: Option<&ChildItem>)
        ensures
            match self.current() {
                Some(item) => match child {
                    Some(c) => selected_child(item) == Some(*c),
                    None => selected_child(item).is_none(),
                },
                None => child.is_none(),
            },
    {
        if self.items.len() == 0 {
            return None;
        }
        let item = &self.items[self.items.len() - 1];
        if item.list_state.selected_idx < 0 {
            return None;
        }
        let selected = item.list_state.selected_idx as usize;
        if selected >= item.children.len() {
            return None;
        }
        Some(&item.children[selected])
    }

    /// Whether the selected entry of the current directory is a directory.
    pub fn is_selected_item_dir(&self) -> (dir: bool)
        ensures
            dir == match self.current() {
                Some(item) => match selected_child(item) {
                    Some(child) => child.dir(),
                    None => false,
                },
                None => false,
            },
    {
        match self.selected_item() {
            Some(child) => child.is_dir(),
            None => false,
        }
    }

    /// The selected row of the current directory, counted from one; zero
    /// if the panel has not been filled.
    pub fn current_idx(&self) -> (idx: i32)
        requires
            self.current() matches Some(item) ==> item.list_state.selected_idx < i32::MAX,
        ensures
            idx == match self.current() {
                Some(item) => item.list_state.selected_idx + 1,
                None => 0,
            },
    {
        if self.items.len() == 0 {
            return 0;
        }
        self.items[self.items.len() - 1].list_state.selected_idx + 1
    }

    /// The number of entries of the current directory, held to the range
    /// of the selection.
    pub fn total_items(&self) -> (total: i32)
        ensures
            total == match self.current() {
                Some(item) => if item.children@.len() <= i32::MAX {
                    item.children@.len() as int
                } else {
                    i32::MAX as int
                },
                None => 0,
            },
    {
        if self.items.len() == 0 {
            return 0;
        }
        let len = self.items[self.items.len() - 1].children.len();
        if len <= 2147483647 {
            len as i32
        } else {
            i32::MAX
        }
    }

    /// Whether the entry at a visible row of the current directory is the
    /// selected one.
    pub fn is_selected(&self, idx: i32) -> (selected: bool)
        ensures
            selected == match self.current() {
                Some(item) => item.list_state.selected_idx == item.list_state.top_row + idx,
                None => false,
            },
    {
        if self.items.len() == 0 {
            return false;
        }
        let state = &self.items[self.items.len() - 1].list_state;
        state.selected_idx as i64 == state.top_row as i64 + idx as i64
    }

    /// Whether the panel has not been filled.
    pub fn is_not_init(&self) -> (empty: bool)
        ensures
            empty == self.current().is_none(),
    {
        self.items.len() == 0
    }

    /// The path of the current directory; empty if the panel has not been
    /// filled.
    pub fn current_abs_path(&self) -> (path: String)
        ensures
            path@ == match self.current() {
                Some(item) => item.path@,
                None => Seq::<char>::empty(),
            },
    {
        if self.items.len() == 0 {
            return String::new();
        }
        self.items[self.items.len() - 1].path.clone()
    }

    /// The path of the selected entry of the current directory, as a
    /// directory's: ending in a slash.
    pub fn current_selected_abs_path(&self) -> (path: String)
        requires
            self.current() matches Some(item) && selected_child(item).is_some(),
        ensures
            path@ == join_path_spec(
                self.current().unwrap().path@,
                dir_name(selected_child(self.current().unwrap()).unwrap().name()),
            ),
    {
        let base = self.current_abs_path();
        let child = self.selected_item().unwrap();
        let name = child.as_str();
        let len = name.unicode_len();
        let mut dir = String::from_str(name);
        if len == 0 || name.get_char(len - 1) != '/' {
            dir.push('/');
        }
        join_path(base.as_str(), dir.as_str())
    }

    /// Enters a directory: its entries are shown with the first row selected.
    /// With `is_refresh` the panel shows the current directory again: the
    /// directory takes the place of the current one and keeps its selection,
    /// held to the entries there are now.
    pub fn enter_dir(&mut self, path: String, children: Vec<ChildItem>, is_refresh: bool)
        requires
            children@.len() <= i32::MAX,
        ensures
            final(self).items@ == (if is_refresh && old(self).items@.len() > 0 {
                old(self).items@.drop_last()
            } else {
                old(self).items@
            }).push(
                ListItem {
                    path,
                    children,
                    list_state: entered_state(*old(self), children@.len() as int, is_refresh),
                },
            ),
    {
        let count = children.len() as i32;
        let list_state = if is_refresh {
            match self.items.pop() {
                Some(item) => {
                    let mut state = item.list_state;
                    state.update(count);
                    state
                },
                None => ListState::new(PANEL_ROWS),
            }
        } else {
            ListState::new(PANEL_ROWS)
        };
        self.items.push(ListItem { path, children, list_state });
    }

    /// What a step of the selection does to a panel: the selection of the
    /// current directory moves within its entries; a panel that has not been
    /// filled stays as it is.
    pub fn list_do_scroll(&mut self, action: ScrollAction)
        requires
            old(self).current() matches Some(item) ==> item.children@.len() <= i32::MAX
                && item.list_state.can_scroll(item.children@.len() as i32, action),
        ensures
            final(self).items@.len() == old(self).items@.len(),
            forall|i: int|
                0 <= i < old(self).items@.len() - 1 ==> final(self).items@[i] == old(self).items@[i],
            old(self).current() matches Some(item) ==> final(self).current() == Some(
                ListItem {
                    list_state: ListState {
                        selected_idx: item.list_state.selected_after(
                            item.children@.len() as i32,
                            action,
                        ) as i32,
                        top_row: item.list_state.top_after(
                            item.list_state.selected_after(item.children@.len() as i32, action),
                        ) as i32,
                        display_row: item.list_state.display_row,
                    },
                    ..item
                },
            ),
    {
        if self.items.len() == 0 {
            return;
        }
        let last = self.items.len() - 1;
        let size = self.items[last].children.len() as i32;
        let mut state = self.items[last].list_state;
        state.do_scroll(size, action);
        self.items[last].list_state = state;
    }
}

/// The number of rows a panel shows of a directory.
pub const PANEL_ROWS: i32 = 12;

/// Whether an entry comes before another in a panel: directories before
/// files, and within each by name, whatever the case of its letters.
pub open spec fn child_lt(a: ChildItem, b: ChildItem) -> bool {
    if a.dir() != b.dir() {
        a.dir()
    } else {
        text_lt(lowercased(a.name()), lowercased(b.name()))
    }
}

/// Whether entries stand in the order of a panel: none comes before an
/// earlier one.
pub open spec fn is_panel_order(children: Seq<ChildItem>) -> bool {
    forall|i: int, j: int| 0 <= i < j < children.len() ==> !child_lt(children[j], children[i])
}

/// The selection a directory is shown with when a panel enters it: the
/// first row, or, when the panel shows the directory again, the selection
/// it had, held to the entries there are now.
pub open spec fn entered_state(list: List, count: int, is_refresh: bool) -> ListState {
    if is_refresh && list.items@.len() > 0 {
        let state = list.items@.last().list_state;
        ListState { selected_idx: state.clamped(count as i32) as i32, ..state }
    } else {
        ListState { top_row: 0, selected_idx: 0, display_row: PANEL_ROWS }
    }
}

fn child_before(a: &ChildItem, b: &ChildItem) -> (before: bool)
    ensures
        before == child_lt(*a, *b),
{
    if a.is_dir() != b.is_dir() {
        a.is_dir()
    } else {
        let x = to_lowercase(a.as_str());
        let y = to_lowercase(b.as_str());
        text_less(x.as_str(), y.as_str())
    }
}

proof fn lemma_child_order(a: ChildItem, b: ChildItem, c: ChildItem)
    ensures
        child_lt(a, b) ==> !child_lt(b, a),
        child_lt(a, b) && child_lt(b, c) ==> child_lt(a, c),
{
    lemma_text_lt_asymmetric(lowercased(a.name()), lowercased(b.name()));
    lemma_text_lt_transitive(
        lowercased(a.name()),
        lowercased(b.name()),
        lowercased(c.name()),
    );
}

/// Puts the entries of a local directory in the order of a panel:
/// directories first, each group by name without regard to case; entries
/// that compare alike keep the order they came in.
pub fn sort_children(children: Vec<ChildItem>) -> (sorted: Vec<ChildItem>)
    ensures
        is_panel_order(sorted@),
        sorted@.to_multiset() == children@.to_multiset(),
{
    let ghost all = children@;
    let mut sorted: Vec<ChildItem> = Vec::new();
    assert(all.take(0) =~= sorted@);
    for child in iter: children.into_iter()
        invariant
            iter.seq() == all,
            is_panel_order(sorted@),
            sorted@.to_multiset() == all.take(iter.index()).to_multiset(),
    {
        let ghost before = sorted@;
        let ghost taken = iter.index();
        let mut at: usize = 0;
        while at < sorted.len() && !child_before(&child, &sorted[at])
            invariant
                at <= sorted.len(),
                before == sorted@,
                forall|k: int| 0 <= k < at ==> !child_lt(child, #[trigger] before[k]),
            decreases sorted.len() - at,
        {
            at += 1;
        }
        sorted.insert(at, child);
        proof {
            let after = sorted@;
            to_multiset_insert(before, at as int, child);
            to_multiset_build(all.take(taken), child);
            assert(all.take(taken).push(child) =~= all.take(taken + 1));
            assert(at < before.len() ==> child_lt(child, before[at as int]));
            assert forall|x: int, y: int| 0 <= x < y < after.len() implies !child_lt(
                after[y],
                after[x],
            ) by {
                if x == at {
                    assert(after[y] == before[y - 1]);
                    lemma_child_order(child, before[at as int], before[y - 1]);
                    lemma_child_order(before[y - 1], child, before[at as int]);
                } else if y == at {
                    assert(after[x] == before[x]);
                } else {
                    let bx = if x < at {
                        x
                    } else {
                        x - 1
                    };
                    let by = if y < at {
                        y
                    } else {
                        y - 1
                    };
                    assert(after[x] == before[bx] && after[y] == before[by]);
                }
            }
        }
    }
    proof {
        assert(all.take(all.len() as int) =~= all);
    }
    sorted
}

} // verus!
