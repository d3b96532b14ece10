use vstd::prelude::*;
use crate::cursor::{Cursor, next_selection, prev_selection};
use crate::error::Error;
use crate::input::TextInput;

verus! {

/// The screen on display.
#[derive(Clone, Copy, Debug, PartialEq, Eq, Structural)]
pub enum CurrentScreen {
    Main,
    Creating,
}

/// The step of the creation flow.
#[derive(Clone, Copy, Debug, PartialEq, Eq, Structural)]
pub enum CurrentlyCreating {
    Location,
    Branch,
}

/// One registered worktree.
#[derive(Clone, Debug, PartialEq, Eq)]
pub struct ListTree {
    pub location: String,
    pub name: String,
}

/// The worktrees, in the order the repository lists them, with a cursor.
#[derive(Debug)]
pub struct TreeList {
    pub items: Vec<ListTree>,
    pub state: Cursor,
}

impl TreeList {
    /// The cursor is a valid position of the list.
    pub open spec fn wf(&self) -> bool {
        self.state.valid(self.items@.len())
    }

    /// The highlighted entry; `None` when nothing is highlighted or the
    /// cursor lies past the end of the list.
    pub open spec fn spec_selected(&self) -> Option<ListTree> {
        match self.state.selected {
            Some(i) => if i < self.items@.len() {
                Some(self.items@[i as int])
            } else {
                None
            },
            None => None,
        }
    }

    /// A list of `items` with the cursor on the first of them.
    pub fn new(items: Vec<ListTree>) -> (r: TreeList)
        ensures
            r.wf(),
            r.items@ == items@,
            r.state.selected == (if items@.len() == 0 { None } else { Some(0usize) }),
    {
        let state = Cursor::first(items.len());
        TreeList { items, state }
    }

    /// Rebuilds the list from `items`; the cursor goes back to the first entry.
    pub fn replace(&mut self, items: Vec<ListTree>)
        ensures
            final(self).wf(),
            final(self).items@ == items@,
            final(self).state.selected == (if items@.len() == 0 { None } else { Some(0usize) }),
    {
        *self = TreeList::new(items);
    }

    /// Highlights the next worktree, wrapping from the last to the first.
    pub fn select_next(&mut self)
        requires
            old(self).wf(),
        ensures
            final(self).wf(),
            final(self).items == old(self).items,
            final(self).state.selected == next_selection(old(self).state.selected, old(self).items@.len()),
    {
        let n = self.items.len();
        self.state.select_next(n);
    }

    /// Highlights the previous worktree, wrapping from the first to the last.
    pub fn select_previous(&mut self)
        requires
            old(self).wf(),
        ensures
            final(self).wf(),
            final(self).items == old(self).items,
            final(self).state.selected == prev_selection(old(self).state.selected, old(self).items@.len()),
    {
        let n = self.items.len();
        self.state.select_previous(n);
    }

    /// The highlighted worktree, if any.
    pub fn selected(&self) -> (r: Option<&ListTree>)
        ensures
            (match r {
                Some(t) => self.spec_selected() == Some(*t),
                None => self.spec_selected() == None::<ListTree>,
            }),
    {
        match self.state.selected {
            Some(i) => if i < self.items.len() {
                Some(&self.items[i])
            } else {
                None
            },
            None => None,
        }
    }
}

/// The branches to choose from. Position 0 of the cursor is the entry for
/// typing a new name; position `i > 0` is `items[i - 1]`.
#[derive(Debug)]
pub struct BranchList {
    pub items: Vec<String>,
    pub state: Cursor,
}

impl BranchList {
    /// The number of positions: the branches and the typing entry.
    pub open spec fn entries(&self) -> nat {
        self.items@.len() + 1
    }

    /// The cursor is a valid position of the branches and the typing entry.
    pub open spec fn wf(&self) -> bool {
        &&& self.items@.len() < usize::MAX
        &&& self.state.valid(self.entries())
    }

    /// The branch name the cursor stands for, given what was typed.
    pub open spec fn spec_choice(&self, typed: Seq<char>) -> Seq<char> {
        match self.state.selected {
            Some(i) => if 0 < i && i <= self.items@.len() {
                self.items@[i - 1]@
            } else {
                typed
            },
            None => typed,
        }
    }

    /// A list of `items` with the cursor on the typing entry.
    pub fn new(items: Vec<String>) -> (r: BranchList)
        requires
            items@.len() < usize::MAX,
        ensures
            r.wf(),
            r.items@ == items@,
            r.state.selected == Some(0usize),
    {
        BranchList { items, state: Cursor { selected: Some(0) } }
    }

    /// Rebuilds the list from `items`; the cursor goes back to the typing entry.
    pub fn replace(&mut self, items: Vec<String>)
        requires
            items@.len() < usize::MAX,
        ensures
            final(self).wf(),
            final(self).items@ == items@,
            final(self).state.selected == Some(0usize),
    {
        *self = BranchList::new(items);
    }

    /// Moves to the next position, wrapping from the last to the typing entry.
    pub fn select_next(&mut self)
        requires
            old(self).wf(),
        ensures
            final(self).wf(),
            final(self).items == old(self).items,
            final(self).state.selected == next_selection(old(self).state.selected, old(self).entries()),
    {
        let n = self.items.len() + 1;
        self.state.select_next(n);
    }

    /// Moves to the previous position, wrapping from the typing entry to the last.
    pub fn select_previous(&mut self)
        requires
            old(self).wf(),
        ensures
            final(self).wf(),
            final(self).items == old(self).items,
            final(self).state.selected == prev_selection(old(self).state.selected, old(self).entries()),
    {
        let n = self.items.len() + 1;
        self.state.select_previous(n);
    }

    /// The branch name the cursor stands for: `typed` on the typing entry,
    /// else the highlighted branch.
    pub fn choice(&self, typed: &String) -> (r: String)
        ensures
            r@ == self.spec_choice(typed@),
    {
        match self.state.selected {
            Some(i) => if 0 < i && i <= self.items.len() {
                self.items[i - 1].clone()
            } else {
                typed.clone()
            },
            None => typed.clone(),
        }
    }
}

/// A key press, as the interaction loop hands it over.
#[derive(Clone, Copy, Debug, PartialEq, Eq, Structural)]
pub enum Key {
    Char(char),
    Backspace,
    Delete,
    Left,
    Right,
    Up,
    Down,
    Enter,
    Esc,
    Other,
}

/// Outside work that the caller carries out, then reports as an [`Event`].
#[derive(Clone, Debug, PartialEq, Eq)]
pub enum Action {
    /// Nothing to do.
    Nothing,
    /// End the session.
    Quit,
    /// List the branches and report them as `Event::Branches`.
    ListBranches,
    /// List the worktrees and report them as `Event::Worktrees`.
    ListWorktrees,
    /// Add a worktree for `branch` at `location`; report `Event::Created`.
    CreateWorktree { branch: String, location: String },
    /// Resolve the path of worktree `name` and whether it exists on disk;
    /// report `Event::Found`.
    FindWorktree { name: String },
    /// Ask whether the worktree at `path` is clean; report `Event::Status`.
    CheckStatus { path: String },
    /// Prune the registration of worktree `name`, with validity checking on;
    /// report `Event::Pruned`.
    PruneWorktree { name: String },
    /// Remove the directory at `path` if it is there; report `Event::Removed`.
    RemoveDirectory { path: String },
}

/// Something that happened: a key press, or the outcome of an [`Action`].
#[derive(Debug, PartialEq, Eq)]
pub enum Event {
    Key(Key),
    Branches(Result<Vec<String>, Error>),
    Worktrees(Result<Vec<ListTree>, Error>),
    Created(Result<(), Error>),
    /// The worktree's path, and whether it exists on disk.
    Found(Result<(String, bool), Error>),
    /// Whether the worktree is clean.
    Status(Result<bool, Error>),
    Pruned(Result<(), Error>),
    Removed(Result<(), Error>),
}

/// The step a deletion has reached: the outcome it waits for.
#[derive(Clone, Copy, Debug, PartialEq, Eq, Structural)]
pub enum DeleteStep {
    Finding,
    Checking,
    Pruning,
    Removing,
    Listing,
}

/// A deletion in progress.
#[derive(Debug)]
pub struct Deletion {
    pub name: String,
    pub path: String,
    /// Whether the worktree's directory existed when its path was resolved.
    pub exists: bool,
    pub step: DeleteStep,
}

/// The whole state of a session.
#[derive(Debug)]
pub struct App {
    pub current_screen: CurrentScreen,
    /// The branch chosen at the first creation step.
    pub branch_name: String,
    /// The branch name being typed at the first creation step.
    pub branch_input: TextInput,
    pub branch_list: BranchList,
    /// The location being typed at the second creation step.
    pub worktree_location: TextInput,
    pub tree_list: TreeList,
    pub creating: Option<CurrentlyCreating>,
    pub deleting: Option<Deletion>,
    /// Messages of the errors met, oldest first.
    pub logging: Vec<String>,
}

impl App {
    /// Creation buffers exist exactly on the creation screen, and every
    /// cursor is valid.
    pub open spec fn wf(&self) -> bool {
        &&& (self.creating is Some <==> self.current_screen == CurrentScreen::Creating)
        &&& self.branch_input.wf()
        &&& self.worktree_location.wf()
        &&& self.tree_list.wf()
        &&& self.branch_list.wf()
    }

    /// A session on the main screen over the given worktrees and branches.
    pub fn new(worktrees: Vec<ListTree>, branches: Vec<String>) -> (r: App)
        requires
            branches@.len() < usize::MAX,
        ensures
            r.wf(),
            r.current_screen == CurrentScreen::Main,
            r.creating is None,
            r.deleting is None,
            r.tree_list.items@ == worktrees@,
            r.tree_list.state.selected == (if worktrees@.len() == 0 { None } else { Some(0usize) }),
            r.branch_list.items@ == branches@,
            r.branch_list.state.selected == Some(0usize),
            r.branch_name@ == Seq::<char>::empty(),
            r.branch_input.value@ == Seq::<char>::empty(),
            r.worktree_location.value@ == Seq::<char>::empty(),
            r.logging@ == Seq::<String>::empty(),
    {
        App {
            current_screen: CurrentScreen::Main,
            branch_name: String::new(),
            branch_input: TextInput::new(),
            branch_list: BranchList::new(branches),
            worktree_location: TextInput::new(),
            tree_list: TreeList::new(worktrees),
            creating: None,
            deleting: None,
            logging: Vec::new(),
        }
    }
}

} // verus!
