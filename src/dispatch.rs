use vstd::prelude::*;
use crate::app::{
    Action, App, CurrentScreen, CurrentlyCreating, DeleteStep, Deletion, Event, Key, ListTree,
};
use crate::cursor::{Cursor, next_selection, prev_selection};
use crate::error::Error;
use crate::input::{Edit, TextInput, apply_edit};

verus! {

/// `after` is `before` with one more message, `m`, at its end.
pub open spec fn logged(before: Seq<String>, after: Seq<String>, m: Seq<char>) -> bool {
    &&& after.len() == before.len() + 1
    &&& after.drop_last() == before
    &&& after.last()@ == m
}

/// The editing request that a key stands for while text is typed.
pub open spec fn key_edit(k: Key) -> Option<Edit> {
    match k {
        Key::Char(c) => Some(Edit::InsertChar(c)),
        Key::Backspace => Some(Edit::DeletePrevChar),
        Key::Delete => Some(Edit::DeleteNextChar),
        Key::Left => Some(Edit::GoToPrevChar),
        Key::Right => Some(Edit::GoToNextChar),
        _ => None,
    }
}

/// The line is empty and its cursor at the start.
pub open spec fn is_empty_input(t: TextInput) -> bool {
    t.value@ == Seq::<char>::empty() && t.cursor == 0
}

/// The deletion in progress, if it waits for the outcome of step `s`.
pub open spec fn awaiting(a: App, s: DeleteStep) -> bool {
    a.deleting is Some && a.deleting->0.step == s
}

/// `b` is `a` with the deletion advanced to step `s`.
pub open spec fn advanced(a: App, b: App, s: DeleteStep) -> bool {
    b == (App { deleting: Some(Deletion { step: s, ..a.deleting->0 }), ..a })
}

/// `b` is `a` with the deletion dropped and the message `m` logged.
pub open spec fn aborted(a: App, b: App, m: Seq<char>) -> bool {
    &&& b.deleting is None
    &&& logged(a.logging@, b.logging@, m)
    &&& b == (App { deleting: None, logging: b.logging, ..a })
}

/// `b` is `a` back on the main screen with the creation buffers emptied.
pub open spec fn left_creation(a: App, b: App) -> bool {
    &&& b.current_screen == CurrentScreen::Main
    &&& b.creating is None
    &&& b.branch_name@ == Seq::<char>::empty()
    &&& is_empty_input(b.branch_input)
    &&& is_empty_input(b.worktree_location)
    &&& b == (App {
        current_screen: b.current_screen,
        creating: b.creating,
        branch_name: b.branch_name,
        branch_input: b.branch_input,
        worktree_location: b.worktree_location,
        ..a
    })
}

/// A key on the main screen.
pub open spec fn main_key_post(a: App, k: Key, b: App, r: Action) -> bool {
    if k == Key::Char('q') {
        b == a && r == Action::Quit
    } else if k == Key::Char('j') || k == Key::Down {
        r == Action::Nothing && b.tree_list.state.selected == next_selection(
            a.tree_list.state.selected,
            a.tree_list.items@.len(),
        ) && b == (App { tree_list: b.tree_list, ..a }) && b.tree_list.items == a.tree_list.items
    } else if k == Key::Char('k') || k == Key::Up {
        r == Action::Nothing && b.tree_list.state.selected == prev_selection(
            a.tree_list.state.selected,
            a.tree_list.items@.len(),
        ) && b == (App { tree_list: b.tree_list, ..a }) && b.tree_list.items == a.tree_list.items
    } else if k == Key::Char('c') || k == Key::Char('+') {
        start_creating_post(a, b, r)
    } else if k == Key::Char('d') {
        delete_key_post(a, b, r)
    } else {
        b == a && r == Action::Nothing
    }
}

/// Creation starts on the branch step with empty buffers and the branch
/// cursor on the typing entry, and the branches are to be listed afresh.
pub open spec fn start_creating_post(a: App, b: App, r: Action) -> bool {
    &&& r == Action::ListBranches
    &&& b.branch_list.items == a.branch_list.items
    &&& b.branch_list.state.selected == Some(0usize)
    &&& b.current_screen == CurrentScreen::Creating
    &&& b.creating == Some(CurrentlyCreating::Branch)
    &&& b.branch_name@ == Seq::<char>::empty()
    &&& is_empty_input(b.branch_input)
    &&& is_empty_input(b.worktree_location)
    &&& b == (App {
        current_screen: b.current_screen,
        creating: b.creating,
        branch_name: b.branch_name,
        branch_input: b.branch_input,
        worktree_location: b.worktree_location,
        branch_list: b.branch_list,
        ..a
    })
}

/// With no deletion under way, the deletion of worktree `name` starts by
/// resolving its path; else nothing changes.
pub open spec fn start_deletion_post(a: App, name: String, b: App, r: Action) -> bool {
    if a.deleting is None {
        &&& b.deleting is Some
        &&& b.deleting->0.name == name
        &&& b.deleting->0.step == DeleteStep::Finding
        &&& b == (App { deleting: b.deleting, ..a })
        &&& r == (Action::FindWorktree { name })
    } else {
        b == a && r == Action::Nothing
    }
}

/// A deletion request: with an entry highlighted, the deletion of that entry
/// starts; with none, nothing changes.
pub open spec fn delete_key_post(a: App, b: App, r: Action) -> bool {
    match a.tree_list.spec_selected() {
        Some(t) => start_deletion_post(a, t.name, b, r),
        None => b == a && r == Action::Nothing,
    }
}

/// A key on the creation screen.
pub open spec fn creating_key_post(a: App, k: Key, b: App, r: Action) -> bool {
    if k == Key::Esc {
        cancel_post(a, b, r)
    } else if k == Key::Enter {
        confirm_post(a, b, r)
    } else if k == Key::Down {
        r == Action::Nothing && b.branch_list.state.selected == next_selection(
            a.branch_list.state.selected,
            a.branch_list.entries(),
        ) && b == (App { branch_list: b.branch_list, ..a }) && b.branch_list.items == a.branch_list.items
    } else if k == Key::Up {
        r == Action::Nothing && b.branch_list.state.selected == prev_selection(
            a.branch_list.state.selected,
            a.branch_list.entries(),
        ) && b == (App { branch_list: b.branch_list, ..a }) && b.branch_list.items == a.branch_list.items
    } else {
        r == Action::Nothing && match key_edit(k) {
            Some(e) => edit_post(a, e, b),
            None => b == a,
        }
    }
}

/// Typing edits the buffer of the current step.
pub open spec fn edit_post(a: App, e: Edit, b: App) -> bool {
    if a.creating == Some(CurrentlyCreating::Branch) {
        &&& (b.branch_input.value@, b.branch_input.cursor as nat) == apply_edit(
            a.branch_input.value@,
            a.branch_input.cursor as nat,
            e,
        )
        &&& b == (App { branch_input: b.branch_input, ..a })
    } else {
        &&& (b.worktree_location.value@, b.worktree_location.cursor as nat) == apply_edit(
            a.worktree_location.value@,
            a.worktree_location.cursor as nat,
            e,
        )
        &&& b == (App { worktree_location: b.worktree_location, ..a })
    }
}

/// Cancelling steps back one level: from the location step to the branch
/// step, dropping only the location; from the branch step to the main screen.
pub open spec fn cancel_post(a: App, b: App, r: Action) -> bool {
    &&& r == Action::Nothing
    &&& if a.creating == Some(CurrentlyCreating::Location) {
        &&& b.creating == Some(CurrentlyCreating::Branch)
        &&& is_empty_input(b.worktree_location)
        &&& b == (App { creating: b.creating, worktree_location: b.worktree_location, ..a })
    } else {
        left_creation(a, b)
    }
}

/// Confirming the branch step fixes the branch and suggests a sibling
/// directory named after it; confirming the location step asks for the
/// worktree to be added, and changes nothing until the outcome comes.
pub open spec fn confirm_post(a: App, b: App, r: Action) -> bool {
    if a.creating == Some(CurrentlyCreating::Branch) {
        let name = a.branch_list.spec_choice(a.branch_input.value@);
        &&& r == Action::Nothing
        &&& b.creating == Some(CurrentlyCreating::Location)
        &&& b.branch_name@ == name
        &&& b.worktree_location.value@ == "../"@ + name
        &&& b.worktree_location.cursor == b.worktree_location.value@.len()
        &&& b == (App {
            creating: b.creating,
            branch_name: b.branch_name,
            worktree_location: b.worktree_location,
            ..a
        })
    } else {
        &&& b == a
        &&& r == (Action::CreateWorktree {
            branch: a.branch_name,
            location: a.worktree_location.value,
        })
    }
}

/// What a key press does.
pub open spec fn key_post(a: App, k: Key, b: App, r: Action) -> bool {
    if a.current_screen == CurrentScreen::Main {
        main_key_post(a, k, b, r)
    } else {
        creating_key_post(a, k, b, r)
    }
}

/// The outcome of adding a worktree. On success the creation ends and the
/// worktrees are to be listed afresh; on failure the message is logged and
/// the location step stays as it was, to be retried.
pub open spec fn created_post(a: App, res: Result<(), Error>, b: App, r: Action) -> bool {
    if a.creating == Some(CurrentlyCreating::Location) {
        match res {
            Ok(_) => r == Action::ListWorktrees && left_creation(a, b),
            Err(e) => {
                &&& r == Action::Nothing
                &&& logged(a.logging@, b.logging@, e.spec_message())
                &&& b == (App { logging: b.logging, ..a })
            },
        }
    } else {
        b == a && r == Action::Nothing
    }
}

/// The outcome of resolving the path: on failure the deletion stops with
/// the message logged; an existing directory is checked for changes first,
/// a missing one goes straight to pruning.
pub open spec fn found_post(a: App, res: Result<(String, bool), Error>, b: App, r: Action) -> bool {
    if awaiting(a, DeleteStep::Finding) {
        match res {
            Err(e) => r == Action::Nothing && aborted(a, b, e.spec_message()),
            Ok((path, exists)) => {
                let d = a.deleting->0;
                &&& b == (App {
                    deleting: Some(Deletion {
                        path,
                        exists,
                        step: if exists { DeleteStep::Checking } else { DeleteStep::Pruning },
                        ..d
                    }),
                    ..a
                })
                &&& r == if exists {
                    Action::CheckStatus { path }
                } else {
                    Action::PruneWorktree { name: d.name }
                }
            },
        }
    } else {
        b == a && r == Action::Nothing
    }
}

/// The outcome of the status check: a dirty worktree stops the deletion with
/// the uncommitted-changes message logged; a clean one is pruned.
pub open spec fn status_post(a: App, res: Result<bool, Error>, b: App, r: Action) -> bool {
    if awaiting(a, DeleteStep::Checking) {
        match res {
            Err(e) => r == Action::Nothing && aborted(a, b, e.spec_message()),
            Ok(clean) => if clean {
                &&& advanced(a, b, DeleteStep::Pruning)
                &&& r == (Action::PruneWorktree { name: a.deleting->0.name })
            } else {
                r == Action::Nothing && aborted(a, b, Error::UncommittedChanges.spec_message())
            },
        }
    } else {
        b == a && r == Action::Nothing
    }
}

/// The outcome of pruning: on success an existing directory is removed next;
/// in every other case the worktrees are listed afresh, a failure logged.
pub open spec fn pruned_post(a: App, res: Result<(), Error>, b: App, r: Action) -> bool {
    if awaiting(a, DeleteStep::Pruning) {
        let d = a.deleting->0;
        match res {
            Err(e) => {
                &&& r == Action::ListWorktrees
                &&& logged(a.logging@, b.logging@, e.spec_message())
                &&& b == (App {
                    deleting: Some(Deletion { step: DeleteStep::Listing, ..d }),
                    logging: b.logging,
                    ..a
                })
            },
            Ok(_) => if d.exists {
                advanced(a, b, DeleteStep::Removing) && r == (Action::RemoveDirectory { path: d.path })
            } else {
                advanced(a, b, DeleteStep::Listing) && r == Action::ListWorktrees
            },
        }
    } else {
        b == a && r == Action::Nothing
    }
}

/// The outcome of removing the directory: the worktrees are listed afresh
/// either way, a failure logged and not retried.
pub open spec fn removed_post(a: App, res: Result<(), Error>, b: App, r: Action) -> bool {
    if awaiting(a, DeleteStep::Removing) {
        let d = a.deleting->0;
        &&& r == Action::ListWorktrees
        &&& match res {
            Err(e) => {
                &&& logged(a.logging@, b.logging@, e.spec_message())
                &&& b == (App {
                    deleting: Some(Deletion { step: DeleteStep::Listing, ..d }),
                    logging: b.logging,
                    ..a
                })
            },
            Ok(_) => advanced(a, b, DeleteStep::Listing),
        }
    } else {
        b == a && r == Action::Nothing
    }
}

/// A fresh list of worktrees replaces the old one, with the cursor on the
/// first entry; a failed listing is logged and the old list kept. Either way
/// a deletion that waited for the listing is complete.
pub open spec fn worktrees_post(a: App, res: Result<Vec<ListTree>, Error>, b: App, r: Action) -> bool {
    &&& r == Action::Nothing
    &&& b.deleting == (if awaiting(a, DeleteStep::Listing) { None } else { a.deleting })
    &&& match res {
        Ok(items) => {
            &&& b.tree_list.items@ == items@
            &&& b.tree_list.state.selected == (if items@.len() == 0 { None } else { Some(0usize) })
            &&& b == (App { tree_list: b.tree_list, deleting: b.deleting, ..a })
        },
        Err(e) => {
            &&& logged(a.logging@, b.logging@, e.spec_message())
            &&& b == (App { deleting: b.deleting, logging: b.logging, ..a })
        },
    }
}

/// A fresh list of branches replaces the old one, with the cursor on the
/// typing entry; a failed listing is logged and the old list kept.
pub open spec fn branches_post(a: App, res: Result<Vec<String>, Error>, b: App, r: Action) -> bool {
    &&& r == Action::Nothing
    &&& match res {
        Ok(items) => {
            &&& b.branch_list.items@ == items@
            &&& b.branch_list.state.selected == Some(0usize)
            &&& b == (App { branch_list: b.branch_list, ..a })
        },
        Err(e) => {
            &&& logged(a.logging@, b.logging@, e.spec_message())
            &&& b == (App { logging: b.logging, ..a })
        },
    }
}

/// What an event does.
pub open spec fn event_post(a: App, ev: Event, b: App, r: Action) -> bool {
    match ev {
        Event::Key(k) => key_post(a, k, b, r),
        Event::Branches(res) => branches_post(a, res, b, r),
        Event::Worktrees(res) => worktrees_post(a, res, b, r),
        Event::Created(res) => created_post(a, res, b, r),
        Event::Found(res) => found_post(a, res, b, r),
        Event::Status(res) => status_post(a, res, b, r),
        Event::Pruned(res) => pruned_post(a, res, b, r),
        Event::Removed(res) => removed_post(a, res, b, r),
    }
}

/// An event the session can take: a list of branches leaves room for the
/// typing entry.
pub open spec fn event_ok(ev: Event) -> bool {
    match ev {
        Event::Branches(Ok(items)) => items@.len() < usize::MAX,
        _ => true,
    }
}

/// Starts the deletion of worktree `tree_name`, unless one is under way.
/// The steps that follow go by the outcomes handed to `App::handle_event`:
/// a dirty worktree is kept, a clean one is pruned and its directory removed,
/// and the worktrees are listed afresh.
pub fn remove_worktree(app: &mut App, tree_name: String) -> (r: Action)
    requires
        old(app).wf(),
    ensures
        final(app).wf(),
        start_deletion_post(*old(app), tree_name, *final(app), r),
{
    if app.deleting.is_some() {
        return Action::Nothing;
    }
    app.deleting = Some(
        Deletion {
            name: tree_name.clone(),
            path: String::new(),
            exists: false,
            step: DeleteStep::Finding,
        },
    );
    Action::FindWorktree { name: tree_name }
}

impl App {
    /// Appends the message of `e` to the log.
    fn log_error(&mut self, e: &Error)
        ensures
            logged(old(self).logging@, final(self).logging@, e.spec_message()),
            *final(self) == (App { logging: final(self).logging, ..*old(self) }),
    {
        let m = e.message();
        self.logging.push(m);
        assert(self.logging@.drop_last() =~= old(self).logging@);
    }

    /// Empties the creation buffers and returns to the main screen.
    fn leave_creation(&mut self)
        requires
            old(self).wf(),
        ensures
            final(self).wf(),
            left_creation(*old(self), *final(self)),
    {
        self.current_screen = CurrentScreen::Main;
        self.creating = None;
        self.branch_name = String::new();
        self.branch_input.reset();
        self.worktree_location.reset();
    }

    /// Handles a key press.
    pub fn handle_key(&mut self, k: Key) -> (r: Action)
        requires
            old(self).wf(),
        ensures
            final(self).wf(),
            key_post(*old(self), k, *final(self), r),
    {
        match self.current_screen {
            CurrentScreen::Main => self.main_key(k),
            CurrentScreen::Creating => self.creating_key(k),
        }
    }

    fn main_key(&mut self, k: Key) -> (r: Action)
        requires
            old(self).wf(),
            old(self).current_screen == CurrentScreen::Main,
        ensures
            final(self).wf(),
            main_key_post(*old(self), k, *final(self), r),
    {
        if k == Key::Char('q') {
            Action::Quit
        } else if k == Key::Char('j') || k == Key::Down {
            self.tree_list.select_next();
            Action::Nothing
        } else if k == Key::Char('k') || k == Key::Up {
            self.tree_list.select_previous();
            Action::Nothing
        } else if k == Key::Char('c') || k == Key::Char('+') {
            self.current_screen = CurrentScreen::Creating;
            self.creating = Some(CurrentlyCreating::Branch);
            self.branch_name = String::new();
            self.branch_input.reset();
            self.worktree_location.reset();
            self.branch_list.state = Cursor { selected: Some(0) };
            Action::ListBranches
        } else if k == Key::Char('d') {
            self.request_deletion()
        } else {
            Action::Nothing
        }
    }

    fn request_deletion(&mut self) -> (r: Action)
        requires
            old(self).wf(),
        ensures
            final(self).wf(),
            delete_key_post(*old(self), *final(self), r),
    {
        match self.tree_list.selected() {
            Some(t) => {
                let name = t.name.clone();
                remove_worktree(self, name)
            },
            None => Action::Nothing,
        }
    }

    fn creating_key(&mut self, k: Key) -> (r: Action)
        requires
            old(self).wf(),
            old(self).current_screen == CurrentScreen::Creating,
        ensures
            final(self).wf(),
            creating_key_post(*old(self), k, *final(self), r),
    {
        if k == Key::Esc {
            if self.creating == Some(CurrentlyCreating::Location) {
                self.creating = Some(CurrentlyCreating::Branch);
                self.worktree_location.reset();
            } else {
                self.leave_creation();
            }
            Action::Nothing
        } else if k == Key::Enter {
            self.confirm()
        } else if k == Key::Down {
            self.branch_list.select_next();
            Action::Nothing
        } else if k == Key::Up {
            self.branch_list.select_previous();
            Action::Nothing
        } else {
            let e = match k {
                Key::Char(c) => Edit::InsertChar(c),
                Key::Backspace => Edit::DeletePrevChar,
                Key::Delete => Edit::DeleteNextChar,
                Key::Left => Edit::GoToPrevChar,
                Key::Right => Edit::GoToNextChar,
                _ => {
                    return Action::Nothing;
                },
            };
            if self.creating == Some(CurrentlyCreating::Branch) {
                self.branch_input.handle(e);
            } else {
                self.worktree_location.handle(e);
            }
            Action::Nothing
        }
    }

    fn confirm(&mut self) -> (r: Action)
        requires
            old(self).wf(),
            old(self).current_screen == CurrentScreen::Creating,
        ensures
            final(self).wf(),
            confirm_post(*old(self), *final(self), r),
    {
        if self.creating == Some(CurrentlyCreating::Branch) {
            let name = self.branch_list.choice(&self.branch_input.value);
            let location = String::from_str("../").concat(name.as_str());
            self.worktree_location = TextInput::with_value(location);
            self.branch_name = name;
            self.creating = Some(CurrentlyCreating::Location);
            Action::Nothing
        } else {
            Action::CreateWorktree {
                branch: self.branch_name.clone(),
                location: self.worktree_location.value.clone(),
            }
        }
    }
    /// Handles one event: a key press or the outcome of an action. Returns
    /// the outside work to carry out next.
    pub fn handle_event(&mut self, ev: Event) -> (r: Action)
        requires
            old(self).wf(),
            event_ok(ev),
        ensures
            final(self).wf(),
            event_post(*old(self), ev, *final(self), r),
    {
        match ev {
            Event::Key(k) => self.handle_key(k),
            Event::Branches(res) => {
                match res {
                    Ok(items) => self.branch_list.replace(items),
                    Err(e) => self.log_error(&e),
                }
                Action::Nothing
            },
            Event::Worktrees(res) => {
                if self.awaits(DeleteStep::Listing) {
                    self.deleting = None;
                }
                match res {
                    Ok(items) => self.tree_list.replace(items),
                    Err(e) => self.log_error(&e),
                }
                Action::Nothing
            },
            Event::Created(res) => self.on_created(res),
            Event::Found(res) => self.on_found(res),
            Event::Status(res) => self.on_status(res),
            Event::Pruned(res) => self.on_pruned(res),
            Event::Removed(res) => self.on_removed(res),
        }
    }

    fn awaits(&self, s: DeleteStep) -> (r: bool)
        ensures
            r == awaiting(*self, s),
    {
        match &self.deleting {
            Some(d) => d.step == s,
            None => false,
        }
    }

    /// Moves the deletion in progress to step `s`.
    fn advance(&mut self, s: DeleteStep)
        requires
            old(self).deleting is Some,
        ensures
            advanced(*old(self), *final(self), s),
    {
        let d = self.deleting.as_ref().unwrap();
        let next = Deletion { name: d.name.clone(), path: d.path.clone(), exists: d.exists, step: s };
        self.deleting = Some(next);
    }

    /// Drops the deletion in progress and logs `e`.
    fn abort_deletion(&mut self, e: &Error)
        ensures
            aborted(*old(self), *final(self), e.spec_message()),
    {
        self.deleting = None;
        self.log_error(e);
    }

    fn on_created(&mut self, res: Result<(), Error>) -> (r: Action)
        requires
            old(self).wf(),
        ensures
            final(self).wf(),
            created_post(*old(self), res, *final(self), r),
    {
        if self.creating != Some(CurrentlyCreating::Location) {
            return Action::Nothing;
        }
        match res {
            Ok(_) => {
                self.leave_creation();
                Action::ListWorktrees
            },
            Err(e) => {
                self.log_error(&e);
                Action::Nothing
            },
        }
    }

    fn on_found(&mut self, res: Result<(String, bool), Error>) -> (r: Action)
        requires
            old(self).wf(),
        ensures
            final(self).wf(),
            found_post(*old(self), res, *final(self), r),
    {
        if !self.awaits(DeleteStep::Finding) {
            return Action::Nothing;
        }
        match res {
            Err(e) => {
                self.abort_deletion(&e);
                Action::Nothing
            },
            Ok((path, exists)) => {
                let name = self.deleting.as_ref().unwrap().name.clone();
                let step = if exists { DeleteStep::Checking } else { DeleteStep::Pruning };
                self.deleting = Some(Deletion { name: name.clone(), path: path.clone(), exists, step });
                if exists {
                    Action::CheckStatus { path }
                } else {
                    Action::PruneWorktree { name }
                }
            },
        }
    }

    fn on_status(&mut self, res: Result<bool, Error>) -> (r: Action)
        requires
            old(self).wf(),
        ensures
            final(self).wf(),
            status_post(*old(self), res, *final(self), r),
    {
        if !self.awaits(DeleteStep::Checking) {
            return Action::Nothing;
        }
        match res {
            Err(e) => {
                self.abort_deletion(&e);
                Action::Nothing
            },
            Ok(clean) => if clean {
                let name = self.deleting.as_ref().unwrap().name.clone();
                self.advance(DeleteStep::Pruning);
                Action::PruneWorktree { name }
            } else {
                self.abort_deletion(&Error::UncommittedChanges);
                Action::Nothing
            },
        }
    }

    fn on_pruned(&mut self, res: Result<(), Error>) -> (r: Action)
        requires
            old(self).wf(),
        ensures
            final(self).wf(),
            pruned_post(*old(self), res, *final(self), r),
    {
        if !self.awaits(DeleteStep::Pruning) {
            return Action::Nothing;
        }
        match res {
            Err(e) => {
                self.advance(DeleteStep::Listing);
                self.log_error(&e);
                Action::ListWorktrees
            },
            Ok(_) => {
                let d = self.deleting.as_ref().unwrap();
                if d.exists {
                    let path = d.path.clone();
                    self.advance(DeleteStep::Removing);
                    Action::RemoveDirectory { path }
                } else {
                    self.advance(DeleteStep::Listing);
                    Action::ListWorktrees
                }
            },
        }
    }

    fn on_removed(&mut self, res: Result<(), Error>) -> (r: Action)
        requires
            old(self).wf(),
        ensures
            final(self).wf(),
            removed_post(*old(self), res, *final(self), r),
    {
        if !self.awaits(DeleteStep::Removing) {
            return Action::Nothing;
        }
        self.advance(DeleteStep::Listing);
        if let Err(e) = res {
            self.log_error(&e);
        }
        Action::ListWorktrees
    }
}

} // verus!
