use vstd::prelude::*;
use crate::app::{Action, App, CurrentScreen, CurrentlyCreating, DeleteStep, Event, Key, ListTree};
use crate::dispatch::{awaiting, event_post, logged};
use crate::error::Error;

verus! {

/// A worktree reported dirty is never destroyed: the deletion stops, no
/// outside work is asked for, the list is untouched, and the
/// uncommitted-changes message is logged.
pub proof fn lemma_dirty_worktree_is_kept(a: App, b: App, r: Action)
    requires
        a.wf(),
        awaiting(a, DeleteStep::Checking),
        event_post(a, Event::Status(Ok(false)), b, r),
    ensures
        r == Action::Nothing,
        b.deleting is None,
        b.tree_list == a.tree_list,
        logged(a.logging@, b.logging@, Error::UncommittedChanges.spec_message()),
{
}

/// Pruning is asked for only after a clean status or for a worktree whose
/// directory is absent, and a directory is removed only after a successful
/// prune of a worktree whose directory existed.
pub proof fn lemma_destruction_is_guarded(a: App, ev: Event, b: App, r: Action)
    requires
        a.wf(),
        event_post(a, ev, b, r),
    ensures
        r is PruneWorktree ==> (awaiting(a, DeleteStep::Checking) && ev == Event::Status(Ok(true)))
            || (awaiting(a, DeleteStep::Finding) && ev matches Event::Found(Ok((_, false)))),
        r is RemoveDirectory ==> awaiting(a, DeleteStep::Pruning) && a.deleting->0.exists
            && ev matches Event::Pruned(Ok(_)),
{
}

/// A clean worktree with a directory is pruned, then its directory removed,
/// then the worktrees are listed afresh, and the fresh list is shown with
/// the deletion complete.
pub proof fn lemma_clean_deletion_completes(
    a: App,
    b1: App,
    r1: Action,
    b2: App,
    r2: Action,
    b3: App,
    r3: Action,
    items: Vec<ListTree>,
    b4: App,
    r4: Action,
)
    requires
        a.wf(),
        awaiting(a, DeleteStep::Checking),
        a.deleting->0.exists,
        event_post(a, Event::Status(Ok(true)), b1, r1),
        event_post(b1, Event::Pruned(Ok(())), b2, r2),
        event_post(b2, Event::Removed(Ok(())), b3, r3),
        event_post(b3, Event::Worktrees(Ok(items)), b4, r4),
    ensures
        r1 == (Action::PruneWorktree { name: a.deleting->0.name }),
        r2 == (Action::RemoveDirectory { path: a.deleting->0.path }),
        r3 == Action::ListWorktrees,
        r4 == Action::Nothing,
        b4.deleting is None,
        b4.tree_list.items@ == items@,
        b4.logging == a.logging,
{
}

/// Cancelling on the location step goes back to the branch step with the
/// branch buffers as they were, and asks for no outside work.
pub proof fn lemma_cancel_location_keeps_branch(a: App, b: App, r: Action)
    requires
        a.wf(),
        a.creating == Some(CurrentlyCreating::Location),
        event_post(a, Event::Key(Key::Esc), b, r),
    ensures
        r == Action::Nothing,
        b.current_screen == CurrentScreen::Creating,
        b.creating == Some(CurrentlyCreating::Branch),
        b.branch_input == a.branch_input,
        b.branch_name == a.branch_name,
{
}

/// A failed creation leaves the location step and both buffers as they
/// were, and logs exactly one message.
pub proof fn lemma_failed_creation_is_retryable(a: App, e: Error, b: App, r: Action)
    requires
        a.wf(),
        a.creating == Some(CurrentlyCreating::Location),
        event_post(a, Event::Created(Err(e)), b, r),
    ensures
        r == Action::Nothing,
        b.current_screen == CurrentScreen::Creating,
        b.creating == Some(CurrentlyCreating::Location),
        b.branch_name == a.branch_name,
        b.branch_input == a.branch_input,
        b.worktree_location == a.worktree_location,
        logged(a.logging@, b.logging@, e.spec_message()),
{
}

/// A deletion request with nothing highlighted, or with the cursor past the
/// end of the list, changes nothing and asks for no outside work.
pub proof fn lemma_delete_without_selection_is_noop(a: App, b: App, r: Action)
    requires
        a.current_screen == CurrentScreen::Main,
        a.tree_list.spec_selected() is None,
        event_post(a, Event::Key(Key::Char('d')), b, r),
    ensures
        b == a,
        r == Action::Nothing,
{
}

/// A deletion of a worktree that is gone already (its path no longer
/// resolves) stops with the message logged, before anything is destroyed,
/// and leaves the list as it was.
pub proof fn lemma_stale_deletion_is_safe(a: App, e: Error, b: App, r: Action)
    requires
        a.wf(),
        awaiting(a, DeleteStep::Finding),
        event_post(a, Event::Found(Err(e)), b, r),
    ensures
        r == Action::Nothing,
        b.deleting is None,
        b.tree_list == a.tree_list,
        logged(a.logging@, b.logging@, e.spec_message()),
{
}

} // verus!
