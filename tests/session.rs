use forestry::dispatch::remove_worktree;
use forestry::app::{Action, App, CurrentScreen, CurrentlyCreating, Event, Key, ListTree, TreeList, BranchList};
use forestry::cursor::Cursor;
use forestry::error::Error;
use forestry::input::{Edit, TextInput};

/// An in-memory repository that records every call made on it.
struct FakeRepo {
    worktrees: Vec<ListTree>,
    dirs: Vec<String>,
    dirty: Vec<String>,
    branches: Vec<String>,
    calls: Vec<String>,
}

impl FakeRepo {
    fn new() -> FakeRepo {
        FakeRepo { worktrees: Vec::new(), dirs: Vec::new(), dirty: Vec::new(), branches: Vec::new(), calls: Vec::new() }
    }

    fn add(&mut self, name: &str, location: &str) {
        self.worktrees.push(ListTree { name: name.to_string(), location: location.to_string() });
        self.dirs.push(location.to_string());
    }

    fn mutating_calls(&self) -> usize {
        self.calls.iter().filter(|c| c.starts_with("create") || c.starts_with("prune") || c.starts_with("remove")).count()
    }

    fn perform(&mut self, action: &Action) -> Option<Event> {
        match action {
            Action::Nothing | Action::Quit => None,
            Action::ListBranches => {
                self.calls.push("branches".to_string());
                Some(Event::Branches(Ok(self.branches.clone())))
            }
            Action::ListWorktrees => {
                self.calls.push("worktrees".to_string());
                Some(Event::Worktrees(Ok(self.worktrees.clone())))
            }
            Action::CreateWorktree { branch, location } => {
                self.calls.push(format!("create {} {}", branch, location));
                if self.dirs.contains(location) {
                    Some(Event::Created(Err(Error::Git2Error(format!("'{}' exists already", location)))))
                } else {
                    self.add(branch, location);
                    Some(Event::Created(Ok(())))
                }
            }
            Action::FindWorktree { name } => {
                self.calls.push(format!("find {}", name));
                match self.worktrees.iter().find(|t| &t.name == name) {
                    Some(t) => Some(Event::Found(Ok((t.location.clone(), self.dirs.contains(&t.location))))),
                    None => Some(Event::Found(Err(Error::Git2Error(format!("worktree '{}' not found", name))))),
                }
            }
            Action::CheckStatus { path } => {
                self.calls.push(format!("status {}", path));
                Some(Event::Status(Ok(!self.dirty.contains(path))))
            }
            Action::PruneWorktree { name } => {
                self.calls.push(format!("prune {}", name));
                self.worktrees.retain(|t| &t.name != name);
                Some(Event::Pruned(Ok(())))
            }
            Action::RemoveDirectory { path } => {
                self.calls.push(format!("remove {}", path));
                self.dirs.retain(|d| d != path);
                Some(Event::Removed(Ok(())))
            }
        }
    }
}

/// Hands `ev` to the session and carries out the work it asks for until it
/// asks for none; returns the last action.
fn drive(app: &mut App, repo: &mut FakeRepo, ev: Event) -> Action {
    let mut action = app.handle_event(ev);
    while let Some(next) = repo.perform(&action) {
        action = app.handle_event(next);
    }
    action
}

fn press(app: &mut App, repo: &mut FakeRepo, k: Key) -> Action {
    drive(app, repo, Event::Key(k))
}

fn type_text(app: &mut App, repo: &mut FakeRepo, s: &str) {
    for c in s.chars() {
        press(app, repo, Key::Char(c));
    }
}

fn session(repo: &FakeRepo) -> App {
    App::new(repo.worktrees.clone(), repo.branches.clone())
}

fn names(app: &App) -> Vec<String> {
    app.tree_list.items.iter().map(|t| t.name.clone()).collect()
}

#[test]
fn next_wraps_after_n_moves() {
    for n in 1..6usize {
        for start in 0..n {
            let mut c = Cursor { selected: Some(start) };
            for _ in 0..n {
                c.select_next(n);
                assert!(c.selected.unwrap() < n);
            }
            assert_eq!(c.selected, Some(start));
        }
    }
}

#[test]
fn previous_wraps_from_first_to_last() {
    let mut c = Cursor { selected: Some(0) };
    c.select_previous(4);
    assert_eq!(c.selected, Some(3));
    c.select_next(4);
    assert_eq!(c.selected, Some(0));
}

#[test]
fn mixed_moves_stay_in_range() {
    let mut c = Cursor::first(3);
    let moves = [true, true, true, false, false, false, false, true, false, true, true];
    for m in moves {
        if m { c.select_next(3) } else { c.select_previous(3) }
        assert!(c.selected.unwrap() < 3);
    }
    assert_eq!(c.selected, Some(1));
}

#[test]
fn cursor_on_empty_list_stays_none() {
    let mut c = Cursor::first(0);
    assert_eq!(c.selected, None);
    c.select_next(0);
    c.select_previous(0);
    assert_eq!(c.selected, None);
}

#[test]
fn rebuild_resets_cursor() {
    let items = vec![
        ListTree { name: "a".to_string(), location: "/a".to_string() },
        ListTree { name: "b".to_string(), location: "/b".to_string() },
    ];
    let mut list = TreeList::new(items.clone());
    list.select_next();
    assert_eq!(list.state.selected, Some(1));
    list.replace(items);
    assert_eq!(list.state.selected, Some(0));
    list.replace(Vec::new());
    assert_eq!(list.state.selected, None);
    assert!(list.selected().is_none());

    let mut branches = BranchList::new(vec!["main".to_string()]);
    branches.select_next();
    assert_eq!(branches.state.selected, Some(1));
    branches.replace(Vec::new());
    assert_eq!(branches.state.selected, Some(0));
}

#[test]
fn branch_choice_uses_typed_text_on_first_entry() {
    let mut branches = BranchList::new(vec!["main".to_string(), "dev".to_string()]);
    let typed = "topic".to_string();
    assert_eq!(branches.choice(&typed), "topic");
    branches.select_next();
    assert_eq!(branches.choice(&typed), "main");
    branches.select_next();
    assert_eq!(branches.choice(&typed), "dev");
    branches.select_next();
    assert_eq!(branches.choice(&typed), "topic");
}

#[test]
fn text_input_edits_at_cursor() {
    let mut t = TextInput::with_value("abc".to_string());
    assert_eq!(t.cursor, 3);
    t.handle(Edit::GoToPrevChar);
    t.handle(Edit::InsertChar('X'));
    assert_eq!(t.value, "abXc");
    assert_eq!(t.cursor, 3);
    t.handle(Edit::DeletePrevChar);
    assert_eq!(t.value, "abc");
    assert_eq!(t.cursor, 2);
    t.handle(Edit::DeleteNextChar);
    assert_eq!(t.value, "ab");
    t.handle(Edit::GoToNextChar);
    assert_eq!(t.cursor, 2);
    t.reset();
    assert_eq!(t.value, "");
    t.handle(Edit::DeletePrevChar);
    assert_eq!(t.value, "");
    assert_eq!(TextInput::new().cursor, 0);
}

#[test]
fn error_messages() {
    assert_eq!(Error::UncommittedChanges.message(), "Uncommitted changes found in worktree.");
    assert_eq!(Error::Git2Error("bad ref".to_string()).message(), "bad ref");
    assert_eq!(Error::IoError("denied".to_string()).message(), "denied");
}

#[test]
fn quit_key_ends_session() {
    let mut repo = FakeRepo::new();
    let mut app = session(&repo);
    assert_eq!(press(&mut app, &mut repo, Key::Char('q')), Action::Quit);
    assert!(repo.calls.is_empty());
}

#[test]
fn dirty_worktree_is_not_deleted() {
    let mut repo = FakeRepo::new();
    repo.add("wip", "/w/wip");
    repo.dirty.push("/w/wip".to_string());
    let mut app = session(&repo);
    press(&mut app, &mut repo, Key::Char('d'));
    assert_eq!(repo.mutating_calls(), 0);
    assert_eq!(app.logging, vec!["Uncommitted changes found in worktree.".to_string()]);
    assert_eq!(names(&app), vec!["wip".to_string()]);
    assert!(repo.dirs.contains(&"/w/wip".to_string()));
    assert!(app.deleting.is_none());
}

#[test]
fn clean_worktree_is_deleted() {
    let mut repo = FakeRepo::new();
    repo.add("one", "/w/one");
    repo.add("two", "/w/two");
    repo.add("three", "/w/three");
    let mut app = session(&repo);
    press(&mut app, &mut repo, Key::Char('j'));
    press(&mut app, &mut repo, Key::Char('d'));
    assert_eq!(names(&app), vec!["one".to_string(), "three".to_string()]);
    assert!(!repo.dirs.contains(&"/w/two".to_string()));
    assert_eq!(
        repo.calls,
        vec!["find two", "status /w/two", "prune two", "remove /w/two", "worktrees"]
    );
    assert_eq!(app.tree_list.state.selected, Some(0));
    assert!(app.logging.is_empty());
    assert!(app.deleting.is_none());
}

#[test]
fn worktree_without_directory_is_pruned_only() {
    let mut repo = FakeRepo::new();
    repo.add("gone", "/w/gone");
    repo.dirs.clear();
    let mut app = session(&repo);
    press(&mut app, &mut repo, Key::Char('d'));
    assert_eq!(repo.calls, vec!["find gone", "prune gone", "worktrees"]);
    assert!(app.tree_list.items.is_empty());
    assert_eq!(app.tree_list.state.selected, None);
}

#[test]
fn failed_removal_is_logged_and_list_rebuilt() {
    let mut repo = FakeRepo::new();
    repo.add("one", "/w/one");
    let mut app = session(&repo);
    assert_eq!(app.handle_event(Event::Key(Key::Char('d'))), Action::FindWorktree { name: "one".to_string() });
    assert_eq!(
        app.handle_event(Event::Found(Ok(("/w/one".to_string(), true)))),
        Action::CheckStatus { path: "/w/one".to_string() }
    );
    assert_eq!(app.handle_event(Event::Status(Ok(true))), Action::PruneWorktree { name: "one".to_string() });
    assert_eq!(app.handle_event(Event::Pruned(Ok(()))), Action::RemoveDirectory { path: "/w/one".to_string() });
    assert_eq!(
        app.handle_event(Event::Removed(Err(Error::IoError("permission denied".to_string())))),
        Action::ListWorktrees
    );
    assert_eq!(app.logging, vec!["permission denied".to_string()]);
    assert_eq!(app.handle_event(Event::Worktrees(Ok(Vec::new()))), Action::Nothing);
    assert!(app.deleting.is_none());
}

#[test]
fn failed_prune_still_rebuilds() {
    let mut repo = FakeRepo::new();
    repo.add("one", "/w/one");
    let mut app = session(&repo);
    app.handle_event(Event::Key(Key::Char('d')));
    app.handle_event(Event::Found(Ok(("/w/one".to_string(), true))));
    app.handle_event(Event::Status(Ok(true)));
    assert_eq!(
        app.handle_event(Event::Pruned(Err(Error::Git2Error("locked".to_string())))),
        Action::ListWorktrees
    );
    assert_eq!(app.logging, vec!["locked".to_string()]);
}

#[test]
fn status_error_aborts_deletion() {
    let mut repo = FakeRepo::new();
    repo.add("one", "/w/one");
    let mut app = session(&repo);
    app.handle_event(Event::Key(Key::Char('d')));
    app.handle_event(Event::Found(Ok(("/w/one".to_string(), true))));
    assert_eq!(app.handle_event(Event::Status(Err(Error::Git2Error("corrupt".to_string())))), Action::Nothing);
    assert!(app.deleting.is_none());
    assert_eq!(app.logging, vec!["corrupt".to_string()]);
    assert_eq!(app.handle_event(Event::Pruned(Ok(()))), Action::Nothing);
}

#[test]
fn creating_feature_branch_worktree() {
    let mut repo = FakeRepo::new();
    repo.add("main", "/w/main");
    let mut app = session(&repo);
    assert_eq!(app.handle_event(Event::Key(Key::Char('c'))), Action::ListBranches);
    assert_eq!(app.current_screen, CurrentScreen::Creating);
    assert_eq!(app.handle_event(Event::Branches(Ok(vec!["main".to_string()]))), Action::Nothing);
    type_text(&mut app, &mut repo, "feature-x");
    assert_eq!(press(&mut app, &mut repo, Key::Enter), Action::Nothing);
    assert_eq!(app.creating, Some(CurrentlyCreating::Location));
    assert_eq!(app.branch_name, "feature-x");
    assert_eq!(app.worktree_location.value, "../feature-x");
    let before = repo.calls.len();
    press(&mut app, &mut repo, Key::Enter);
    assert_eq!(repo.calls[before..].to_vec(), vec!["create feature-x ../feature-x", "worktrees"]);
    assert_eq!(repo.mutating_calls(), 1);
    assert_eq!(app.current_screen, CurrentScreen::Main);
    assert_eq!(app.creating, None);
    assert!(app.tree_list.items.iter().any(|t| t.location == "../feature-x"));
    assert_eq!(app.branch_name, "");
    assert_eq!(app.worktree_location.value, "");
}

#[test]
fn creating_from_highlighted_branch() {
    let mut repo = FakeRepo::new();
    repo.branches = vec!["main".to_string(), "dev".to_string()];
    let mut app = session(&repo);
    press(&mut app, &mut repo, Key::Char('+'));
    press(&mut app, &mut repo, Key::Down);
    press(&mut app, &mut repo, Key::Down);
    press(&mut app, &mut repo, Key::Enter);
    assert_eq!(app.branch_name, "dev");
    assert_eq!(app.worktree_location.value, "../dev");
}

#[test]
fn cancel_at_location_returns_to_branch() {
    let mut repo = FakeRepo::new();
    let mut app = session(&repo);
    press(&mut app, &mut repo, Key::Char('c'));
    type_text(&mut app, &mut repo, "topic");
    press(&mut app, &mut repo, Key::Enter);
    let calls = repo.calls.len();
    assert_eq!(press(&mut app, &mut repo, Key::Esc), Action::Nothing);
    assert_eq!(repo.calls.len(), calls);
    assert_eq!(app.creating, Some(CurrentlyCreating::Branch));
    assert_eq!(app.current_screen, CurrentScreen::Creating);
    assert_eq!(app.branch_input.value, "topic");
    assert_eq!(app.worktree_location.value, "");
    press(&mut app, &mut repo, Key::Esc);
    assert_eq!(app.current_screen, CurrentScreen::Main);
    assert_eq!(app.creating, None);
    assert_eq!(app.branch_input.value, "");
}

#[test]
fn failed_creation_stays_on_location() {
    let mut repo = FakeRepo::new();
    repo.add("taken", "../taken");
    let mut app = session(&repo);
    press(&mut app, &mut repo, Key::Char('c'));
    type_text(&mut app, &mut repo, "taken");
    press(&mut app, &mut repo, Key::Enter);
    press(&mut app, &mut repo, Key::Enter);
    assert_eq!(app.current_screen, CurrentScreen::Creating);
    assert_eq!(app.creating, Some(CurrentlyCreating::Location));
    assert_eq!(app.branch_name, "taken");
    assert_eq!(app.branch_input.value, "taken");
    assert_eq!(app.worktree_location.value, "../taken");
    assert_eq!(app.logging.len(), 1);
    press(&mut app, &mut repo, Key::Backspace);
    type_text(&mut app, &mut repo, "2");
    press(&mut app, &mut repo, Key::Enter);
    assert_eq!(app.current_screen, CurrentScreen::Main);
    assert_eq!(app.logging.len(), 1);
    assert!(app.tree_list.items.iter().any(|t| t.location == "../take2"));
}

#[test]
fn second_deletion_is_noop() {
    let mut repo = FakeRepo::new();
    repo.add("only", "/w/only");
    let mut app = session(&repo);
    press(&mut app, &mut repo, Key::Char('d'));
    assert!(app.tree_list.items.is_empty());
    let calls = repo.calls.len();
    assert_eq!(press(&mut app, &mut repo, Key::Char('d')), Action::Nothing);
    assert_eq!(repo.calls.len(), calls);
    assert!(app.logging.is_empty());
}

#[test]
fn stale_cursor_deletion_is_noop() {
    let mut repo = FakeRepo::new();
    repo.add("only", "/w/only");
    let mut app = session(&repo);
    app.tree_list.state.selected = Some(5);
    assert_eq!(app.handle_event(Event::Key(Key::Char('d'))), Action::Nothing);
    assert!(app.deleting.is_none());
}

#[test]
fn deleting_externally_removed_worktree_is_logged() {
    let mut repo = FakeRepo::new();
    repo.add("gone", "/w/gone");
    let mut app = session(&repo);
    repo.worktrees.clear();
    press(&mut app, &mut repo, Key::Char('d'));
    assert_eq!(repo.mutating_calls(), 0);
    assert_eq!(app.logging.len(), 1);
    assert!(app.deleting.is_none());
    assert_eq!(names(&app), vec!["gone".to_string()]);
}

#[test]
fn navigation_wraps_in_session() {
    let mut repo = FakeRepo::new();
    repo.add("a", "/a");
    repo.add("b", "/b");
    let mut app = session(&repo);
    press(&mut app, &mut repo, Key::Up);
    assert_eq!(app.tree_list.state.selected, Some(1));
    press(&mut app, &mut repo, Key::Char('j'));
    assert_eq!(app.tree_list.state.selected, Some(0));
    press(&mut app, &mut repo, Key::Char('k'));
    assert_eq!(app.tree_list.state.selected, Some(1));
}

#[test]
fn failed_listing_keeps_list_and_ends_deletion() {
    let mut repo = FakeRepo::new();
    repo.add("one", "/w/one");
    repo.add("two", "/w/two");
    let mut app = session(&repo);
    app.handle_event(Event::Key(Key::Char('d')));
    app.handle_event(Event::Found(Ok(("/w/one".to_string(), false))));
    assert_eq!(app.handle_event(Event::Pruned(Ok(()))), Action::ListWorktrees);
    let err = Error::Git2Error("cannot list".to_string());
    assert_eq!(app.handle_event(Event::Worktrees(Err(err))), Action::Nothing);
    assert!(app.deleting.is_none());
    assert_eq!(names(&app), vec!["one".to_string(), "two".to_string()]);
    assert_eq!(app.logging, vec!["cannot list".to_string()]);
}

#[test]
fn failed_branch_listing_keeps_branches() {
    let mut repo = FakeRepo::new();
    repo.branches = vec!["main".to_string()];
    let mut app = session(&repo);
    app.handle_event(Event::Key(Key::Char('c')));
    assert_eq!(app.branch_list.state.selected, Some(0));
    let err = Error::Git2Error("no refs".to_string());
    assert_eq!(app.handle_event(Event::Branches(Err(err))), Action::Nothing);
    assert_eq!(app.branch_list.items, vec!["main".to_string()]);
    assert_eq!(app.logging, vec!["no refs".to_string()]);
}

#[test]
fn remove_worktree_starts_once() {
    let repo = FakeRepo::new();
    let mut app = session(&repo);
    assert_eq!(
        remove_worktree(&mut app, "old".to_string()),
        Action::FindWorktree { name: "old".to_string() }
    );
    assert_eq!(remove_worktree(&mut app, "other".to_string()), Action::Nothing);
    assert_eq!(app.deleting.as_ref().map(|d| d.name.clone()), Some("old".to_string()));
}
