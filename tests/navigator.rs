use infra_cli::input::{route, Key};
use infra_cli::level::{Entry, Level};
use infra_cli::navigator::{reset_following, ActionKind, Command, Navigator, Step};
use infra_cli::view::project;
use infra_cli::{clamp_index, get_index_of};

fn entry(name: &str) -> Entry {
    Entry::new(name.to_string(), name.to_string(), None)
}

fn entries(names: &[&str]) -> Vec<Entry> {
    names.iter().map(|n| entry(n)).collect()
}

fn titles(n: usize) -> Vec<String> {
    (0..n).map(|i| format!("L{}", i)).collect()
}

fn ids(path: &[Entry]) -> Vec<String> {
    path.iter().map(|e| e.id.clone()).collect()
}

fn two_levels() -> Navigator {
    let mut nav = Navigator::new(titles(2));
    nav.load_base(entries(&["a", "b"]));
    nav
}

/// Runs the lazy-fetch check once against a directory that maps a parent id
/// to its children; returns whether a fetch was made.
fn tick(nav: &mut Navigator, directory: &dyn Fn(usize, &str) -> Option<Vec<Entry>>) -> bool {
    match nav.fetch_request() {
        Some(req) => {
            let parent = req.parents.last().unwrap().id.clone();
            let outcome = directory(req.level, &parent);
            nav.apply_fetch(&req, outcome);
            true
        }
        None => false,
    }
}

fn children(_level: usize, parent: &str) -> Option<Vec<Entry>> {
    Some(entries(&[&format!("{}-1", parent), &format!("{}-2", parent)]))
}

#[test]
fn scenario_lazy_fetch_keyed_on_selection() {
    let mut nav = two_levels();
    assert_eq!(nav.levels[0].selected, Some(0));
    assert_eq!(nav.levels[0].entries[0].id, "a");
    assert!(nav.levels[1].entries.is_empty());
    nav.apply(Command::FocusNext);
    let req = nav.fetch_request().expect("a fetch is due");
    assert_eq!(req.level, 1);
    assert_eq!(ids(&req.parents), vec!["a".to_string()]);
    assert!(tick(&mut nav, &children));
    assert_eq!(ids(&nav.levels[1].entries), vec!["a-1".to_string(), "a-2".to_string()]);
    assert_eq!(nav.levels[1].selected, Some(0));
}

#[test]
fn scenario_move_clears_deeper_level() {
    let mut nav = two_levels();
    nav.apply(Command::FocusNext);
    tick(&mut nav, &children);
    assert_eq!(nav.levels[1].entries.len(), 2);
    nav.apply(Command::FocusPrev);
    nav.apply(Command::MoveDown);
    assert_eq!(nav.levels[0].selected, Some(1));
    assert!(nav.levels[1].entries.is_empty());
    assert_eq!(nav.levels[1].selected, None);
    nav.apply(Command::FocusNext);
    let req = nav.fetch_request().unwrap();
    assert_eq!(ids(&req.parents), vec!["b".to_string()]);
}

#[test]
fn scenario_empty_level_rejects_dispatch() {
    let mut nav = two_levels();
    nav.apply(Command::FocusNext);
    assert!(tick(&mut nav, &|_, _| Some(Vec::new())));
    assert!(nav.levels[1].entries.is_empty());
    let step = nav.apply(Command::Dispatch(ActionKind::Shell));
    assert!(matches!(step, Step::Rejected));
    let vm = project(&nav);
    assert!(vm.empty);
    assert!(vm.items.is_empty());
    assert_eq!(vm.highlighted, None);
    assert!(!vm.can_dispatch);
}

#[test]
fn scenario_failed_fetch_is_retried() {
    let mut nav = two_levels();
    nav.apply(Command::FocusNext);
    assert!(tick(&mut nav, &|_, _| None));
    assert!(nav.levels[1].entries.is_empty());
    assert!(nav.fetch_request().is_some());
    assert!(tick(&mut nav, &children));
    assert_eq!(nav.levels[1].entries.len(), 2);
}

#[test]
fn scenario_four_level_dispatch_path() {
    let mut nav = Navigator::new(titles(4));
    nav.load_base(entries(&["c1"]));
    let directory = |level: usize, _parent: &str| -> Option<Vec<Entry>> {
        let name = ["c1", "s1", "t1", "k1"][level];
        Some(entries(&[name]))
    };
    for _ in 0..3 {
        nav.apply(Command::FocusNext);
        assert!(tick(&mut nav, &directory));
    }
    assert_eq!(nav.focus(), 3);
    match nav.apply(Command::Dispatch(ActionKind::PortForward)) {
        Step::Dispatch(d) => {
            assert_eq!(d.action, ActionKind::PortForward);
            assert_eq!(ids(&d.path), vec!["c1", "s1", "t1", "k1"]);
        }
        _ => panic!("dispatch should succeed"),
    }
}

#[test]
fn fetch_check_twice_makes_one_call() {
    let mut nav = two_levels();
    nav.apply(Command::FocusNext);
    assert!(tick(&mut nav, &children));
    assert!(!tick(&mut nav, &children));
    assert!(nav.fetch_request().is_none());
}

#[test]
fn base_level_is_never_fetched() {
    let nav = Navigator::new(titles(3));
    assert!(nav.fetch_request().is_none());
}

#[test]
fn move_at_top_keeps_deeper_levels() {
    let mut nav = two_levels();
    nav.apply(Command::FocusNext);
    tick(&mut nav, &children);
    nav.apply(Command::FocusPrev);
    nav.apply(Command::MoveUp);
    assert_eq!(nav.levels[0].selected, Some(0));
    assert_eq!(nav.levels[1].entries.len(), 2);
}

#[test]
fn move_down_stops_at_last_entry() {
    let mut nav = two_levels();
    nav.apply(Command::MoveDown);
    nav.apply(Command::MoveDown);
    assert_eq!(nav.levels[0].selected, Some(1));
}

#[test]
fn move_down_at_last_entry_clears_deeper_levels() {
    let mut nav = Navigator::new(titles(2));
    nav.load_base(entries(&["only"]));
    nav.apply(Command::FocusNext);
    tick(&mut nav, &children);
    assert_eq!(nav.levels[1].entries.len(), 2);
    nav.apply(Command::FocusPrev);
    assert!(!nav.move_down());
    assert_eq!(nav.levels[0].selected, Some(0));
    assert!(nav.levels[1].entries.is_empty());
}

#[test]
fn dispatch_hints_follow_deepest_selection() {
    let mut nav = two_levels();
    nav.apply(Command::FocusNext);
    tick(&mut nav, &children);
    nav.apply(Command::FocusPrev);
    let vm = project(&nav);
    assert!(vm.leaf_selected);
    assert!(!vm.can_dispatch);
    nav.apply(Command::MoveDown);
    let vm = project(&nav);
    assert!(!vm.leaf_selected);
}

#[test]
fn moves_on_empty_level_do_nothing() {
    let mut nav = Navigator::new(titles(2));
    nav.apply(Command::MoveDown);
    nav.apply(Command::MoveUp);
    assert_eq!(nav.levels[0].selected, None);
}

#[test]
fn focus_moves_keep_fetched_levels() {
    let mut nav = two_levels();
    nav.apply(Command::FocusNext);
    tick(&mut nav, &children);
    nav.apply(Command::FocusPrev);
    nav.apply(Command::FocusPrev);
    assert_eq!(nav.focus(), 0);
    nav.apply(Command::FocusNext);
    nav.apply(Command::FocusNext);
    assert_eq!(nav.focus(), 1);
    assert_eq!(nav.levels[1].entries.len(), 2);
    assert!(nav.fetch_request().is_none());
}

#[test]
fn dispatch_needs_focus_on_deepest_level() {
    let mut nav = two_levels();
    nav.apply(Command::FocusNext);
    tick(&mut nav, &children);
    nav.apply(Command::FocusPrev);
    assert!(matches!(nav.apply(Command::Dispatch(ActionKind::Shell)), Step::Rejected));
    nav.apply(Command::FocusNext);
    assert!(matches!(nav.apply(Command::Dispatch(ActionKind::Shell)), Step::Dispatch(_)));
}

#[test]
fn quit_ends_session() {
    let mut nav = two_levels();
    assert!(matches!(nav.apply(Command::Quit), Step::Quit));
}

#[test]
fn stale_fetch_result_is_dropped() {
    let mut nav = two_levels();
    nav.apply(Command::FocusNext);
    let req = nav.fetch_request().unwrap();
    nav.apply(Command::FocusPrev);
    nav.apply(Command::MoveDown);
    nav.apply(Command::FocusNext);
    nav.apply_fetch(&req, children(1, "a"));
    assert!(nav.levels[1].entries.is_empty());
}

#[test]
fn reset_following_clears_deeper_levels_only() {
    let mut nav = Navigator::new(titles(3));
    nav.load_base(entries(&["a"]));
    nav.apply(Command::FocusNext);
    tick(&mut nav, &children);
    nav.apply(Command::FocusNext);
    tick(&mut nav, &children);
    assert_eq!(nav.levels[2].entries.len(), 2);
    reset_following(&mut nav, 1);
    assert_eq!(nav.levels[1].entries.len(), 2);
    assert!(nav.levels[2].entries.is_empty());
    assert_eq!(nav.focus(), 2);
}

#[test]
fn level_set_and_clear() {
    let mut level = Level::new("T".to_string());
    level.set(entries(&["x", "y"]));
    assert_eq!(level.selected, Some(0));
    assert_eq!(level.selected_entry().unwrap().name, "x");
    level.clear();
    assert!(level.is_empty());
    assert!(level.selected_entry().is_none());
    assert_eq!(level.title, "T");
}

#[test]
fn projection_shows_selection_summary_and_tabs() {
    let mut nav = two_levels();
    nav.apply(Command::MoveDown);
    let vm = project(&nav);
    assert_eq!(vm.title, "L0");
    assert_eq!(vm.items, vec!["a".to_string(), "b".to_string()]);
    assert_eq!(vm.highlighted, Some(1));
    assert!(!vm.empty);
    assert_eq!(vm.summary.len(), 2);
    assert_eq!(vm.summary[0].value.as_deref(), Some("b"));
    assert_eq!(vm.summary[1].value, None);
    assert_eq!(vm.summary[1].title, "L1");
    assert!(vm.tabs[0].focused);
    assert!(!vm.tabs[1].focused);
}

#[test]
fn keys_route_to_commands() {
    assert_eq!(route(Key::Char('q')), Some(Command::Quit));
    assert_eq!(route(Key::Left), Some(Command::FocusPrev));
    assert_eq!(route(Key::Right), Some(Command::FocusNext));
    assert_eq!(route(Key::Enter), Some(Command::FocusNext));
    assert_eq!(route(Key::Up), Some(Command::MoveUp));
    assert_eq!(route(Key::Down), Some(Command::MoveDown));
    assert_eq!(route(Key::Char('c')), Some(Command::Dispatch(ActionKind::Shell)));
    assert_eq!(route(Key::Char('p')), Some(Command::Dispatch(ActionKind::PortForward)));
    assert_eq!(route(Key::Char('x')), None);
    assert_eq!(route(Key::Other), None);
}

#[test]
fn clamp_index_values() {
    assert_eq!(clamp_index(5, 0), 0);
    assert_eq!(clamp_index(5, 3), 2);
    assert_eq!(clamp_index(1, 3), 1);
}

#[test]
fn get_index_of_finds_first() {
    let v = vec!["x".to_string(), "y".to_string(), "y".to_string()];
    assert_eq!(get_index_of(&v, "y".to_string()), 1);
    assert_eq!(get_index_of(&v, "x".to_string()), 0);
}

#[test]
fn selected_entry_reads_are_total() {
    let nav = two_levels();
    assert_eq!(nav.selected_entry(0).unwrap().id, "a");
    assert!(nav.selected_entry(1).is_none());
    assert!(nav.selected_entry(7).is_none());
}
