use savegame_orchestrator::guard::{OperationGuard, OperationKind};
use savegame_orchestrator::log::{display_lines, Outcome, ResultLog};
use savegame_orchestrator::roots::{RootDescriptor, RootRegistry, Store};
use savegame_orchestrator::style::{Button, Container, Rgb};

fn strings(items: &[&str]) -> Vec<String> {
    items.iter().map(|s| s.to_string()).collect()
}

#[test]
fn guard_accepts_exactly_one_start() {
    let mut g = OperationGuard::new();
    assert!(g.is_idle());
    assert!(g.try_start(OperationKind::Restore));
    assert!(!g.try_start(OperationKind::Backup));
    assert_eq!(g.current_kind(), Some(OperationKind::Restore));
    g.finish();
    g.finish();
    assert_eq!(g.current_kind(), None);
    assert!(g.try_start(OperationKind::Backup));
}

#[test]
fn kinds_side_and_effect() {
    assert!(OperationKind::Backup.is_backup_side());
    assert!(OperationKind::PreviewBackup.is_backup_side());
    assert!(!OperationKind::Restore.is_backup_side());
    assert!(OperationKind::Restore.mutates());
    assert!(!OperationKind::PreviewRestore.mutates());
}

#[test]
fn log_drops_empty_outcomes_and_replaces_by_name() {
    let mut log = ResultLog::new();
    log.append("B".to_string(), Outcome::new(vec![], vec![]));
    assert_eq!(log.count(), 0);
    log.append("B".to_string(), Outcome::new(strings(&["b1"]), vec![]));
    log.append("A".to_string(), Outcome::new(vec![], strings(&["k"])));
    log.append("B".to_string(), Outcome::new(strings(&["b2", "b3"]), vec![]));
    assert_eq!(log.count(), 2);
    let i = log.find(&"B".to_string()).unwrap();
    assert_eq!(log.entry(i).sorted_files(), strings(&["b2", "b3"]));
    assert!(log.find(&"C".to_string()).is_none());
    log.clear();
    assert_eq!(log.count(), 0);
}

#[test]
fn log_names_and_lines_are_sorted() {
    let mut log = ResultLog::new();
    log.append("zelda".to_string(), Outcome::new(strings(&["z"]), vec![]));
    log.append("Celeste".to_string(), Outcome::new(strings(&["c/2", "c/1"]), strings(&["HK/b", "HK/a"])));
    log.append("braid".to_string(), Outcome::new(strings(&["b"]), vec![]));
    assert_eq!(log.sorted_names(), strings(&["Celeste", "braid", "zelda"]));
    let i = log.find(&"Celeste".to_string()).unwrap();
    let e = log.entry(i);
    assert_eq!(e.lines(), strings(&["c/1", "c/2", "HK/a", "HK/b"]));
    assert_eq!(e.sorted_registry_keys(), strings(&["HK/a", "HK/b"]));
}

#[test]
fn display_lines_leaves_out_files_without_text() {
    let files = vec![Some("/home/a".to_string()), None, Some("/home/c".to_string())];
    let r = display_lines(&files, &strings(&["key"]));
    assert_eq!(r, strings(&["/home/a", "/home/c", "key"]));
    assert!(display_lines(&vec![], &vec![]).is_empty());
}

#[test]
fn removing_a_root_keeps_the_others_in_order() {
    let mut r = RootRegistry::from_roots(vec![
        RootDescriptor::new("/a".to_string(), Store::Other),
        RootDescriptor::new("/b".to_string(), Store::Steam),
        RootDescriptor::new("/c".to_string(), Store::Other),
    ]);
    r.remove(1);
    assert_eq!(r.len(), 2);
    assert_eq!(r.get(0).path, "/a");
    assert_eq!(r.get(1).path, "/c");
    let snap = r.snapshot();
    assert_eq!(snap.len(), 2);
    assert_eq!(snap[1].path, "/c");
    assert_eq!(snap[1].store, Store::Other);
    r.add_root();
    r.add_root();
    assert_eq!(r.len(), 4);
    assert_eq!(r.get(3).path, "");
}

#[test]
fn style_colours() {
    assert_eq!(Button::Primary.background(), Rgb { r: 28, g: 107, b: 223 });
    assert_eq!(Button::Negative.background(), Rgb { r: 255, g: 0, b: 0 });
    assert_eq!(Button::Disabled.text_color(false), Rgb { r: 0xEE, g: 0xEE, b: 0xEE });
    assert_eq!(Button::Disabled.text_color(true), Rgb { r: 255, g: 255, b: 255 });
    assert_eq!(Button::Navigation.border_radius(), 4);
    assert_eq!(Container::GameListEntryTitle.background(), Some(Rgb { r: 230, g: 230, b: 230 }));
    assert_eq!(Container::GameListEntryBody.background(), None);
    assert_eq!(Container::GameListEntry.border_width(), 1);
    assert_eq!(Container::GameListEntryTitle.border_color(), Rgb { r: 0, g: 0, b: 0 });
    assert_eq!(Container::GameListEntryTitle.border_radius(), 10);
    assert_eq!(Container::GameListEntryBody.border_radius(), 0);
}

#[test]
fn outcome_parts_round_trip() {
    let o = Outcome::new(strings(&["f1", "f2"]), strings(&["k"]));
    assert!(o.is_match());
    let (files, keys) = o.into_parts();
    assert_eq!(files, strings(&["f1", "f2"]));
    assert_eq!(keys, strings(&["k"]));
    assert!(!Outcome::new(vec![], vec![]).is_match());
}
