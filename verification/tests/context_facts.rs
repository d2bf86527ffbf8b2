//! Context facts are best-effort, and the path logic they rest on.

use odx::context::{path_from_repository_root, repository_root, shell_file_name, ContextFacts};
use odx::events::{Event, EventLog};
use odx::transaction::UnitOfWork;

#[test]
fn shell_file_name_takes_last_component() {
    assert_eq!(shell_file_name("/usr/bin/zsh"), Some(String::from("zsh")));
    assert_eq!(shell_file_name("bash"), Some(String::from("bash")));
    assert_eq!(shell_file_name("/usr/bin/fish/"), Some(String::from("fish")));
}

#[test]
fn shell_file_name_rejects_paths_without_a_file_name() {
    assert_eq!(shell_file_name(""), None);
    assert_eq!(shell_file_name("/"), None);
    assert_eq!(shell_file_name("///"), None);
    assert_eq!(shell_file_name("/usr/bin/.."), None);
    assert_eq!(shell_file_name("."), None);
}

#[test]
fn missing_shell_path_is_not_an_error() {
    let mut log = EventLog::new();
    let facts = ContextFacts { user: None, shell_path: None, commit: None };
    let txn = UnitOfWork::new(String::from("build"), &facts, &mut log);
    assert_eq!(log.len(), 1);
    assert_eq!(log.get(0), &Event::Initialized { name: String::from("build") });
    txn.pass(&mut log);
    assert_eq!(log.get(1), &Event::Succeeded { name: String::from("build") });
}

#[test]
fn directory_shell_path_yields_diagnostic_but_completes() {
    let mut log = EventLog::new();
    let facts = ContextFacts {
        user: Some(String::from("someone")),
        shell_path: Some(String::from("/")),
        commit: None,
    };
    let txn = UnitOfWork::new(String::from("build"), &facts, &mut log);
    assert_eq!(log.len(), 2);
    assert_eq!(log.get(0), &Event::ShellPathInvalid);
    assert_eq!(log.get(1), &Event::Initialized { name: String::from("build") });
    txn.pass(&mut log);
    assert_eq!(log.len(), 3);
    assert_eq!(log.get(2), &Event::Succeeded { name: String::from("build") });
}

#[test]
fn repository_root_finds_deepest_marked_ancestor() {
    let path = vec![String::from("work"), String::from("tool"), String::from("sub")];
    let has_git = vec![false, true, true, false];
    assert_eq!(repository_root(&path, &has_git), Some(2));
    let rel = path_from_repository_root(&path, &has_git);
    assert_eq!(rel, Some(vec![String::from("sub")]));
}

#[test]
fn repository_root_without_marker_is_none() {
    let path = vec![String::from("a"), String::from("b")];
    let has_git = vec![false, false, false];
    assert_eq!(repository_root(&path, &has_git), None);
    assert_eq!(path_from_repository_root(&path, &has_git), None);
}

#[test]
fn repository_root_at_the_path_itself() {
    let path = vec![String::from("repo")];
    let has_git = vec![true, true];
    assert_eq!(repository_root(&path, &has_git), Some(1));
    assert_eq!(path_from_repository_root(&path, &has_git), Some(Vec::new()));
}
