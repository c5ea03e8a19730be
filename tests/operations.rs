use desktop_bridge::display::{brightness_target, reported_brightness};
use desktop_bridge::error::FileError;
use desktop_bridge::gateway::{
    created_message, deleted_message, entry_names, plan, Action, Operation, TargetState,
};
use desktop_bridge::validate::{validate_path_safety, Resolution};

fn state(exists: bool, is_dir: bool, parent_exists: bool) -> TargetState {
    TargetState { exists, is_dir, parent_exists }
}

fn allow_list() -> Option<Vec<Option<String>>> {
    Some(vec![Some("/home/u/Documents".to_string())])
}

#[test]
fn delete_of_directory_fails() {
    let r = Resolution::Existing("/home/u/Documents/sub".to_string());
    let v = validate_path_safety(&r, &allow_list());
    assert_eq!(v, Ok(()));
    assert_eq!(plan(Operation::Delete, v, state(true, true, true)), Err(FileError::IsADirectory));
}

#[test]
fn delete_of_file() {
    assert_eq!(plan(Operation::Delete, Ok(()), state(true, false, true)), Ok(Action::RemoveFile));
    assert_eq!(plan(Operation::Delete, Ok(()), state(false, false, true)), Err(FileError::FileNotFound));
}

#[test]
fn refused_validation_stops_every_operation() {
    for op in [Operation::List, Operation::Create, Operation::Read, Operation::Delete] {
        assert_eq!(
            plan(op, Err(FileError::OutsideAllowlist), state(true, false, true)),
            Err(FileError::OutsideAllowlist)
        );
    }
}

#[test]
fn create_writes_and_creates_missing_parents() {
    assert_eq!(
        plan(Operation::Create, Ok(()), state(false, false, true)),
        Ok(Action::Write { create_parents: false })
    );
    assert_eq!(
        plan(Operation::Create, Ok(()), state(true, false, true)),
        Ok(Action::Write { create_parents: false })
    );
    assert_eq!(
        plan(Operation::Create, Ok(()), state(false, false, false)),
        Ok(Action::Write { create_parents: true })
    );
}

#[test]
fn create_under_missing_parent_and_grandparent_fails() {
    let r = Resolution::ParentMissing("/home/u/Documents/a/b".to_string());
    let v = validate_path_safety(&r, &allow_list());
    assert_eq!(
        plan(Operation::Create, v, state(false, false, false)),
        Err(FileError::MissingParent("/home/u/Documents/a/b".to_string()))
    );
}

#[test]
fn create_under_missing_parent_with_allowed_grandparent_fails() {
    let r = Resolution::ParentMissing("/home/u/Documents/newdir".to_string());
    let v = validate_path_safety(&r, &allow_list());
    assert_eq!(
        plan(Operation::Create, v, state(false, false, false)),
        Err(FileError::MissingParent("/home/u/Documents/newdir".to_string()))
    );
}

#[test]
fn read_needs_existing_file() {
    assert_eq!(plan(Operation::Read, Ok(()), state(true, false, true)), Ok(Action::ReadContent));
    assert_eq!(plan(Operation::Read, Ok(()), state(false, false, true)), Err(FileError::FileNotFound));
}

#[test]
fn list_of_missing_directory_fails() {
    let r = Resolution::InParent {
        parent: "/home/u/Documents".to_string(),
        name: Some("nothing_here".to_string()),
    };
    let v = validate_path_safety(&r, &allow_list());
    assert_eq!(plan(Operation::List, v, state(false, false, true)), Err(FileError::DirectoryNotFound));
}

#[test]
fn list_of_existing_directory() {
    assert_eq!(plan(Operation::List, Ok(()), state(true, true, true)), Ok(Action::ListEntries));
}

#[test]
fn empty_directory_lists_nothing() {
    assert_eq!(entry_names(&vec![]), Vec::<String>::new());
}

#[test]
fn undecodable_names_are_dropped() {
    let entries = vec![Some("a.txt".to_string()), None, Some("b".to_string()), None];
    assert_eq!(entry_names(&entries), vec!["a.txt".to_string(), "b".to_string()]);
}

#[test]
fn confirmations() {
    assert_eq!(created_message("/home/u/Documents/a.txt"), "File created successfully: /home/u/Documents/a.txt");
    assert_eq!(deleted_message("/home/u/Documents/a.txt"), "File deleted successfully: /home/u/Documents/a.txt");
}

#[test]
fn brightness_is_capped() {
    assert_eq!(brightness_target(0), 0);
    assert_eq!(brightness_target(42), 42);
    assert_eq!(brightness_target(100), 100);
    assert_eq!(brightness_target(255), 100);
}

#[test]
fn brightness_report() {
    assert_eq!(reported_brightness(&vec![]), 50);
    assert_eq!(reported_brightness(&vec![30, 80]), 30);
}
