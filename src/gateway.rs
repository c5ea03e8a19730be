//! The file operations: each one is validated first, and what it may then do
//! is decided from the state of its target on disk.
use vstd::prelude::*;
use vstd::string::*;

use crate::error::FileError;
use crate::validate::{validation, Resolution};

verus! {

/// A file operation offered to the caller.
#[derive(Debug, Clone, Copy, PartialEq, Eq, Structural)]
pub enum Operation {
    List,
    Create,
    Read,
    Delete,
}

/// What was observed of an operation's target on disk.
#[derive(Debug, Clone, Copy, PartialEq, Eq, Structural)]
pub struct TargetState {
    /// The path exists.
    pub exists: bool,
    /// The path is a directory.
    pub is_dir: bool,
    /// The path's parent directory exists.
    pub parent_exists: bool,
}

/// The filesystem work an accepted operation goes on to do.
#[derive(Debug, Clone, Copy, PartialEq, Eq, Structural)]
pub enum Action {
    /// Read the names of the directory's immediate entries.
    ListEntries,
    /// Write the content, truncating any existing file; first create the
    /// missing parent directories when `create_parents` holds.
    Write { create_parents: bool },
    /// Read the whole file as text.
    ReadContent,
    /// Remove the single file.
    RemoveFile,
}

/// What `op` may do given the validation outcome and the target's state.
/// Nothing is done unless validation accepted; directories are never removed.
pub open spec fn plan_of(op: Operation, validation: Result<(), FileError>, t: TargetState) -> Result<
    Action,
    FileError,
> {
    match validation {
        Err(e) => Err(e),
        Ok(()) => match op {
            Operation::List => if t.exists {
                Ok(Action::ListEntries)
            } else {
                Err(FileError::DirectoryNotFound)
            },
            Operation::Create => Ok(Action::Write { create_parents: !t.parent_exists }),
            Operation::Read => if t.exists {
                Ok(Action::ReadContent)
            } else {
                Err(FileError::FileNotFound)
            },
            Operation::Delete => if !t.exists {
                Err(FileError::FileNotFound)
            } else if t.is_dir {
                Err(FileError::IsADirectory)
            } else {
                Ok(Action::RemoveFile)
            },
        },
    }
}

/// Decides what `op` does next, from the validation outcome and the state of
/// its target.
pub fn plan(op: Operation, validation: Result<(), FileError>, target: TargetState) -> (r: Result<
    Action,
    FileError,
>)
    ensures
        r == plan_of(op, validation, target),
{
    match validation {
        Err(e) => Err(e),
        Ok(()) => match op {
            Operation::List => if target.exists {
                Ok(Action::ListEntries)
            } else {
                Err(FileError::DirectoryNotFound)
            },
            Operation::Create => Ok(Action::Write { create_parents: !target.parent_exists }),
            Operation::Read => if target.exists {
                Ok(Action::ReadContent)
            } else {
                Err(FileError::FileNotFound)
            },
            Operation::Delete => if !target.exists {
                Err(FileError::FileNotFound)
            } else if target.is_dir {
                Err(FileError::IsADirectory)
            } else {
                Ok(Action::RemoveFile)
            },
        },
    }
}

/// The names that could be read as text, in order; the others are dropped.
pub open spec fn decoded_names(entries: Seq<Option<String>>) -> Seq<String>
    decreases entries.len(),
{
    if entries.len() == 0 {
        Seq::empty()
    } else {
        let rest = decoded_names(entries.drop_last());
        match entries.last() {
            Some(n) => rest.push(n),
            None => rest,
        }
    }
}

/// The entry names of a listing: each name that could be read as text, in
/// the order given; entries whose names could not (`None`) are skipped.
pub fn entry_names(entries: &Vec<Option<String>>) -> (r: Vec<String>)
    ensures
        r@ == decoded_names(entries@),
{
    let mut r: Vec<String> = Vec::new();
    let mut i: usize = 0;
    while i < entries.len()
        invariant
            i <= entries@.len(),
            r@ == decoded_names(entries@.subrange(0, i as int)),
        decreases entries@.len() - i,
    {
        assert(entries@.subrange(0, i as int) =~= entries@.subrange(0, i + 1).drop_last());
        match &entries[i] {
            Some(name) => r.push(name.clone()),
            None => {},
        }
        i = i + 1;
    }
    assert(entries@.subrange(0, i as int) =~= entries@);
    r
}

/// The confirmation of a successful create.
pub fn created_message(path: &str) -> (r: String)
    ensures
        r@ == "File created successfully: "@ + path@,
{
    let mut r = String::from_str("File created successfully: ");
    r.append(path);
    r
}

/// The confirmation of a successful delete.
pub fn deleted_message(path: &str) -> (r: String)
    ensures
        r@ == "File deleted successfully: "@ + path@,
{
    let mut r = String::from_str("File deleted successfully: ");
    r.append(path);
    r
}

/// A directory is never deleted: once validation accepts an existing
/// directory, deleting it fails with `IsADirectory`, and no validation
/// outcome leads to removing it.
pub proof fn lemma_directory_never_deleted(validation: Result<(), FileError>, t: TargetState)
    requires
        t.is_dir,
    ensures
        plan_of(Operation::Delete, validation, t) != Ok::<Action, FileError>(Action::RemoveFile),
        validation is Ok && t.exists ==> plan_of(Operation::Delete, validation, t) == Err::<
            Action,
            FileError,
        >(FileError::IsADirectory),
{
}

/// Listing an accepted path that does not exist fails with
/// `DirectoryNotFound`; an existing one goes on to read its entries, and an
/// empty directory lists no names.
pub proof fn lemma_listing_outcomes(validation: Result<(), FileError>, t: TargetState)
    requires
        validation is Ok,
    ensures
        !t.exists ==> plan_of(Operation::List, validation, t) == Err::<Action, FileError>(
            FileError::DirectoryNotFound,
        ),
        t.exists ==> plan_of(Operation::List, validation, t) == Ok::<Action, FileError>(
            Action::ListEntries,
        ),
        decoded_names(Seq::empty()) == Seq::<String>::empty(),
{
}

/// Creating a file whose parent directory is missing fails with
/// `MissingParent`, whatever lies above that parent.
pub proof fn lemma_create_needs_parent(
    parent: String,
    allowed: Option<Vec<Option<String>>>,
    t: TargetState,
)
    ensures
        plan_of(Operation::Create, validation(Resolution::ParentMissing(parent), allowed), t)
            == Err::<Action, FileError>(FileError::MissingParent(parent)),
{
}

} // verus!
