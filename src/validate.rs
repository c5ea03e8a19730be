//! The path-safety decision: a candidate path is accepted only when its
//! canonical form lies under one of the allowed directories that resolved.
use vstd::prelude::*;

use crate::error::FileError;
use crate::path::{is_within, join_path, join_spec, path_starts_with, utf8_of, SEPARATOR};

verus! {

/// What resolving a candidate path on disk gave.
#[derive(Debug, Clone)]
pub enum Resolution {
    /// The path exists; its canonical form.
    Existing(String),
    /// The path, or its parent, exists but could not be canonicalised; the reason.
    Unresolvable(String),
    /// The path does not exist and has no parent component.
    NoParent,
    /// The path does not exist, nor does its parent (given as written).
    ParentMissing(String),
    /// The path does not exist; its parent does and canonicalised to `parent`.
    /// `name` is the path's final component, if it has one.
    InParent { parent: String, name: Option<String> },
}

/// The canonical form a resolution stands for, when it has one: the resolved
/// path itself, or the canonical parent with the final component put back.
pub open spec fn candidate_of(res: Resolution) -> Option<Seq<u8>> {
    match res {
        Resolution::Existing(c) => Some(utf8_of(c@)),
        Resolution::InParent { parent, name } => match name {
            Some(n) => Some(join_spec(utf8_of(parent@), utf8_of(n@))),
            None => None,
        },
        _ => None,
    }
}

/// Some resolved entry of the allow-list is `candidate` or an ancestor of it.
/// Entries that did not resolve (`None`) match nothing.
pub open spec fn admitted_by(candidate: Seq<u8>, entries: Seq<Option<String>>) -> bool {
    exists|i: int|
        0 <= i < entries.len() && (#[trigger] entries[i]) is Some && is_within(
            candidate,
            utf8_of(entries[i]->0@),
        )
}

/// The verdict on a canonical candidate. `allowed` is `None` when the home
/// directory could not be determined, else the allow-list entries as resolved.
pub open spec fn verdict(candidate: Seq<u8>, allowed: Option<Vec<Option<String>>>) -> Result<
    (),
    FileError,
> {
    match allowed {
        None => Err(FileError::UnresolvableHome),
        Some(entries) => if admitted_by(candidate, entries@) {
            Ok(())
        } else {
            Err(FileError::OutsideAllowlist)
        },
    }
}

/// The outcome of validating a path that resolved as `res`.
pub open spec fn validation(res: Resolution, allowed: Option<Vec<Option<String>>>) -> Result<
    (),
    FileError,
> {
    match res {
        Resolution::Unresolvable(reason) => Err(FileError::Unresolvable(reason)),
        Resolution::NoParent => Err(FileError::InvalidPath),
        Resolution::ParentMissing(parent) => Err(FileError::MissingParent(parent)),
        Resolution::InParent { parent, name: None } => Err(FileError::InvalidFileName),
        _ => verdict(candidate_of(res)->0, allowed),
    }
}

/// Whether some resolved entry of `entries` is `candidate` or an ancestor of it.
pub fn is_allowed(candidate: &str, entries: &Vec<Option<String>>) -> (r: bool)
    ensures
        r == admitted_by(utf8_of(candidate@), entries@),
{
    let mut i: usize = 0;
    while i < entries.len()
        invariant
            i <= entries@.len(),
            forall|j: int|
                0 <= j < i ==> !((#[trigger] entries@[j]) is Some && is_within(
                    utf8_of(candidate@),
                    utf8_of(entries@[j]->0@),
                )),
        decreases entries@.len() - i,
    {
        match &entries[i] {
            Some(dir) => {
                if path_starts_with(candidate, dir.as_str()) {
                    assert(entries@[i as int] is Some);
                    return true;
                }
            },
            None => {},
        }
        i = i + 1;
    }
    false
}

fn verdict_on(candidate: &str, allowed: &Option<Vec<Option<String>>>) -> (r: Result<(), FileError>)
    ensures
        r == verdict(utf8_of(candidate@), *allowed),
{
    match allowed {
        None => Err(FileError::UnresolvableHome),
        Some(entries) => if is_allowed(candidate, entries) {
            Ok(())
        } else {
            Err(FileError::OutsideAllowlist)
        },
    }
}

/// Accepts a path that resolved as `resolution` when its canonical form lies
/// under a resolved entry of the allow-list; otherwise says why not.
pub fn validate_path_safety(resolution: &Resolution, allowed: &Option<Vec<Option<String>>>) -> (r:
    Result<(), FileError>)
    ensures
        r == validation(*resolution, *allowed),
{
    match resolution {
        Resolution::Existing(canonical) => verdict_on(canonical.as_str(), allowed),
        Resolution::Unresolvable(reason) => Err(FileError::Unresolvable(reason.clone())),
        Resolution::NoParent => Err(FileError::InvalidPath),
        Resolution::ParentMissing(parent) => Err(FileError::MissingParent(parent.clone())),
        Resolution::InParent { parent, name } => match name {
            None => Err(FileError::InvalidFileName),
            Some(n) => {
                let candidate = join_path(parent.as_str(), n.as_str());
                verdict_on(candidate.as_str(), allowed)
            },
        },
    }
}

/// A path strictly inside an allowed directory that resolved is accepted:
/// whatever else the allow-list holds, a candidate that is such a directory
/// with one or more relative components joined on passes validation.
pub proof fn lemma_inside_allowed_dir_accepted(
    res: Resolution,
    entries: Vec<Option<String>>,
    i: int,
    rest: Seq<u8>,
)
    requires
        0 <= i < entries@.len(),
        entries@[i] is Some,
        utf8_of(entries@[i]->0@).len() > 0,
        rest.len() > 0,
        rest[0] != SEPARATOR,
        candidate_of(res) == Some(join_spec(utf8_of(entries@[i]->0@), rest)),
    ensures
        validation(res, Some(entries)) == Ok::<(), FileError>(()),
{
    let d = utf8_of(entries@[i]->0@);
    let c = join_spec(d, rest);
    if d.last() == SEPARATOR {
        assert(c.subrange(0, d.len() as int) =~= d);
    } else {
        assert(c.subrange(0, d.len() as int) =~= d);
        assert(c[d.len() as int] == SEPARATOR);
    }
    assert(is_within(c, d));
    assert(admitted_by(c, entries@));
}

/// A path under none of the resolved allowed directories is refused.
pub proof fn lemma_outside_all_refused(res: Resolution, entries: Vec<Option<String>>)
    requires
        candidate_of(res) is Some,
        forall|i: int|
            0 <= i < entries@.len() && (#[trigger] entries@[i]) is Some ==> !is_within(
                candidate_of(res)->0,
                utf8_of(entries@[i]->0@),
            ),
    ensures
        validation(res, Some(entries)) == Err::<(), FileError>(FileError::OutsideAllowlist),
{
}

/// A sibling whose name merely starts with an allowed directory's name is not
/// inside it: `/home/u/DocumentsArchive` is not under `/home/u/Documents`.
pub proof fn lemma_name_prefix_sibling_outside(base: Seq<u8>, suffix: Seq<u8>)
    requires
        base.len() > 0,
        base.last() != SEPARATOR,
        suffix.len() > 0,
        suffix[0] != SEPARATOR,
    ensures
        !is_within(base + suffix, base),
{
    assert((base + suffix)[base.len() as int] == suffix[0]);
}

} // verus!
