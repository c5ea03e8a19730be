//! The home directory and the allow-list of user directories built under it.
use vstd::prelude::*;
use vstd::string::*;

use crate::error::FileError;
use crate::path::{join_path, join_spec, utf8_of};

verus! {

/// Relies on `dirs::home_dir`: the current user's home directory, when the
/// host has one, written out as text (lossily where it is not valid UTF-8).
/// Nothing is promised of the value: it comes from the environment.
#[verifier::external_body]
fn home_dir() -> (r: Option<String>) {
    dirs::home_dir().map(|p| p.to_string_lossy().to_string())
}

/// The names, under the home directory, of the directories that file
/// operations may touch: the English ones and their localised aliases.
pub open spec fn allowed_dir_names() -> Seq<Seq<char>> {
    seq!["Desktop"@, "Documents"@, "Downloads"@, "桌面"@, "文稿"@, "下载"@]
}

/// `dirs` is the allow-list under the home directory `home`: each allowed
/// name joined onto it, in order.
pub open spec fn is_allow_list_under(home: Seq<u8>, dirs: Seq<String>) -> bool {
    &&& dirs.len() == allowed_dir_names().len()
    &&& forall|i: int|
        0 <= i < dirs.len() ==> utf8_of((#[trigger] dirs[i])@) == join_spec(
            home,
            utf8_of(allowed_dir_names()[i]),
        )
}

/// The outcome of asking for the home directory, given what the lookup found.
pub open spec fn home_outcome(found: Option<String>) -> Result<String, FileError> {
    match found {
        Some(h) => Ok(h),
        None => Err(FileError::UnresolvableHome),
    }
}

/// The home directory, or `UnresolvableHome` when the lookup found none.
pub fn home_directory_from(found: Option<String>) -> (r: Result<String, FileError>)
    ensures
        r == home_outcome(found),
{
    match found {
        Some(h) => Ok(h),
        None => Err(FileError::UnresolvableHome),
    }
}

/// The current user's home directory, or the reason it cannot be given.
pub fn get_home_directory() -> (r: Result<String, String>)
    ensures
        r is Err ==> r->Err_0@ == "Cannot determine home directory"@,
{
    match home_directory_from(home_dir()) {
        Ok(h) => Ok(h),
        Err(_) => Err(String::from_str("Cannot determine home directory")),
    }
}

/// The allow-list under `home`: Desktop, Documents, Downloads and their
/// localised aliases, each joined onto `home`.
pub fn safe_directories(home: &str) -> (r: Vec<String>)
    ensures
        is_allow_list_under(utf8_of(home@), r@),
{
    let mut r: Vec<String> = Vec::new();
    r.push(join_path(home, "Desktop"));
    r.push(join_path(home, "Documents"));
    r.push(join_path(home, "Downloads"));
    r.push(join_path(home, "桌面"));
    r.push(join_path(home, "文稿"));
    r.push(join_path(home, "下载"));
    assert(r@.len() == allowed_dir_names().len());
    r
}

/// The allow-list under the current user's home directory, or `None` when
/// the host has no home directory.
pub fn get_safe_directories() -> (r: Option<Vec<String>>)
    ensures
        r is Some ==> exists|home: Seq<u8>| #[trigger] is_allow_list_under(home, r->0@),
{
    match home_dir() {
        Some(h) => {
            let dirs = safe_directories(h.as_str());
            let ghost home = utf8_of(h@);
            assert(is_allow_list_under(home, dirs@));
            let ghost d = dirs@;
            let r = Some(dirs);
            assert(r->0@ == d);
            r
        },
        None => None,
    }
}

} // verus!
