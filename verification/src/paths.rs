//! Default locations of the workspace files, as path strings.
use vstd::prelude::*;

use crate::config::{
    AIA_DIR_NAME, PROVIDERS_FILE_NAME, SESSIONS_DIR_NAME, SESSION_TAPE_FILE_NAME, STORE_FILE_NAME,
};
use crate::text::{chars_of, owned, push_char, push_text};

verus! {

/// `part` adjoined to `base` as a Unix path (the crate targets Unix, where
/// the separator is `/`): an absolute `part` replaces
/// `base`; otherwise a `/` separates them unless `base` is empty or already
/// ends with one.
pub open spec fn joined_path(base: Seq<char>, part: Seq<char>) -> Seq<char> {
    if part.len() > 0 && part[0] == '/' {
        part
    } else if base.len() == 0 || base.last() == '/' {
        base + part
    } else {
        base + seq!['/'] + part
    }
}

/// The parent of a path as `Path::parent` computes it: the path without its
/// final component, or none for a root or an empty path.
pub uninterp spec fn parent_path(path: Seq<char>) -> Option<Seq<char>>;

/// Adjoins `part` to `base`, as `Path::join` does on Unix.
fn join_path(base: &str, part: &str) -> (r: String)
    ensures
        r@ == joined_path(base@, part@),
{
    let p = chars_of(part);
    if p.len() > 0 && p[0] == '/' {
        return owned(part);
    }
    let b = chars_of(base);
    let mut out = owned(base);
    if !(b.len() == 0 || b[b.len() - 1] == '/') {
        push_char(&mut out, '/');
    }
    push_text(&mut out, part);
    out
}

/// The parent of a path.
/// Calls `Path::parent`; the result depends on the path alone and is named `parent_path`.
#[verifier::external_body]
fn path_parent(path: &str) -> (r: Option<String>)
    ensures
        match r {
            Some(p) => parent_path(path@) == Some(p@),
            None => parent_path(path@) is None,
        },
{
    match std::path::Path::new(path).parent() {
        Some(p) => Some(p.to_string_lossy().into_owned()),
        None => None,
    }
}

/// The hidden workspace directory `.aia`.
pub fn aia_dir_path() -> (r: String)
    ensures
        r@ == AIA_DIR_NAME@,
{
    owned(AIA_DIR_NAME)
}

/// `.aia/providers.json`.
pub fn default_registry_path() -> (r: String)
    ensures
        r@ == joined_path(AIA_DIR_NAME@, PROVIDERS_FILE_NAME@),
{
    join_path(AIA_DIR_NAME, PROVIDERS_FILE_NAME)
}

/// `.aia/session.jsonl`.
pub fn default_session_tape_path() -> (r: String)
    ensures
        r@ == joined_path(AIA_DIR_NAME@, SESSION_TAPE_FILE_NAME@),
{
    join_path(AIA_DIR_NAME, SESSION_TAPE_FILE_NAME)
}

/// `.aia/store.sqlite3`.
pub fn default_store_path() -> (r: String)
    ensures
        r@ == joined_path(AIA_DIR_NAME@, STORE_FILE_NAME@),
{
    join_path(AIA_DIR_NAME, STORE_FILE_NAME)
}

/// `.aia/sessions`.
pub fn default_sessions_dir() -> (r: String)
    ensures
        r@ == joined_path(AIA_DIR_NAME@, SESSIONS_DIR_NAME@),
{
    join_path(AIA_DIR_NAME, SESSIONS_DIR_NAME)
}

/// The directory beside a registry file that holds `name`: the registry's
/// parent directory, or `.` when it has none.
pub open spec fn sibling_of_registry(registry_path: Seq<char>, name: Seq<char>) -> Seq<char> {
    match parent_path(registry_path) {
        Some(parent) => joined_path(parent, name),
        None => joined_path(seq!['.'], name),
    }
}

fn sibling_path(registry_path: &str, name: &str) -> (r: String)
    ensures
        r@ == sibling_of_registry(registry_path@, name@),
{
    match path_parent(registry_path) {
        Some(parent) => join_path(parent.as_str(), name),
        None => {
            let dot = "." ;
            proof {
                reveal_strlit(".");
            }
            let r = join_path(dot, name);
            assert(dot@ =~= seq!['.']);
            r
        },
    }
}

/// The sessions directory beside a registry file.
pub fn sessions_dir_from_registry_path(registry_path: &str) -> (r: String)
    ensures
        r@ == sibling_of_registry(registry_path@, SESSIONS_DIR_NAME@),
{
    sibling_path(registry_path, SESSIONS_DIR_NAME)
}

/// The store file beside a registry file.
pub fn store_path_from_registry_path(registry_path: &str) -> (r: String)
    ensures
        r@ == sibling_of_registry(registry_path@, STORE_FILE_NAME@),
{
    sibling_path(registry_path, STORE_FILE_NAME)
}

} // verus!
