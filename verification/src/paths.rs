//! Where the tool keeps its files, relative to the directory it was started
//! in. A path is the sequence of its components.
//!
//! The tool may be started in the project's root or in its `cli`
//! subdirectory; both give the same files.

use vstd::prelude::*;
use crate::text::{copy_prefix, copy_strings, push_str_copy, str_eq};

verus! {

/// Whether the directory is one named `cli`.
pub open spec fn in_cli_dir(cwd: Seq<Seq<char>>) -> bool {
    cwd.len() > 0 && cwd.last() == "cli"@
}

/// The project's root: the parent of a `cli` directory, else the directory
/// itself.
pub open spec fn project_root(cwd: Seq<Seq<char>>) -> Seq<Seq<char>> {
    if in_cli_dir(cwd) {
        cwd.drop_last()
    } else {
        cwd
    }
}

/// The `cli` directory: the directory itself where it is one, else its
/// child of that name.
pub open spec fn cli_dir(cwd: Seq<Seq<char>>) -> Seq<Seq<char>> {
    if in_cli_dir(cwd) {
        cwd
    } else {
        cwd.push("cli"@)
    }
}

/// The worker's entry point, `core/src/index.ts` under the project's root.
pub open spec fn worker_entry(cwd: Seq<Seq<char>>) -> Seq<Seq<char>> {
    project_root(cwd).push("core"@).push("src"@).push("index.ts"@)
}

/// The plaintext file in which earlier versions kept the refresh token.
pub open spec fn legacy_token_file(cwd: Seq<Seq<char>>) -> Seq<Seq<char>> {
    cli_dir(cwd).push(".o365_cli_token"@)
}

/// The file that holds the user's profile.
pub open spec fn profile_file(cwd: Seq<Seq<char>>) -> Seq<Seq<char>> {
    cli_dir(cwd).push(".o365_cli_profile.json"@)
}

/// Started in the root or in its `cli` subdirectory, the tool finds the
/// same worker, the same legacy token file and the same profile.
pub proof fn lemma_same_files_from_either_directory(root: Seq<Seq<char>>)
    requires
        !in_cli_dir(root),
    ensures
        worker_entry(root.push("cli"@)) == worker_entry(root),
        legacy_token_file(root.push("cli"@)) == legacy_token_file(root),
        profile_file(root.push("cli"@)) == profile_file(root),
{
    let sub = root.push("cli"@);
    assert(sub.last() == "cli"@);
    assert(sub.drop_last() =~= root);
}

/// Decides `in_cli_dir`.
pub fn is_cli_dir(cwd: &Vec<String>) -> (r: bool)
    ensures
        r == in_cli_dir(cwd.deep_view()),
{
    cwd.len() > 0 && str_eq(cwd[cwd.len() - 1].as_str(), "cli")
}

/// Computes `project_root`.
pub fn get_project_root(cwd: &Vec<String>) -> (r: Vec<String>)
    ensures
        r.deep_view() == project_root(cwd.deep_view()),
{
    if is_cli_dir(cwd) {
        let r = copy_prefix(cwd, cwd.len() - 1);
        proof {
            assert(cwd.deep_view().take(cwd.len() - 1) =~= cwd.deep_view().drop_last());
        }
        r
    } else {
        copy_strings(cwd)
    }
}

/// Computes `cli_dir`.
pub fn get_cli_dir(cwd: &Vec<String>) -> (r: Vec<String>)
    ensures
        r.deep_view() == cli_dir(cwd.deep_view()),
{
    let mut r = copy_strings(cwd);
    if !is_cli_dir(cwd) {
        push_str_copy(&mut r, "cli");
    }
    r
}

/// Computes `worker_entry`.
pub fn get_worker_entry(cwd: &Vec<String>) -> (r: Vec<String>)
    ensures
        r.deep_view() == worker_entry(cwd.deep_view()),
{
    let mut r = get_project_root(cwd);
    push_str_copy(&mut r, "core");
    push_str_copy(&mut r, "src");
    push_str_copy(&mut r, "index.ts");
    r
}

/// Computes `legacy_token_file`.
pub fn get_legacy_cache_path(cwd: &Vec<String>) -> (r: Vec<String>)
    ensures
        r.deep_view() == legacy_token_file(cwd.deep_view()),
{
    let mut r = get_cli_dir(cwd);
    push_str_copy(&mut r, ".o365_cli_token");
    r
}

/// Computes `profile_file`.
pub fn get_profile_path(cwd: &Vec<String>) -> (r: Vec<String>)
    ensures
        r.deep_view() == profile_file(cwd.deep_view()),
{
    let mut r = get_cli_dir(cwd);
    push_str_copy(&mut r, ".o365_cli_profile.json");
    r
}

} // verus!
