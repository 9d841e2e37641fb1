//! Where the node-agent binary is looked for.
//!
//! The binary is expected beside the launcher's own executable. When no file
//! is found there, a fixed path into the development tree is handed out
//! instead, whether or not anything exists at it: creating the process then
//! fails or succeeds on its own account. Only a launcher whose own directory
//! cannot be determined leaves the search without a result.
//!
//! Probing the file system is the embedding program's part: it asks
//! [`adjacent_binary`] which file to probe and hands the answer to
//! [`locate`].

use vstd::prelude::*;
use crate::files::{FilePath, FilePathView};

verus! {

/// The platform the launcher runs on, as far as the binary's name depends on
/// it.
#[derive(Debug, Clone, Copy, PartialEq, Eq)]
pub enum Platform {
    Windows,
    Other,
}

/// File name of the node-agent binary.
pub open spec fn binary_name_on(platform: Platform) -> Seq<char> {
    match platform {
        Platform::Windows => "rhizos-node.exe"@,
        Platform::Other => "rhizos-node"@,
    }
}

/// The binary beside a launcher that lies in `launcher_dir`.
pub open spec fn adjacent_in(launcher_dir: Seq<char>, platform: Platform) -> FilePathView {
    FilePathView { dir: launcher_dir, name: binary_name_on(platform) }
}

/// The binary of the development build. Its directory is relative: it is
/// meant from the working directory of whoever creates the process.
pub open spec fn fallback_on(platform: Platform) -> FilePathView {
    FilePathView { dir: "../node-agent/target/release"@, name: binary_name_on(platform) }
}

/// The outcome of the search for a launcher that lies in `launcher_dir`
/// (`None` when that directory is unknown), with `adjacent_exists` saying
/// whether the file beside the launcher exists.
pub open spec fn located(launcher_dir: Option<Seq<char>>, adjacent_exists: bool, platform: Platform) -> Option<
    FilePathView,
> {
    match launcher_dir {
        Some(dir) => Some(
            if adjacent_exists {
                adjacent_in(dir, platform)
            } else {
                fallback_on(platform)
            },
        ),
        None => None,
    }
}

/// File name of the node-agent binary.
pub fn binary_name(platform: Platform) -> (name: &'static str)
    ensures
        name@ == binary_name_on(platform),
{
    match platform {
        Platform::Windows => "rhizos-node.exe",
        Platform::Other => "rhizos-node",
    }
}

/// The file to probe: the binary beside a launcher that lies in
/// `launcher_dir`.
pub fn adjacent_binary(launcher_dir: &str, platform: Platform) -> (path: FilePath)
    ensures
        path@ == adjacent_in(launcher_dir@, platform),
{
    FilePath { dir: launcher_dir.to_owned(), name: binary_name(platform).to_owned() }
}

/// The binary of the development build.
pub fn fallback_binary(platform: Platform) -> (path: FilePath)
    ensures
        path@ == fallback_on(platform),
{
    FilePath { dir: "../node-agent/target/release".to_owned(), name: binary_name(platform).to_owned() }
}

/// The search. `launcher_dir` is the directory of the running launcher's
/// executable, `None` when it cannot be determined; `adjacent_exists` says
/// whether a file exists at [`adjacent_binary`] of that directory. The
/// result is the file beside the launcher when it exists and the development
/// build otherwise, and `None` exactly when the launcher's directory is
/// unknown. Nothing else enters it: not the working directory, and not
/// whether anything exists at the development build's path.
pub fn locate(launcher_dir: Option<String>, adjacent_exists: bool, platform: Platform) -> (binary: Option<
    FilePath,
>)
    ensures
        binary.deep_view() == located(launcher_dir.deep_view(), adjacent_exists, platform),
        launcher_dir is Some && adjacent_exists ==> binary is Some && binary->Some_0@ == (FilePathView {
            dir: launcher_dir->Some_0@,
            name: binary_name_on(platform),
        }),
        launcher_dir is Some && !adjacent_exists ==> binary is Some && binary->Some_0@ == (FilePathView {
            dir: "../node-agent/target/release"@,
            name: binary_name_on(platform),
        }),
        launcher_dir is None ==> binary is None,
{
    match launcher_dir {
        None => None,
        Some(dir) => if adjacent_exists {
            Some(adjacent_binary(dir.as_str(), platform))
        } else {
            Some(fallback_binary(platform))
        },
    }
}

} // verus!
