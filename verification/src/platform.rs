//! The platform resolver: which architectures are supported, and where the
//! server is found on each operating system.

use crate::error::{ErrorKind, InitError, InitErrorView};
use crate::text::{join_texts, outcome, same_text};
use vstd::prelude::*;

verus! {

/// The one architecture that is supported.
pub const SUPPORTED_ARCHITECTURE: &'static str = "x86_64";

/// The operating system on which the server comes with the release.
pub const WINDOWS: &'static str = "windows";

/// Where the server is expected on every other operating system.
pub const FALLBACK_SERVER_PATH: &'static str = "/opt/homebrew/bin/ucm";

/// What is wrong with the host's report of its architecture, if anything:
/// all but a report of the supported architecture is an error.
pub open spec fn architecture_error(report: Result<Seq<char>, Seq<char>>) -> Option<
    InitErrorView,
> {
    match report {
        Ok(name) => if name == SUPPORTED_ARCHITECTURE@ {
            None
        } else {
            Some(
                InitErrorView {
                    kind: ErrorKind::Platform,
                    message: "Unsupported ARCH: "@ + name,
                },
            )
        },
        Err(cause) => Some(
            InitErrorView { kind: ErrorKind::Platform, message: "Error ARCH: "@ + cause },
        ),
    }
}

/// The directory in which release `version` keeps its executables.
pub open spec fn release_directory(version: Seq<char>) -> Seq<char> {
    "ucm_"@ + version + "/bin"@
}

/// The server of release `version` on Windows.
pub open spec fn windows_server_path(version: Seq<char>) -> Seq<char> {
    release_directory(version) + "/ucm.exe"@
}

/// The path of the server for the host's report of its operating system.
/// Only on Windows does it depend on the version: for every other report,
/// a failed one too, it is the fallback path.
pub open spec fn effective_server_path(
    version: Seq<char>,
    report: Result<Seq<char>, Seq<char>>,
) -> Seq<char> {
    if report == Ok::<Seq<char>, Seq<char>>(WINDOWS@) {
        windows_server_path(version)
    } else {
        FALLBACK_SERVER_PATH@
    }
}

/// The path of the server on Windows ends in the name of the executable,
/// whatever the version.
pub proof fn lemma_windows_server_path_ends_in_executable(version: Seq<char>)
    ensures
        windows_server_path(version).len() >= "ucm.exe"@.len(),
        windows_server_path(version).skip(
            windows_server_path(version).len() - "ucm.exe"@.len(),
        ) == "ucm.exe"@,
{
    reveal_strlit("ucm.exe");
    reveal_strlit("/ucm.exe");
    let path = windows_server_path(version);
    assert(path.skip(path.len() - 7) =~= "ucm.exe"@);
}

/// On Windows the path of the server ends in the name of the executable;
/// for every other report of the operating system it is the fallback path,
/// whatever the version.
pub proof fn lemma_server_path_by_system(version: Seq<char>, report: Result<Seq<char>, Seq<char>>)
    ensures
        report == Ok::<Seq<char>, Seq<char>>(WINDOWS@) ==> {
            let path = effective_server_path(version, report);
            &&& path == release_directory(version) + "/ucm.exe"@
            &&& path.len() >= "ucm.exe"@.len()
            &&& path.skip(path.len() - "ucm.exe"@.len()) == "ucm.exe"@
        },
        report != Ok::<Seq<char>, Seq<char>>(WINDOWS@) ==> effective_server_path(version, report)
            == FALLBACK_SERVER_PATH@,
{
    lemma_windows_server_path_ends_in_executable(version);
}

/// Checks the host's report of its architecture.
pub fn check_architecture(report: &Result<String, String>) -> (r: Result<(), InitError>)
    ensures
        match r {
            Ok(_) => architecture_error(outcome(*report)) is None,
            Err(e) => architecture_error(outcome(*report)) == Some(e@),
        },
{
    match report {
        Ok(name) => {
            if same_text(name.as_str(), SUPPORTED_ARCHITECTURE) {
                Ok(())
            } else {
                Err(
                    InitError {
                        kind: ErrorKind::Platform,
                        message: join_texts("Unsupported ARCH: ", name.as_str()),
                    },
                )
            }
        },
        Err(cause) => Err(
            InitError {
                kind: ErrorKind::Platform,
                message: join_texts("Error ARCH: ", cause.as_str()),
            },
        ),
    }
}

/// The path of the server for release `version` and the host's report of
/// its operating system.
pub fn server_path(version: &str, report: &Result<String, String>) -> (path: String)
    ensures
        path@ == effective_server_path(version@, outcome(*report)),
{
    let windows = match report {
        Ok(name) => same_text(name.as_str(), WINDOWS),
        Err(_) => false,
    };
    if windows {
        let mut path = join_texts("ucm_", version);
        path.append("/bin");
        path.append("/ucm.exe");
        path
    } else {
        FALLBACK_SERVER_PATH.to_owned()
    }
}

} // verus!
