//! Locating the transcription backend's interpreter and directory.
//!
//! The sidecar process itself — spawning, killing, line-delimited JSON over
//! its pipes — is plain process plumbing and lives in the unverified shell.
//! What is decided here is the search policy: which interpreter a session of
//! the backend should use, and how an explicit backend-directory override is
//! judged.  The two probes into the machine's state (does a path exist, is a
//! command on `PATH`) promise nothing about their answers; the policy is
//! verified for every combination of answers.

use vstd::prelude::*;
use vstd::string::StringExecFns;

verus! {

/// The interpreter inside a backend virtualenv at `dir`.
pub open spec fn venv_python_path(dir: Seq<char>) -> Seq<char> {
    dir + "/.venv/bin/python"@
}

/// The message returned when no interpreter can be found anywhere.
pub open spec fn no_python_message() -> Seq<char> {
    "Could not find a Python interpreter. Create a virtualenv in backend/.venv or install Python 3.11+."@
}

/// Relies on `std::path::Path::exists`: whether the path names an existing
/// filesystem entry.  What the filesystem holds decides; nothing is promised
/// of the answer.
#[verifier::external_body]
fn path_exists(p: &String) -> bool {
    std::path::Path::new(p).exists()
}

/// Relies on `which::which`: whether the directories of `PATH` hold an
/// executable with the given name.  The machine's environment decides;
/// nothing is promised of the answer.
#[verifier::external_body]
fn command_exists(cmd: &str) -> bool {
    which::which(cmd).is_ok()
}

/// Try to locate a usable Python interpreter.
///
/// Search order: the backend virtualenv at `<backend_dir>/.venv/bin/python`
/// when a backend directory is given, then `python3` on `PATH`, then
/// `python` on `PATH`.  Whatever the machine answers, the result is either
/// one of those three names — never empty — or the fixed
/// could-not-find message.
pub fn find_python(backend_dir: Option<&str>) -> (r: Result<String, String>)
    ensures
        r matches Ok(p) ==> p@.len() > 0,
        r matches Ok(p) ==> (backend_dir matches Some(d) && p@ == venv_python_path(d@)) || p@
            == "python3"@ || p@ == "python"@,
        r matches Err(e) ==> e@ == no_python_message(),
{
    if let Some(dir) = backend_dir {
        let mut venv = dir.to_owned();
        venv.append("/.venv/bin/python");
        if path_exists(&venv) {
            proof {
                reveal_strlit("/.venv/bin/python");
            }
            return Ok(venv);
        }
    }
    if command_exists("python3") {
        proof {
            reveal_strlit("python3");
        }
        return Ok("python3".to_owned());
    }
    if command_exists("python") {
        proof {
            reveal_strlit("python");
        }
        return Ok("python".to_owned());
    }
    Err(
        "Could not find a Python interpreter. Create a virtualenv in backend/.venv or install Python 3.11+.".to_owned(),
    )
}

/// Judge an explicit backend-directory override.  The caller reads the
/// override and checks the directory; the verdict — take the directory, or
/// report that the override names a missing one — is decided here.
pub fn check_backend_dir_override(value: &String, is_dir: bool) -> (r: Result<String, String>)
    ensures
        is_dir ==> (r matches Ok(p) && p@ == value@),
        !is_dir ==> (r matches Err(e) && e@ == "SECOND_BACKEND_DIR is set to '"@ + value@
            + "' but that directory does not exist"@),
{
    if is_dir {
        Ok(value.clone())
    } else {
        let mut s = "SECOND_BACKEND_DIR is set to '".to_owned();
        s.append(value.as_str());
        s.append("' but that directory does not exist");
        Err(s)
    }
}

} // verus!
