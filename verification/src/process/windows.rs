//! Policy of the snapshot/handle platform: pseudo-process handling, the
//! name-resolution fallback chain, and handle-acquisition failure
//! classification.

use vstd::prelude::*;

use crate::process::errors::ProcessError;
use crate::process::Pid;

verus! {

/// The two identifiers that platform reserves for kernel bookkeeping.
pub open spec fn is_pseudo_pid(pid: Pid) -> bool {
    pid == 0 || pid == 4
}

/// Native handle-acquisition error: a parameter was invalid, which is how
/// that platform reports a pid with no process behind it.
pub const ERROR_INVALID_PARAMETER: u32 = 87;

/// Native handle-acquisition error: access denied.
pub const ERROR_ACCESS_DENIED: u32 = 5;

/// How a failure to open a process handle is classified: insufficient
/// privilege is told apart from the target no longer existing, so a stale
/// handle is never treated as success.
pub open spec fn classify_handle_failure_spec(code: u32, pid: Pid) -> ProcessError {
    if code == ERROR_ACCESS_DENIED {
        ProcessError::AccessDenied(pid)
    } else if code == ERROR_INVALID_PARAMETER {
        ProcessError::NoSuchProcess(pid)
    } else {
        ProcessError::Other(code as i32)
    }
}

/// Classifies the native error code of a failed handle acquisition.
pub fn classify_handle_failure(code: u32, pid: Pid) -> (e: ProcessError)
    ensures
        e == classify_handle_failure_spec(code, pid),
{
    if code == ERROR_ACCESS_DENIED {
        ProcessError::AccessDenied(pid)
    } else if code == ERROR_INVALID_PARAMETER {
        ProcessError::NoSuchProcess(pid)
    } else {
        #[verifier::truncate]
        let raw = code as i32;
        ProcessError::Other(raw)
    }
}

/// The fixed names reported for the pseudo-processes.
pub fn pseudo_process_name(pid: Pid) -> (r: Option<String>)
    ensures
        pid == 0 ==> (r matches Some(n) && n@ == "System Idle Process"@),
        pid == 4 ==> (r matches Some(n) && n@ == "System"@),
        !is_pseudo_pid(pid) ==> r is None,
{
    if pid == 0 {
        Some("System Idle Process".to_owned())
    } else if pid == 4 {
        Some("System".to_owned())
    } else {
        None
    }
}

/// Resolves a process's name through that platform's fallback chain: the
/// fixed pseudo-process names first, then the executable path's final
/// component, then the snapshot entry's recorded image name.  Only when
/// every source fails is the process reported gone.
pub fn process_name(pid: Pid, exe_name: Option<String>, snapshot_name: Option<String>) -> (r:
    Result<String, ProcessError>)
    ensures
        pid == 0 ==> (r matches Ok(n) && n@ == "System Idle Process"@),
        pid == 4 ==> (r matches Ok(n) && n@ == "System"@),
        !is_pseudo_pid(pid) ==> match r {
            Ok(n) => (exe_name matches Some(e) && n == e) || (exe_name is None && (
            snapshot_name matches Some(s) && n == s)),
            Err(e) => exe_name is None && snapshot_name is None && e
                == ProcessError::NoSuchProcess(pid),
        },
{
    match pseudo_process_name(pid) {
        Some(n) => Ok(n),
        None => match exe_name {
            Some(n) => Ok(n),
            None => match snapshot_name {
                Some(n) => Ok(n),
                None => Err(ProcessError::NoSuchProcess(pid)),
            },
        },
    }
}

/// Executable-path and command-line queries against a pseudo-process are
/// denied with an access error rather than treated as a malfunction.
pub fn pseudo_process_query(pid: Pid) -> (r: Result<(), ProcessError>)
    ensures
        is_pseudo_pid(pid) ==> (r matches Err(e) && e == ProcessError::AccessDenied(pid)),
        !is_pseudo_pid(pid) ==> r is Ok,
{
    if pid == 0 || pid == 4 {
        Err(ProcessError::AccessDenied(pid))
    } else {
        Ok(())
    }
}

/// The image name recorded in a snapshot entry, truncated at its first
/// NUL; an entry with no NUL at all yields nothing.
pub fn image_name_prefix(buf: &Vec<u16>) -> (r: Vec<u16>)
    ensures
        match first_nul(buf@) {
            Some(k) => r@ == buf@.subrange(0, k),
            None => r@.len() == 0,
        },
{
    let mut i: usize = 0;
    while i < buf.len()
        invariant
            0 <= i <= buf@.len(),
            forall|j: int| 0 <= j < i ==> buf@[j] != 0,
        decreases buf@.len() - i,
    {
        if *buf.get(i).unwrap() == 0 {
            let mut out: Vec<u16> = Vec::new();
            let mut j: usize = 0;
            while j < i
                invariant
                    0 <= j <= i <= buf@.len(),
                    out@ =~= buf@.subrange(0, j as int),
                decreases i - j,
            {
                out.push(*buf.get(j).unwrap());
                j = j + 1;
            }
            proof {
                assert(first_nul(buf@) == Some(i as int)) by {
                    lemma_first_nul_here(buf@, i as int);
                }
            }
            return out;
        }
        i = i + 1;
    }
    proof {
        assert(first_nul(buf@) is None) by {
            lemma_first_nul_none(buf@);
        }
    }
    Vec::new()
}

/// Index of the first NUL in `s`, if any.
pub open spec fn first_nul(s: Seq<u16>) -> Option<int> {
    if exists|k: int| 0 <= k < s.len() && s[k] == 0 {
        Some(choose|k: int| 0 <= k < s.len() && s[k] == 0 && forall|j: int| 0 <= j < k ==> s[j] != 0)
    } else {
        None
    }
}

proof fn lemma_first_nul_exists(s: Seq<u16>, i: int)
    requires
        0 <= i < s.len(),
        s[i] == 0,
        forall|j: int| 0 <= j < i ==> s[j] != 0,
    ensures
        exists|k: int|
            0 <= k < s.len() && s[k] == 0 && forall|j: int| 0 <= j < k ==> s[j] != 0,
{
    assert(0 <= i < s.len() && s[i] == 0 && forall|j: int| 0 <= j < i ==> s[j] != 0);
}

proof fn lemma_first_nul_here(s: Seq<u16>, i: int)
    requires
        0 <= i < s.len(),
        s[i] == 0,
        forall|j: int| 0 <= j < i ==> s[j] != 0,
    ensures
        first_nul(s) == Some(i),
{
    lemma_first_nul_exists(s, i);
    let k = choose|k: int|
        0 <= k < s.len() && s[k] == 0 && forall|j: int| 0 <= j < k ==> s[j] != 0;
    if k < i {
        assert(s[k] != 0);
    }
    if i < k {
        assert(s[i] != 0);
    }
}

proof fn lemma_first_nul_none(s: Seq<u16>)
    requires
        forall|j: int| 0 <= j < s.len() ==> s[j] != 0,
    ensures
        first_nul(s) is None,
{
}

} // verus!
