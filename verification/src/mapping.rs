//! The privilege mapper: the three `/proc/<pid>/{uid_map,setgroups,gid_map}`
//! writes that make the invoking user root inside the child's user
//! namespace.
//!
//! The paths and the line contents are built by verified code, down to the
//! decimal rendering of pid, uid and gid; only the file writes themselves go
//! through trusted wrappers around `nix`.

use vstd::prelude::*;
use vstd::string::StringExecFns;
use vstd::string::StringSliceAdditionalSpecFns;

use crate::outcome::SandboxError;

verus! {

/// The character for a single decimal digit.
pub open spec fn dec_digit(d: nat) -> char {
    if d == 0 {
        '0'
    } else if d == 1 {
        '1'
    } else if d == 2 {
        '2'
    } else if d == 3 {
        '3'
    } else if d == 4 {
        '4'
    } else if d == 5 {
        '5'
    } else if d == 6 {
        '6'
    } else if d == 7 {
        '7'
    } else if d == 8 {
        '8'
    } else {
        '9'
    }
}

/// The usual decimal rendering of a number: most significant digit first,
/// no leading zeros (a lone zero for 0).
pub open spec fn dec_rep(n: nat) -> Seq<char>
    decreases n,
{
    if n < 10 {
        seq![dec_digit(n)]
    } else {
        dec_rep(n / 10).push(dec_digit(n % 10))
    }
}

/// One decimal digit as a string.
fn digit_string(d: u64) -> (s: String)
    requires
        d < 10,
    ensures
        s@ == seq![dec_digit(d as nat)],
{
    let s: &str = if d == 0 {
        "0"
    } else if d == 1 {
        "1"
    } else if d == 2 {
        "2"
    } else if d == 3 {
        "3"
    } else if d == 4 {
        "4"
    } else if d == 5 {
        "5"
    } else if d == 6 {
        "6"
    } else if d == 7 {
        "7"
    } else if d == 8 {
        "8"
    } else {
        "9"
    };
    proof {
        reveal_strlit("0");
        reveal_strlit("1");
        reveal_strlit("2");
        reveal_strlit("3");
        reveal_strlit("4");
        reveal_strlit("5");
        reveal_strlit("6");
        reveal_strlit("7");
        reveal_strlit("8");
        reveal_strlit("9");
        assert(s@ =~= seq![dec_digit(d as nat)]);
    }
    s.to_owned()
}

/// Render a number in decimal.
pub fn dec_string(n: u64) -> (s: String)
    ensures
        s@ == dec_rep(n as nat),
    decreases n,
{
    if n < 10 {
        digit_string(n)
    } else {
        let mut s = dec_string(n / 10);
        let last = digit_string(n % 10);
        s.append(last.as_str());
        proof {
            assert(s@ =~= dec_rep(n as nat));
        }
        s
    }
}

/// The single line written to `uid_map` or `gid_map`: it maps id 0 inside
/// the namespace to the given id outside it, for a range of length 1.
pub open spec fn id_map_line_spec(outside_id: nat) -> Seq<char> {
    "0 "@ + dec_rep(outside_id) + " 1\n"@
}

/// Build the `uid_map`/`gid_map` line for the given outside id.
pub fn id_map_line(outside_id: u32) -> (s: String)
    ensures
        s@ == id_map_line_spec(outside_id as nat),
{
    let mut s = "0 ".to_owned();
    let digits = dec_string(outside_id as u64);
    s.append(digits.as_str());
    s.append(" 1\n");
    s
}

/// The token written to `setgroups` so that `gid_map` may be written by an
/// unprivileged mapper.
pub open spec fn setgroups_line_spec() -> Seq<char> {
    "deny"@
}

/// The path of one of the child's mapping pseudo-files.
pub open spec fn proc_file_path_spec(pid: nat, file_name: Seq<char>) -> Seq<char> {
    "/proc/"@ + dec_rep(pid) + "/"@ + file_name
}

/// Build the path of the named `/proc/<pid>` entry.
fn proc_file_path(pid: i32, file_name: &str) -> (s: String)
    requires
        pid > 0,
    ensures
        s@ == proc_file_path_spec(pid as nat, file_name@),
{
    let mut s = "/proc/".to_owned();
    let digits = dec_string(pid as u64);
    s.append(digits.as_str());
    s.append("/");
    s.append(file_name);
    s
}

/// One pseudo-file write of the mapping: which path, and what single
/// payload to write there.
pub struct ProcWrite {
    pub path: String,
    pub contents: String,
}

/// The full mapping for one child, in the order the kernel demands:
/// `uid_map` first, then `setgroups` (which must be disabled before a
/// non-root mapper may write `gid_map`), then `gid_map`.
pub open spec fn mapping_plan_spec(pid: nat, uid: nat, gid: nat, plan: Seq<ProcWrite>) -> bool {
    &&& plan.len() == 3
    &&& plan[0].path@ == proc_file_path_spec(pid, "uid_map"@)
    &&& plan[0].contents@ == id_map_line_spec(uid)
    &&& plan[1].path@ == proc_file_path_spec(pid, "setgroups"@)
    &&& plan[1].contents@ == setgroups_line_spec()
    &&& plan[2].path@ == proc_file_path_spec(pid, "gid_map"@)
    &&& plan[2].contents@ == id_map_line_spec(gid)
}

/// Build the three writes that map the given uid/gid to root inside the
/// user namespace of the child with the given pid.
pub fn mapping_plan(pid: i32, uid: u32, gid: u32) -> (plan: Vec<ProcWrite>)
    requires
        pid > 0,
    ensures
        mapping_plan_spec(pid as nat, uid as nat, gid as nat, plan@),
{
    let mut plan: Vec<ProcWrite> = Vec::new();
    plan.push(
        ProcWrite {
            path: proc_file_path(pid, "uid_map"),
            contents: id_map_line(uid),
        },
    );
    plan.push(
        ProcWrite { path: proc_file_path(pid, "setgroups"), contents: "deny".to_owned() },
    );
    plan.push(
        ProcWrite {
            path: proc_file_path(pid, "gid_map"),
            contents: id_map_line(gid),
        },
    );
    plan
}

/// Relies on nix::unistd::Uid::current (the getuid syscall, which cannot
/// fail): returns the caller's real user id.
#[verifier::external_body]
fn current_uid() -> u32 {
    nix::unistd::Uid::current().as_raw()
}

/// Relies on nix::unistd::Gid::current (the getgid syscall, which cannot
/// fail): returns the caller's real group id.
#[verifier::external_body]
fn current_gid() -> u32 {
    nix::unistd::Gid::current().as_raw()
}

/// Relies on nix::fcntl::open with O_WRONLY: on success the returned file
/// descriptor is nonnegative, per open(2).
#[verifier::external_body]
fn open_for_write(path: &str) -> (r: Result<i32, ()>)
    ensures
        r matches Ok(fd) ==> fd >= 0,
{
    match nix::fcntl::open(path, nix::fcntl::OFlag::O_WRONLY, nix::sys::stat::Mode::empty()) {
        Ok(fd) => Ok(fd),
        Err(_) => Err(()),
    }
}

/// Relies on nix::unistd::write: on success the returned count is at most
/// the length of the buffer handed to it, per write(2).
#[verifier::external_body]
fn write_to_fd(fd: i32, data: &str) -> (r: Result<usize, ()>)
    requires
        fd >= 0,
    ensures
        r matches Ok(n) ==> n <= data.spec_bytes().len(),
{
    match nix::unistd::write(fd, data.as_bytes()) {
        Ok(n) => Ok(n),
        Err(_) => Err(()),
    }
}

/// Relies on nix::unistd::close: releases the descriptor; the result only
/// says whether the kernel reported an error while closing.
#[verifier::external_body]
fn close_fd(fd: i32) -> (r: Result<(), ()>)
    requires
        fd >= 0,
{
    match nix::unistd::close(fd) {
        Ok(()) => Ok(()),
        Err(_) => Err(()),
    }
}

/// Open the pseudo-file, write the payload in a single write call, and
/// close it. The write counts as complete only if the kernel accepted
/// every byte at once, which is what the mapping files require.
fn write_proc_file(w: &ProcWrite) -> (r: Result<(), ()>)
{
    let fd = match open_for_write(w.path.as_str()) {
        Ok(fd) => fd,
        Err(()) => {
            return Err(());
        },
    };
    let wrote = write_to_fd(fd, w.contents.as_str());
    let _ = close_fd(fd);
    match wrote {
        Ok(n) => {
            if n == w.contents.as_str().len() {
                Ok(())
            } else {
                Err(())
            }
        },
        Err(()) => Err(()),
    }
}

/// Map the invoking user and group to root inside the user namespace of
/// the child with the given pid: write `uid_map`, then `setgroups`, then
/// `gid_map`, each exactly once and in that order. Any failure is a
/// privilege-mapping error and leaves the remaining files unwritten.
pub fn map_user_to_root(pid: i32) -> (r: Result<(), SandboxError>)
    requires
        pid > 0,
    ensures
        r matches Err(e) ==> e == SandboxError::PrivilegeMapping,
{
    let uid = current_uid();
    let gid = current_gid();
    let plan = mapping_plan(pid, uid, gid);
    let mut i: usize = 0;
    while i < plan.len()
        invariant
            i <= plan.len(),
        decreases plan.len() - i,
    {
        match write_proc_file(&plan[i]) {
            Ok(()) => {},
            Err(()) => {
                return Err(SandboxError::PrivilegeMapping);
            },
        }
        i = i + 1;
    }
    Ok(())
}

} // verus!
