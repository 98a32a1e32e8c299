//! The daemon: where its files are, and what its commands do step by step.

pub mod log;
pub mod restart;
pub mod start;
pub mod status;
pub mod stop;

use vstd::prelude::*;
use vstd::string::*;

use crate::process::{is_vproxy, is_vproxy_process, ProcessInfo, ProcessTable};
use crate::text::{chars_of, decimal, joined, parse_u32, to_decimal, trim, trimmed, u32_of};

verus! {

/// Where the process id of the running daemon is kept.
pub const DEFAULT_PID_PATH: &'static str = "/var/run/vproxy.pid";

/// Where the standard output of the daemon goes.
pub const DEFAULT_STDOUT_PATH: &'static str = "/var/run/vproxy.out";

/// Where the standard error of the daemon goes.
pub const DEFAULT_STDERR_PATH: &'static str = "/var/run/vproxy.err";

/// What a command prints that needs root permissions and lacks them.
pub const ROOT_REQUIRED: &'static str = "You must run this executable with root permissions";

/// Exit code of a command that gives up.
pub const EXIT_FAILURE: i32 = -1;

/// The files of one daemon.
pub struct Daemon {
    pub pid_file: String,
    pub stdout_file: String,
    pub stderr_file: String,
}

impl Default for Daemon {
    fn default() -> (r: Daemon)
        ensures
            r.pid_file@ == DEFAULT_PID_PATH@,
            r.stdout_file@ == DEFAULT_STDOUT_PATH@,
            r.stderr_file@ == DEFAULT_STDERR_PATH@,
    {
        Daemon {
            pid_file: DEFAULT_PID_PATH.to_owned(),
            stdout_file: DEFAULT_STDOUT_PATH.to_owned(),
            stderr_file: DEFAULT_STDERR_PATH.to_owned(),
        }
    }
}

/// Wraps `nix::unistd::Uid::is_root`: the user id 0, and no other, is root's.
#[verifier::external_body]
fn uid_is_root(uid: u32) -> (r: bool)
    ensures
        r == (uid == 0),
{
    nix::unistd::Uid::from_raw(uid).is_root()
}

/// What became of the process that the pid file names.
#[derive(Clone, Copy, PartialEq, Eq, Structural, Debug)]
pub enum PidVerdict {
    /// It runs, and is `vproxy`.
    Running,
    /// Its id belongs to another program by now.
    Foreign,
    /// It is gone.
    Gone,
}

/// The process id that the text of a pid file holds.
pub open spec fn pid_of_text(data: Seq<char>) -> Option<u32> {
    u32_of(trimmed(data))
}

/// The verdict on the process id found in the pid file.
pub open spec fn verdict_of(pid: u32, table: Map<u32, ProcessInfo>) -> PidVerdict {
    if !table.contains_key(pid) {
        PidVerdict::Gone
    } else if is_vproxy(table[pid]) {
        PidVerdict::Running
    } else {
        PidVerdict::Foreign
    }
}

/// The message on a process id that another program has; `name` is that
/// program's name in quotes.
pub open spec fn foreign_text(pid: u32, name: Seq<char>) -> Seq<char> {
    "PID "@ + decimal(pid as nat) + " exists but belongs to different process: "@ + name
}

/// What is to be done about the pid file.
pub struct PidReport {
    /// The process id of the daemon, if it runs.
    pub running: Option<u32>,
    /// What to print.
    pub message: Option<String>,
    /// Whether the pid file is stale and has to go.
    pub removes_pid_file: bool,
}

/// The process id of the daemon, if it runs; `pidfile` is the process id read
/// from the pid file.
pub open spec fn running_pid(pidfile: Option<u32>, table: Map<u32, ProcessInfo>) -> Option<u32> {
    match pidfile {
        Some(pid) => if verdict_of(pid, table) == PidVerdict::Running {
            Some(pid)
        } else {
            None
        },
        None => None,
    }
}

/// The verdict on the process id in the pid file; none if no process id was read.
pub open spec fn pid_file_verdict(pidfile: Option<u32>, table: Map<u32, ProcessInfo>) -> Option<
    PidVerdict,
> {
    match pidfile {
        Some(pid) => Some(verdict_of(pid, table)),
        None => None,
    }
}

/// `r` is what is to be done about a pid file that `pidfile` was read from. Where
/// no process id could be read, nothing is.
pub open spec fn is_pid_report(
    pidfile: Option<u32>,
    table: Map<u32, ProcessInfo>,
    name: Seq<char>,
    r: PidReport,
) -> bool {
    let verdict = pid_file_verdict(pidfile, table);
    &&& r.running == running_pid(pidfile, table)
    &&& match r.message {
        Some(message) => {
            &&& verdict == Some(PidVerdict::Foreign)
            &&& message@ == foreign_text(pidfile->0, name)
        },
        None => verdict != Some(PidVerdict::Foreign),
    }
    &&& r.removes_pid_file <==> verdict is Some && verdict != Some(PidVerdict::Running)
}

impl Daemon {
    /// Reads the process id from what is in the pid file; `None` stands for a file
    /// that could not be read.
    pub fn pidfile_raw(data: Option<&str>) -> (r: Option<u32>)
        ensures
            match data {
                Some(text) => r == pid_of_text(text@),
                None => r is None,
            },
    {
        match data {
            Some(text) => {
                let chars = chars_of(text);
                parse_u32(trim(chars.as_slice()))
            },
            None => None,
        }
    }

    /// Judges a process id found in the pid file against the process table.
    pub fn verdict(pid: u32, table: &ProcessTable) -> (r: PidVerdict)
        ensures
            r == verdict_of(pid, table@),
    {
        match table.process(pid) {
            Some(process) => if is_vproxy_process(process) {
                PidVerdict::Running
            } else {
                PidVerdict::Foreign
            },
            None => PidVerdict::Gone,
        }
    }

    /// Looks for the running daemon: `pidfile` is the process id in the pid file,
    /// `name` the name, in quotes, of the process that has that id.
    pub fn pid(pidfile: Option<u32>, table: &ProcessTable, name: &str) -> (r: PidReport)
        ensures
            is_pid_report(pidfile, table@, name@, r),
    {
        match pidfile {
            Some(pid) => match Daemon::verdict(pid, table) {
                PidVerdict::Running => PidReport {
                    running: Some(pid),
                    message: None,
                    removes_pid_file: false,
                },
                PidVerdict::Foreign => PidReport {
                    running: None,
                    message: Some(Daemon::foreign_message(pid, name)),
                    removes_pid_file: true,
                },
                PidVerdict::Gone => PidReport {
                    running: None,
                    message: None,
                    removes_pid_file: true,
                },
            },
            None => PidReport { running: None, message: None, removes_pid_file: false },
        }
    }

    /// The message on a process id that another program has.
    pub fn foreign_message(pid: u32, name: &str) -> (r: String)
        ensures
            r@ == foreign_text(pid, name@),
    {
        let mut r = joined("PID ", to_decimal(pid as u64).as_str());
        r.append(" exists but belongs to different process: ");
        r.append(name);
        r
    }

    /// Checks the effective user id for root permissions.
    pub fn root(effective_uid: u32) -> (r: Result<(), String>)
        ensures
            match r {
                Ok(_) => effective_uid == 0,
                Err(message) => effective_uid != 0 && message@ == ROOT_REQUIRED@,
            },
    {
        if uid_is_root(effective_uid) {
            Ok(())
        } else {
            Err(ROOT_REQUIRED.to_owned())
        }
    }
}

/// The pid file gives back the process id that was written to it, with or
/// without white space around the number.
pub proof fn law_pid_file_reads_back(pid: u32, before: Seq<char>, after: Seq<char>)
    requires
        crate::text::all_white_space(before),
        crate::text::all_white_space(after),
    ensures
        pid_of_text(before + decimal(pid as nat) + after) == Some(pid),
{
    crate::text::law_decimal_reads_back(pid, before, after);
}

/// Root is the user with the id 0 and nobody else.
pub proof fn law_root_is_user_zero(effective_uid: u32, r: Result<(), String>)
    requires
        call_ensures(Daemon::root, (effective_uid,), r),
    ensures
        r is Ok <==> effective_uid == 0,
        r matches Err(message) ==> message@
            == "You must run this executable with root permissions"@,
{
}

/// A pid file that cannot be read names no process; one that can, names the one whose
/// number it holds.
pub proof fn law_pid_file_is_read(data: Option<&str>, r: Option<u32>)
    requires
        call_ensures(Daemon::pidfile_raw, (data,), r),
    ensures
        data is None ==> r is None,
        data matches Some(text) ==> r == u32_of(trimmed(text@)),
{
}

/// White space around what stands in the pid file makes no difference to the process
/// id that is read from it.
pub proof fn law_pid_file_ignores_white_space(before: Seq<char>, s: Seq<char>, after: Seq<char>)
    requires
        crate::text::all_white_space(before),
        crate::text::all_white_space(after),
        s.len() > 0,
        !crate::text::is_white_space(s[0]),
        !crate::text::is_white_space(s.last()),
    ensures
        pid_of_text(before + s + after) == u32_of(s),
{
    crate::text::law_trimmed_undoes_padding(before, s, after);
}

/// The daemon runs exactly if the pid file names a process that is there and is
/// `vproxy`. A pid file that names any other is removed, and if its process is there,
/// a message says whose it is; without a process id nothing is done.
pub proof fn law_pid_file_names_the_daemon(
    pidfile: Option<u32>,
    table: Map<u32, ProcessInfo>,
    name: Seq<char>,
    report: PidReport,
    pid: u32,
)
    requires
        is_pid_report(pidfile, table, name, report),
    ensures
        report.running == Some(pid) <==> pidfile == Some(pid) && table.contains_key(pid)
            && is_vproxy(table[pid]),
        pidfile == Some(pid) ==> {
            let found = table.contains_key(pid);
            &&& report.removes_pid_file <==> !found || !is_vproxy(table[pid])
            &&& report.message is Some <==> found && !is_vproxy(table[pid])
            &&& report.message matches Some(message) ==> message@ == "PID "@ + decimal(pid as nat)
                + " exists but belongs to different process: "@ + name
        },
        pidfile is None ==> !report.removes_pid_file && report.message is None,
{
}

/// The reports that the laws speak of are those of the function.
pub proof fn law_pid_gives_a_report(
    pidfile: Option<u32>,
    table: ProcessTable,
    name: &str,
    report: PidReport,
)
    requires
        call_ensures(Daemon::pid, (pidfile, &table, name), report),
    ensures
        is_pid_report(pidfile, table@, name@, report),
{
}

/// A pid file is looked at in vain once: a look that removes it finds no daemon,
/// and the next look, with no file to read from, finds none either and has
/// nothing to print or to remove.
pub proof fn law_second_look_finds_nothing(
    pidfile: Option<u32>,
    table: Map<u32, ProcessInfo>,
    name: Seq<char>,
    first: PidReport,
    later_table: Map<u32, ProcessInfo>,
    later_name: Seq<char>,
    second: PidReport,
)
    requires
        is_pid_report(pidfile, table, name, first),
        first.removes_pid_file,
        is_pid_report(None, later_table, later_name, second),
    ensures
        first.running is None,
        second.running is None,
        second.message is None,
        !second.removes_pid_file,
{
}

} // verus!
