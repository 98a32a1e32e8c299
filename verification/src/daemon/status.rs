//! The `status` command: a table of all `vproxy` processes.

use vstd::prelude::*;
use vstd::string::*;

use crate::daemon::{verdict_of, Daemon, PidVerdict};
use crate::process::{
    is_vproxy, is_vproxy_process, manager_label, manager_of, under_pm2, Manager, ProcessInfo,
    ProcessTable, BIN_NAME,
};
use crate::text::{align_left, blanks, decimal, joined, left_aligned, to_decimal};

verus! {

/// What the table says of one process.
#[derive(Clone, Copy, PartialEq, Eq, Structural, Debug)]
pub struct StatusRow {
    pub pid: u32,
    pub manager: Manager,
    /// Resident memory in bytes.
    pub memory: u64,
    /// Run time in seconds.
    pub run_time: u64,
}

/// What the command shows.
pub enum StatusReport {
    NotRunning { message: String },
    Running { header: String, rows: Vec<StatusRow> },
}

/// The process id in the pid file, if it is that of a running `vproxy`.
pub open spec fn active_pid(pidfile: Option<u32>, table: Map<u32, ProcessInfo>) -> Option<u32> {
    match pidfile {
        Some(pid) => if is_listed(pid, table) {
            Some(pid)
        } else {
            None
        },
        None => None,
    }
}

/// The row of the process `pid`.
pub open spec fn row_of(pid: u32, pidfile: Option<u32>, table: Map<u32, ProcessInfo>) -> StatusRow {
    StatusRow {
        pid,
        manager: manager_of(table, pid, table[pid], active_pid(pidfile, table)),
        memory: table[pid].memory,
        run_time: table[pid].run_time,
    }
}

/// The process `pid` has a row.
pub open spec fn is_listed(pid: u32, table: Map<u32, ProcessInfo>) -> bool {
    table.contains_key(pid) && is_vproxy(table[pid])
}

/// No process has a row.
pub open spec fn nothing_runs(table: Map<u32, ProcessInfo>) -> bool {
    forall|pid: u32| !#[trigger] is_listed(pid, table)
}

pub open spec fn has_row(rows: Seq<StatusRow>, pid: u32) -> bool {
    exists|i: int| 0 <= i < rows.len() && (#[trigger] rows[i]).pid == pid
}

pub open spec fn ascending(rows: Seq<StatusRow>) -> bool {
    forall|i: int, j: int| 0 <= i < j < rows.len() ==> rows[i].pid < rows[j].pid
}

/// `rows` has one row for each `vproxy` process and none else, by ascending
/// process id.
pub open spec fn is_status(
    rows: Seq<StatusRow>,
    pidfile: Option<u32>,
    table: Map<u32, ProcessInfo>,
) -> bool {
    &&& ascending(rows)
    &&& forall|i: int|
        0 <= i < rows.len() ==> is_listed((#[trigger] rows[i]).pid, table) && rows[i] == row_of(
            rows[i].pid,
            pidfile,
            table,
        )
    &&& forall|pid: u32| #[trigger] is_listed(pid, table) ==> has_row(rows, pid)
}

/// Enters a row where its process id belongs.
fn insert_row(rows: &mut Vec<StatusRow>, row: StatusRow)
    requires
        ascending(old(rows)@),
        !has_row(old(rows)@, row.pid),
    ensures
        ascending(final(rows)@),
        exists|at: int|
            0 <= at <= old(rows)@.len() && final(rows)@ == #[trigger] old(rows)@.insert(at, row),
{
    let ghost before = rows@;
    let mut at: usize = 0;
    while at < rows.len() && rows[at].pid < row.pid
        invariant
            0 <= at <= rows@.len(),
            rows@ == before,
            ascending(before),
            forall|i: int| 0 <= i < at ==> before[i].pid < row.pid,
        decreases rows@.len() - at,
    {
        at += 1;
    }
    proof {
        if at < before.len() {
            assert(before[at as int].pid != row.pid);
        }
    }
    rows.insert(at, row);
    assert(rows@ == before.insert(at as int, row));
}

proof fn lemma_insert_rows(rows: Seq<StatusRow>, at: int, row: StatusRow)
    requires
        0 <= at <= rows.len(),
    ensures
        forall|i: int|
            0 <= i < rows.len() + 1 ==> #[trigger] rows.insert(at, row)[i] == row || exists|j: int|
                0 <= j < rows.len() && rows.insert(at, row)[i] == #[trigger] rows[j],
        forall|pid: u32| has_row(rows, pid) ==> #[trigger] has_row(rows.insert(at, row), pid),
        has_row(rows.insert(at, row), row.pid),
{
    let after = rows.insert(at, row);
    assert forall|i: int| 0 <= i < rows.len() + 1 implies #[trigger] after[i] == row || exists|j: int|
        0 <= j < rows.len() && after[i] == #[trigger] rows[j] by {
        if i < at {
            assert(after[i] == rows[i]);
        } else if i > at {
            assert(after[i] == rows[i - 1]);
        }
    }
    assert forall|pid: u32| has_row(rows, pid) implies #[trigger] has_row(after, pid) by {
        let i = choose|i: int| 0 <= i < rows.len() && (#[trigger] rows[i]).pid == pid;
        if i < at {
            assert(after[i] == rows[i]);
        } else {
            assert(after[i + 1] == rows[i]);
        }
    }
    assert(after[at] == row);
}

/// The rows of the table.
pub fn status_rows(pidfile: Option<u32>, table: &ProcessTable) -> (r: Vec<StatusRow>)
    ensures
        is_status(r@, pidfile, table@),
{
    let active: Option<u32> = match pidfile {
        Some(pid) => match table.process(pid) {
            Some(p) => if is_vproxy_process(p) {
                Some(pid)
            } else {
                None
            },
            None => None,
        },
        None => None,
    };
    assert(active == active_pid(pidfile, table@));
    let pids = table.pids();
    let mut rows: Vec<StatusRow> = Vec::new();
    let mut k: usize = 0;
    while k < pids.len()
        invariant
            0 <= k <= pids@.len(),
            pids@.no_duplicates(),
            forall|pid: u32| pids@.contains(pid) <==> #[trigger] table@.contains_key(pid),
            active == active_pid(pidfile, table@),
            ascending(rows@),
            forall|i: int|
                0 <= i < rows@.len() ==> is_listed((#[trigger] rows@[i]).pid, table@) && rows@[i]
                    == row_of(rows@[i].pid, pidfile, table@) && pids@.take(k as int).contains(
                    rows@[i].pid,
                ),
            forall|j: int|
                0 <= j < k && is_listed(#[trigger] pids@[j], table@) ==> has_row(rows@, pids@[j]),
        decreases pids@.len() - k,
    {
        let pid: u32 = pids[k];
        let ghost seen = pids@.take(k as int);
        let ghost now_seen = pids@.take(k as int + 1);
        assert(now_seen =~= seen.push(pid));
        assert(!seen.contains(pid)) by {
            if seen.contains(pid) {
                let j = choose|j: int| 0 <= j < seen.len() && seen[j] == pid;
                assert(pids@[j] == pids@[k as int]);
            }
        }
        assert(forall|x: u32| seen.contains(x) ==> now_seen.contains(x)) by {
            assert forall|x: u32| seen.contains(x) implies now_seen.contains(x) by {
                let j = choose|j: int| 0 <= j < seen.len() && seen[j] == x;
                assert(now_seen[j] == x);
            }
        }
        assert(now_seen.contains(pid)) by {
            assert(now_seen[k as int] == pid);
        }
        assert(pids@.contains(pid));
        if let Some(process) = table.process(pid) {
            if is_vproxy_process(process) {
                let row = StatusRow {
                    pid,
                    manager: manager_label(table, pid, process, active),
                    memory: process.memory,
                    run_time: process.run_time,
                };
                let ghost before = rows@;
                assert(!has_row(before, pid));
                insert_row(&mut rows, row);
                proof {
                    let at = choose|at: int|
                        0 <= at <= before.len() && rows@ == #[trigger] before.insert(at, row);
                    lemma_insert_rows(before, at, row);
                    assert(row == row_of(pid, pidfile, table@));
                }
            }
        }
        k += 1;
    }
    proof {
        assert forall|pid: u32| #[trigger] is_listed(pid, table@) implies has_row(rows@, pid) by {
            assert(pids@.contains(pid));
            let j = choose|j: int| 0 <= j < pids@.len() && pids@[j] == pid;
            assert(is_listed(pids@[j], table@));
        }
    }
    rows
}

// ----- the text of the table -----

pub open spec fn not_running_text() -> Seq<char> {
    BIN_NAME@ + " is not running"@
}

/// One line of the table: five cells, a blank between each two. The first cell
/// stands as it is given, the others are padded to the width of their column.
pub open spec fn line_text(
    first: Seq<char>,
    manager: Seq<char>,
    cpu: Seq<char>,
    memory: Seq<char>,
    run_time: Seq<char>,
) -> Seq<char> {
    first + " "@ + left_aligned(manager, 10) + " "@ + left_aligned(cpu, 8) + " "@
        + left_aligned(memory, 10) + " "@ + left_aligned(run_time, 8)
}

pub open spec fn header_text() -> Seq<char> {
    line_text(left_aligned("PID"@, 8), "MANAGER"@, "CPU(%)"@, "MEM(MB)"@, "RUN(s)"@)
}

fn table_line(first: String, manager: &str, cpu: &str, memory: &str, run_time: &str) -> (r: String)
    ensures
        r@ == line_text(first@, manager@, cpu@, memory@, run_time@),
{
    let mut r = first;
    r.append(" ");
    r.append(align_left(manager, 10).as_str());
    r.append(" ");
    r.append(align_left(cpu, 8).as_str());
    r.append(" ");
    r.append(align_left(memory, 10).as_str());
    r.append(" ");
    r.append(align_left(run_time, 8).as_str());
    r
}

impl StatusRow {
    /// The line of the table for this row. The process id is not padded, so the
    /// cells behind it are in line with their headings for ids of eight digits
    /// only. The processor load in percent and the memory in megabytes are given
    /// as text.
    pub fn line(&self, cpu: &str, memory: &str) -> (r: String)
        ensures
            r@ == line_text(
                decimal(self.pid as nat),
                self.manager.text(),
                cpu@,
                memory@,
                decimal(self.run_time as nat),
            ),
    {
        table_line(
            to_decimal(self.pid as u64),
            self.manager.as_str(),
            cpu,
            memory,
            to_decimal(self.run_time).as_str(),
        )
    }
}

impl Daemon {
    /// Shows the status of the daemon: `pidfile` is the process id in its pid file.
    pub fn status(&self, pidfile: Option<u32>, table: &ProcessTable) -> (r: StatusReport)
        ensures
            match r {
                StatusReport::NotRunning { message } => {
                    &&& nothing_runs(table@)
                    &&& message@ == not_running_text()
                },
                StatusReport::Running { header, rows } => {
                    &&& rows@.len() > 0
                    &&& is_status(rows@, pidfile, table@)
                    &&& header@ == header_text()
                },
            },
    {
        let rows = status_rows(pidfile, table);
        if rows.len() == 0 {
            return StatusReport::NotRunning { message: joined(BIN_NAME, " is not running") };
        }
        let header = table_line(align_left("PID", 8), "MANAGER", "CPU(%)", "MEM(MB)", "RUN(s)");
        StatusReport::Running { header, rows }
    }
}

// ----- laws -----

proof fn lemma_last_row_is_greatest(rows: Seq<StatusRow>, pid: u32)
    requires
        ascending(rows),
        has_row(rows, pid),
    ensures
        rows.len() > 0,
        pid <= rows.last().pid,
        pid != rows.last().pid ==> has_row(rows.drop_last(), pid),
{
    let i = choose|i: int| 0 <= i < rows.len() && (#[trigger] rows[i]).pid == pid;
    if i < rows.len() - 1 {
        assert(rows.drop_last()[i] == rows[i]);
    }
}

proof fn lemma_same_pids(a: Seq<StatusRow>, b: Seq<StatusRow>)
    requires
        ascending(a),
        ascending(b),
        forall|pid: u32| #[trigger] has_row(a, pid) <==> has_row(b, pid),
    ensures
        a.len() == b.len(),
        forall|i: int| 0 <= i < a.len() ==> (#[trigger] a[i]).pid == b[i].pid,
    decreases a.len(),
{
    if a.len() == 0 {
        if b.len() > 0 {
            assert(has_row(b, b[0].pid));
            assert(has_row(a, b[0].pid));
        }
    } else {
        assert(has_row(a, a.last().pid));
        assert(has_row(b, a.last().pid));
        lemma_last_row_is_greatest(b, a.last().pid);
        assert(has_row(b, b.last().pid));
        assert(has_row(a, b.last().pid));
        lemma_last_row_is_greatest(a, b.last().pid);
        let a1 = a.drop_last();
        let b1 = b.drop_last();
        assert forall|pid: u32| #[trigger] has_row(a1, pid) <==> has_row(b1, pid) by {
            if has_row(a1, pid) {
                let i = choose|i: int| 0 <= i < a1.len() && (#[trigger] a1[i]).pid == pid;
                assert(a[i].pid == pid);
                assert(has_row(a, pid));
                lemma_last_row_is_greatest(b, pid);
            }
            if has_row(b1, pid) {
                let i = choose|i: int| 0 <= i < b1.len() && (#[trigger] b1[i]).pid == pid;
                assert(b[i].pid == pid);
                assert(has_row(b, pid));
                lemma_last_row_is_greatest(a, pid);
            }
        }
        lemma_same_pids(a1, b1);
        assert forall|i: int| 0 <= i < a.len() implies (#[trigger] a[i]).pid == b[i].pid by {
            if i < a.len() - 1 {
                assert(a1[i].pid == b1[i].pid);
            }
        }
    }
}

/// The table has one content: the order in which the processes are walked makes
/// no difference to the rows or to their order.
pub proof fn law_status_is_unique(
    a: Seq<StatusRow>,
    b: Seq<StatusRow>,
    pidfile: Option<u32>,
    table: Map<u32, ProcessInfo>,
)
    requires
        is_status(a, pidfile, table),
        is_status(b, pidfile, table),
    ensures
        a == b,
{
    assert forall|pid: u32| #[trigger] has_row(a, pid) <==> has_row(b, pid) by {
        if has_row(a, pid) {
            assert(is_listed(pid, table));
        }
        if has_row(b, pid) {
            assert(is_listed(pid, table));
        }
    }
    lemma_same_pids(a, b);
    assert forall|i: int| 0 <= i < a.len() implies a[i] == b[i] by {
        assert(a[i].pid == b[i].pid);
    }
    assert(a =~= b);
}

/// A row shows its process as it is: its memory and its run time, to the byte and to
/// the second, and who manages it.
pub proof fn law_status_row_shows_its_process(
    rows: Seq<StatusRow>,
    pidfile: Option<u32>,
    table: Map<u32, ProcessInfo>,
    i: int,
)
    requires
        is_status(rows, pidfile, table),
        0 <= i < rows.len(),
    ensures
        table.contains_key(rows[i].pid),
        rows[i].memory == table[rows[i].pid].memory,
        rows[i].run_time == table[rows[i].pid].run_time,
        rows[i].manager == Manager::Daemon <==> pidfile == Some(rows[i].pid),
        rows[i].manager == Manager::Pm2 ==> under_pm2(table, table[rows[i].pid]),
        rows[i].manager == Manager::Direct ==> !under_pm2(table, table[rows[i].pid]),
{
    assert(is_listed(rows[i].pid, table));
}

/// The table shows all processes that are `vproxy` and no others, each once, by
/// ascending process id.
pub proof fn law_status_shows_every_vproxy_once(
    rows: Seq<StatusRow>,
    pidfile: Option<u32>,
    table: Map<u32, ProcessInfo>,
    pid: u32,
)
    requires
        is_status(rows, pidfile, table),
    ensures
        table.contains_key(pid) && is_vproxy(table[pid]) <==> exists|i: int|
            0 <= i < rows.len() && (#[trigger] rows[i]).pid == pid,
        forall|i: int, j: int| 0 <= i < j < rows.len() ==> rows[i].pid < rows[j].pid,
{
    if table.contains_key(pid) && is_vproxy(table[pid]) {
        assert(is_listed(pid, table));
    }
    if exists|i: int| 0 <= i < rows.len() && (#[trigger] rows[i]).pid == pid {
        let i = choose|i: int| 0 <= i < rows.len() && (#[trigger] rows[i]).pid == pid;
        assert(is_listed(rows[i].pid, table));
    }
}

/// How many blanks fill a column behind a text.
pub open spec fn gap(width: int, text: Seq<char>) -> nat {
    if text.len() < width {
        (width - text.len()) as nat
    } else {
        0
    }
}

/// A line holds its five cells whole and in order. The first stands as it is; the
/// others fill columns of ten, eight, ten and eight characters, or overflow them, and
/// a blank parts each two.
pub proof fn law_line_holds_its_cells(
    first: Seq<char>,
    manager: Seq<char>,
    cpu: Seq<char>,
    memory: Seq<char>,
    run_time: Seq<char>,
)
    ensures
        line_text(first, manager, cpu, memory, run_time) == first + blanks(1) + manager + blanks(
            gap(10, manager) + 1,
        ) + cpu + blanks(gap(8, cpu) + 1) + memory + blanks(gap(10, memory) + 1) + run_time + blanks(
            gap(8, run_time),
        ),
{
    reveal_strlit(" ");
    assert(" "@ =~= blanks(1));
    assert(line_text(first, manager, cpu, memory, run_time) =~= first + blanks(1) + manager + blanks(
        gap(10, manager) + 1,
    ) + cpu + blanks(gap(8, cpu) + 1) + memory + blanks(gap(10, memory) + 1) + run_time + blanks(
        gap(8, run_time),
    ));
}

/// The line of a row begins with its process id, in full and not padded, and ends with
/// its run time; the label, the load and the memory stand between them.
pub proof fn law_row_line_shows_the_row(row: StatusRow, cpu: &str, memory: &str, line: String)
    requires
        call_ensures(StatusRow::line, (&row, cpu, memory), line),
    ensures
        ({
            let pid = decimal(row.pid as nat);
            let label = match row.manager {
                Manager::Daemon => "daemon"@,
                Manager::Pm2 => "pm2"@,
                Manager::Direct => "direct"@,
            };
            let run_time = decimal(row.run_time as nat);
            line@ == pid + blanks(1) + label + blanks(gap(10, label) + 1) + cpu@ + blanks(
                gap(8, cpu@) + 1,
            ) + memory@ + blanks(gap(10, memory@) + 1) + run_time + blanks(gap(8, run_time))
        }),
{
    law_line_holds_its_cells(
        decimal(row.pid as nat),
        row.manager.text(),
        cpu@,
        memory@,
        decimal(row.run_time as nat),
    );
}

/// `status` shows rows exactly if a `vproxy` runs, and says else that none does.
pub proof fn law_status_says_whether_vproxy_runs(
    d: Daemon,
    pidfile: Option<u32>,
    table: ProcessTable,
    report: StatusReport,
)
    requires
        call_ensures(Daemon::status, (&d, pidfile, &table), report),
    ensures
        report is Running <==> exists|pid: u32|
            table@.contains_key(pid) && is_vproxy(#[trigger] table@[pid]),
        report matches StatusReport::Running { rows, .. } ==> is_status(rows@, pidfile, table@),
        report matches StatusReport::NotRunning { message } ==> message@ == "vproxy"@
            + " is not running"@,
{
    match report {
        StatusReport::Running { rows, .. } => {
            let pid = rows@[0].pid;
            assert(is_listed(pid, table@));
            assert(is_vproxy(table@[pid]));
        },
        StatusReport::NotRunning { .. } => {
            assert(nothing_runs(table@));
            assert forall|pid: u32| table@.contains_key(pid) implies !is_vproxy(
                #[trigger] table@[pid],
            ) by {
                assert(!is_listed(pid, table@));
            }
        },
    }
}

/// A row is labelled as the daemon exactly if the pid file names its process; so
/// there is at most one such row.
pub proof fn law_status_labels_daemon_by_pid_file(
    rows: Seq<StatusRow>,
    pidfile: Option<u32>,
    table: Map<u32, ProcessInfo>,
    i: int,
)
    requires
        is_status(rows, pidfile, table),
        0 <= i < rows.len(),
    ensures
        rows[i].manager == Manager::Daemon <==> pidfile == Some(rows[i].pid),
        forall|j: int|
            0 <= j < rows.len() && rows[i].manager == Manager::Daemon && (#[trigger] rows[j]).manager
                == Manager::Daemon ==> i == j,
{
    assert(is_listed(rows[i].pid, table));
    assert forall|j: int|
        0 <= j < rows.len() && rows[i].manager == Manager::Daemon && (#[trigger] rows[j]).manager
            == Manager::Daemon implies i == j by {
        assert(is_listed(rows[j].pid, table));
        assert(rows[i].pid == rows[j].pid);
    }
}

/// `status` and the other commands agree: the table has a row labelled as the
/// daemon exactly if the process that the pid file names is found running.
pub proof fn law_status_agrees_with_pid(
    rows: Seq<StatusRow>,
    pid: u32,
    table: Map<u32, ProcessInfo>,
)
    requires
        is_status(rows, Some(pid), table),
    ensures
        verdict_of(pid, table) == PidVerdict::Running <==> exists|i: int|
            0 <= i < rows.len() && (#[trigger] rows[i]).manager == Manager::Daemon,
{
    if verdict_of(pid, table) == PidVerdict::Running {
        assert(is_listed(pid, table));
        let i = choose|i: int| 0 <= i < rows.len() && (#[trigger] rows[i]).pid == pid;
        assert(rows[i].manager == Manager::Daemon);
    }
    if exists|i: int| 0 <= i < rows.len() && (#[trigger] rows[i]).manager == Manager::Daemon {
        let i = choose|i: int|
            0 <= i < rows.len() && (#[trigger] rows[i]).manager == Manager::Daemon;
        assert(is_listed(rows[i].pid, table));
    }
}

} // verus!
