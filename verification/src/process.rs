//! The process table as the daemon sees it: which processes are `vproxy`, and
//! who manages them.

use std::collections::HashMap;

use vstd::prelude::*;
use vstd::slice::slice_subrange;
use vstd::string::*;
use vstd::utf8::{encode_scalar, encode_utf8};

use crate::text::same_bytes;

verus! {

broadcast use vstd::std_specs::hash::group_hash_axioms;

/// Name of the program, and of its executable.
pub const BIN_NAME: &'static str = "vproxy";

/// What the daemon reads of one process.
pub struct ProcessInfo {
    /// Process id of the parent.
    pub parent: Option<u32>,
    /// Process name, as raw bytes.
    pub name: Vec<u8>,
    /// Path of the executable, as raw bytes.
    pub exe: Option<Vec<u8>>,
    /// Command line, one string per argument.
    pub cmd: Vec<String>,
    /// Resident memory in bytes.
    pub memory: u64,
    /// Run time in seconds.
    pub run_time: u64,
}

/// The processes of the machine, by process id.
pub struct ProcessTable {
    processes: HashMap<u32, ProcessInfo>,
}

impl View for ProcessTable {
    type V = Map<u32, ProcessInfo>;

    closed spec fn view(&self) -> Map<u32, ProcessInfo> {
        self.processes@
    }
}

impl ProcessTable {
    /// A table without processes.
    pub fn new() -> (r: ProcessTable)
        ensures
            r@ == Map::<u32, ProcessInfo>::empty(),
    {
        ProcessTable { processes: HashMap::new() }
    }

    /// Enters a process; an earlier one with the same id is replaced.
    pub fn insert(&mut self, pid: u32, info: ProcessInfo)
        ensures
            final(self)@ == old(self)@.insert(pid, info),
    {
        self.processes.insert(pid, info);
    }

    /// The process with the given id.
    pub fn process(&self, pid: u32) -> (r: Option<&ProcessInfo>)
        ensures
            match r {
                Some(p) => self@.contains_key(pid) && *p == self@[pid],
                None => !self@.contains_key(pid),
            },
    {
        self.processes.get(&pid)
    }

    /// The ids of all processes, each once, in no particular order.
    pub fn pids(&self) -> (r: Vec<u32>)
        ensures
            r@.no_duplicates(),
            forall|pid: u32| r@.contains(pid) <==> #[trigger] self@.contains_key(pid),
    {
        let mut r: Vec<u32> = Vec::new();
        let ghost refs = vstd::std_specs::iter::IteratorSpec::remaining(&self.processes.keys());
        for pid in it: self.processes.keys()
            invariant
                it.seq() == refs,
                r@ == it.seq().unref().take(it.index() as int),
        {
            r.push(*pid);
            assert(r@ =~= it.seq().unref().take(it.index() as int + 1));
        }
        proof {
            let all = refs.unref();
            assert(all.take(all.len() as int) =~= all);
            assert(r@ == all);
            assert forall|pid: u32| r@.contains(pid) <==> #[trigger] self@.contains_key(pid) by {
                assert(all.to_set().contains(pid) <==> self@.dom().contains(pid));
            }
            assert(all.no_duplicates()) by {
                assert forall|i: int, j: int|
                    0 <= i < all.len() && 0 <= j < all.len() && i != j implies all[i] != all[j] by {
                    assert(refs[i] != refs[j]);
                }
            }
        }
        r
    }
}

// ----- recognising the program -----

/// The bytes of `BIN_NAME`.
pub open spec fn exe_name() -> Seq<u8> {
    seq![118u8, 112u8, 114u8, 111u8, 120u8, 121u8]
}

/// The name that the executable has, as raw bytes.
pub fn vproxy_exe_name() -> (r: &'static [u8])
    ensures
        r@ == exe_name(),
        r@ == encode_utf8(BIN_NAME@),
{
    proof {
        reveal_strlit("vproxy");
        vstd::utf8::is_ascii_chars_encode_utf8(BIN_NAME@);
    }
    let r = BIN_NAME.as_bytes();
    assert(r@ =~= exe_name());
    r
}

/// The position just after the last `/` of `path`, or 0.
pub open spec fn component_start(path: Seq<u8>) -> int
    decreases path.len(),
{
    if path.len() == 0 {
        0
    } else if path.last() == 47u8 {
        path.len() as int
    } else {
        component_start(path.drop_last())
    }
}

/// The file name at the end of a path: its last component, where empty and `.`
/// components are passed over and `..` names no file.
pub open spec fn file_name_of(path: Seq<u8>) -> Option<Seq<u8>>
    decreases path.len(),
{
    let start = component_start(path);
    let last = path.skip(start);
    if last == Seq::<u8>::empty() || last == seq![46u8] {
        if 0 < start <= path.len() {
            file_name_of(path.take(start - 1))
        } else {
            None
        }
    } else if last == seq![46u8, 46u8] {
        None
    } else {
        Some(last)
    }
}

/// Returns the final component of a path, if it names a file.
pub fn file_name(path: &[u8]) -> (r: Option<&[u8]>)
    ensures
        match r {
            Some(name) => file_name_of(path@) == Some(name@),
            None => file_name_of(path@) is None,
        },
{
    let mut end: usize = path.len();
    assert(path@.take(path@.len() as int) =~= path@);
    loop
        invariant
            0 <= end <= path@.len(),
            file_name_of(path@) == file_name_of(path@.take(end as int)),
        decreases end,
    {
        let ghost head = path@.take(end as int);
        let mut start: usize = end;
        assert(head.take(end as int) =~= head);
        while start > 0 && path[start - 1] != 47u8
            invariant
                0 <= start <= end <= path@.len(),
                head == path@.take(end as int),
                component_start(head) == component_start(head.take(start as int)),
            decreases start,
        {
            assert(head.take(start as int).last() == path@[start - 1]);
            assert(head.take(start as int).drop_last() =~= head.take(start - 1));
            start -= 1;
        }
        proof {
            if start > 0 {
                assert(head.take(start as int).last() == path@[start - 1]);
            }
        }
        assert(component_start(head) == start);
        let ghost last = head.skip(start as int);
        let len: usize = end - start;
        assert(last.len() == len);
        assert(len > 0 ==> last[0] == path@[start as int]);
        assert(len > 1 ==> last[1] == path@[start + 1]);
        if len == 0 || (len == 1 && path[start] == 46u8) {
            assert(last =~= Seq::<u8>::empty() || last =~= seq![46u8]);
            if start == 0 {
                return None;
            }
            assert(head.take(start - 1) =~= path@.take(start - 1));
            end = start - 1;
        } else {
            assert(last != Seq::<u8>::empty());
            assert(last != seq![46u8]) by {
                if last == seq![46u8] {
                    assert(last[0] == 46u8);
                }
            }
            if len == 2 && path[start] == 46u8 && path[start + 1] == 46u8 {
                assert(last =~= seq![46u8, 46u8]);
                return None;
            }
            assert(last != seq![46u8, 46u8]) by {
                if last == seq![46u8, 46u8] {
                    assert(last[0] == 46u8 && last[1] == 46u8);
                }
            }
            let name = slice_subrange(path, start, end);
            assert(name@ =~= last);
            return Some(name);
        }
    }
}

/// A process is `vproxy` if its name or the file name of its executable is.
pub open spec fn is_vproxy(p: ProcessInfo) -> bool {
    ||| p.name@ == exe_name()
    ||| p.exe matches Some(path) && file_name_of(path@) == Some(exe_name())
}

/// Whether a process is `vproxy`.
pub fn is_vproxy_process(p: &ProcessInfo) -> (r: bool)
    ensures
        r == is_vproxy(*p),
{
    if same_bytes(p.name.as_slice(), vproxy_exe_name()) {
        return true;
    }
    match &p.exe {
        Some(path) => match file_name(path.as_slice()) {
            Some(name) => same_bytes(name, vproxy_exe_name()),
            None => false,
        },
        None => false,
    }
}

proof fn lemma_component_start_after_slash(dir: Seq<u8>, name: Seq<u8>)
    requires
        forall|i: int| 0 <= i < name.len() ==> name[i] != 47u8,
    ensures
        component_start(dir.push(47u8) + name) == dir.len() + 1,
    decreases name.len(),
{
    let path = dir.push(47u8) + name;
    if name.len() == 0 {
        assert(path.last() == 47u8);
    } else {
        assert(path.last() == name.last());
        assert(path.drop_last() =~= dir.push(47u8) + name.drop_last());
        lemma_component_start_after_slash(dir, name.drop_last());
    }
}

/// The executable is recognised wherever it is installed: the path of a file in
/// any directory has that file's name.
pub proof fn law_file_name_in_any_directory(dir: Seq<u8>, name: Seq<u8>)
    requires
        name.len() > 0,
        name != seq![46u8],
        name != seq![46u8, 46u8],
        forall|i: int| 0 <= i < name.len() ==> name[i] != 47u8,
    ensures
        file_name_of(dir.push(47u8) + name) == Some(name),
{
    let path = dir.push(47u8) + name;
    lemma_component_start_after_slash(dir, name);
    assert(path.skip(dir.len() as int + 1) =~= name);
}

proof fn lemma_component_start_bare(name: Seq<u8>)
    requires
        forall|i: int| 0 <= i < name.len() ==> name[i] != 47u8,
    ensures
        component_start(name) == 0,
    decreases name.len(),
{
    if name.len() > 0 {
        lemma_component_start_bare(name.drop_last());
    }
}

/// A name without a directory is a file name, unless it is empty, `.` or `..`.
pub proof fn law_bare_file_name(name: Seq<u8>)
    requires
        forall|i: int| 0 <= i < name.len() ==> name[i] != 47u8,
    ensures
        file_name_of(name) == (if name.len() == 0 || name == seq![46u8] || name == seq![
            46u8,
            46u8,
        ] {
            None
        } else {
            Some(name)
        }),
{
    lemma_component_start_bare(name);
    assert(name.skip(0) =~= name);
    if name.len() == 0 {
        assert(name =~= Seq::<u8>::empty());
    }
    assert(seq![46u8] != seq![46u8, 46u8]) by {
        assert(seq![46u8].len() != seq![46u8, 46u8].len());
    }
}

/// A slash, or a slash and a dot, at the end of a path make no difference to its file
/// name; a path that ends in `..` has none.
pub proof fn law_file_name_passes_over_dots(path: Seq<u8>)
    ensures
        file_name_of(path.push(47u8)) == file_name_of(path),
        file_name_of(path.push(47u8).push(46u8)) == file_name_of(path),
        file_name_of(path.push(47u8).push(46u8).push(46u8)) is None,
{
    let slash = path.push(47u8);
    let dot = slash.push(46u8);
    let dots = dot.push(46u8);
    assert(slash.skip(path.len() as int + 1) =~= Seq::<u8>::empty());
    assert(slash.take(path.len() as int) =~= path);
    assert(dot =~= slash + seq![46u8]);
    lemma_component_start_after_slash(path, seq![46u8]);
    assert(dot.skip(path.len() as int + 1) =~= seq![46u8]);
    assert(dot.take(path.len() as int) =~= path);
    assert(dots =~= slash + seq![46u8, 46u8]);
    lemma_component_start_after_slash(path, seq![46u8, 46u8]);
    assert(dots.skip(path.len() as int + 1) =~= seq![46u8, 46u8]);
    assert(seq![46u8, 46u8] != Seq::<u8>::empty() && seq![46u8, 46u8] != seq![46u8]) by {
        assert(seq![46u8, 46u8].len() == 2);
        assert(seq![46u8].len() == 1);
    }
}

/// A process is `vproxy` by its name, whatever it was started from, or by the file
/// name of its executable, whatever it calls itself, and by nothing else.
pub proof fn law_vproxy_by_name_or_executable(p: ProcessInfo)
    ensures
        p.name@ == encode_utf8("vproxy"@) ==> is_vproxy(p),
        p.exe matches Some(path) && file_name_of(path@) == Some(encode_utf8("vproxy"@))
            ==> is_vproxy(p),
        is_vproxy(p) && p.name@ != encode_utf8("vproxy"@) ==> (p.exe matches Some(path)
            && file_name_of(path@) == Some(encode_utf8("vproxy"@))),
{
    reveal_strlit("vproxy");
    vstd::utf8::is_ascii_chars_encode_utf8("vproxy"@);
    assert(encode_utf8("vproxy"@) =~= exe_name());
}

// ----- the process manager -----

/// The manager label of a process.
#[derive(Clone, Copy, PartialEq, Eq, Structural, Debug)]
pub enum Manager {
    /// Started by the daemon itself.
    Daemon,
    /// Run under PM2.
    Pm2,
    /// Started by hand.
    Direct,
}

impl Manager {
    /// The text of the label.
    pub open spec fn text(self) -> Seq<char> {
        match self {
            Manager::Daemon => "daemon"@,
            Manager::Pm2 => "pm2"@,
            Manager::Direct => "direct"@,
        }
    }

    /// Returns the text of the label.
    pub fn as_str(self) -> (r: &'static str)
        ensures
            r@ == self.text(),
    {
        match self {
            Manager::Daemon => "daemon",
            Manager::Pm2 => "pm2",
            Manager::Direct => "direct",
        }
    }
}

/// `b` with an upper-case ASCII letter made lower-case.
pub open spec fn ascii_lower(b: u8) -> u8 {
    if 65 <= b <= 90 {
        (b + 32) as u8
    } else {
        b
    }
}

/// The three bytes of `b` from `i` on are `pm2`, in upper or lower case.
pub open spec fn marker_at(b: Seq<u8>, i: int) -> bool {
    &&& 0 <= i
    &&& i + 3 <= b.len()
    &&& ascii_lower(b[i]) == 112u8
    &&& ascii_lower(b[i + 1]) == 109u8
    &&& b[i + 2] == 50u8
}

/// `pm2` occurs in `b`, in upper or lower case.
pub open spec fn has_marker(b: Seq<u8>) -> bool {
    exists|i: int| marker_at(b, i)
}

/// `pm2` occurs in one of the arguments.
pub open spec fn cmdline_marked(cmd: Seq<String>) -> bool {
    exists|k: int| 0 <= k < cmd.len() && has_marker(encode_utf8((#[trigger] cmd[k])@))
}

/// The three characters of `s` from `i` on are `pm2`, in upper or lower case.
pub open spec fn text_marker_at(s: Seq<char>, i: int) -> bool {
    &&& 0 <= i
    &&& i + 3 <= s.len()
    &&& s[i] == 'p' || s[i] == 'P'
    &&& s[i + 1] == 'm' || s[i + 1] == 'M'
    &&& s[i + 2] == '2'
}

proof fn lemma_encode_scalar_bytes(c: char)
    ensures
        encode_scalar(c as u32).len() >= 1,
        (c as u32) < 0x80 ==> encode_scalar(c as u32) == seq![c as u8],
        (c as u32) >= 0x80 ==> forall|k: int|
            0 <= k < encode_scalar(c as u32).len() ==> #[trigger] encode_scalar(c as u32)[k] >= 0x80,
{
    let v = c as u32;
    vstd::utf8::char_is_scalar(c);
    if v < 0x80 {
        assert((v & 0x7F) as u8 == v as u8) by (bit_vector)
            requires
                v < 0x80,
        ;
    } else {
        assert(0xC0 | ((v >> 6) & 0x1F) as u8 >= 0x80u8) by (bit_vector);
        assert(0xE0 | ((v >> 12) & 0x0F) as u8 >= 0x80u8) by (bit_vector);
        assert(0xF0 | ((v >> 18) & 0x7) as u8 >= 0x80u8) by (bit_vector);
        assert(0x80 | (v & 0x3F) as u8 >= 0x80u8) by (bit_vector);
        assert(0x80 | ((v >> 6) & 0x3F) as u8 >= 0x80u8) by (bit_vector);
        assert(0x80 | ((v >> 12) & 0x3F) as u8 >= 0x80u8) by (bit_vector);
    }
}

proof fn lemma_ascii_char(c: char, b: u8)
    requires
        (c as u32) < 0x80,
        c as u8 == b,
    ensures
        c == b as char,
{
}

proof fn lemma_ascii_head(s: Seq<char>)
    requires
        encode_utf8(s).len() > 0,
        encode_utf8(s)[0] < 0x80,
    ensures
        s.len() > 0,
        (s[0] as u32) < 0x80,
        encode_utf8(s)[0] == s[0] as u8,
        encode_utf8(s.drop_first()) == encode_utf8(s).drop_first(),
{
    lemma_encode_scalar_bytes(s[0]);
    assert(encode_utf8(s)[0] == encode_scalar(s[0] as u32)[0]);
    assert(encode_utf8(s).drop_first() =~= encode_utf8(s.drop_first()));
}

proof fn lemma_text_marker_encoded(s: Seq<char>, i: int)
    requires
        text_marker_at(s, i),
    ensures
        has_marker(encode_utf8(s)),
    decreases s.len(),
{
    let b = encode_utf8(s);
    lemma_encode_scalar_bytes(s[0]);
    if i == 0 {
        let s1 = s.drop_first();
        let s2 = s1.drop_first();
        lemma_encode_scalar_bytes(s1[0]);
        lemma_encode_scalar_bytes(s2[0]);
        assert(encode_utf8(s2)[0] == s2[0] as u8);
        assert(encode_utf8(s1)[0] == s1[0] as u8);
        assert(encode_utf8(s1)[1] == encode_utf8(s2)[0]);
        assert(b[1] == encode_utf8(s1)[0]);
        assert(b[2] == encode_utf8(s1)[1]);
        assert(marker_at(b, 0));
    } else {
        let rest = s.drop_first();
        assert(text_marker_at(rest, i - 1));
        lemma_text_marker_encoded(rest, i - 1);
        let j = choose|j: int| marker_at(encode_utf8(rest), j);
        let shift = encode_scalar(s[0] as u32).len() as int;
        assert(b[j + shift] == encode_utf8(rest)[j]);
        assert(b[j + 1 + shift] == encode_utf8(rest)[j + 1]);
        assert(b[j + 2 + shift] == encode_utf8(rest)[j + 2]);
        assert(marker_at(b, j + shift));
    }
}

proof fn lemma_encoded_marker_in_text(s: Seq<char>, j: int)
    requires
        marker_at(encode_utf8(s), j),
    ensures
        exists|i: int| text_marker_at(s, i),
    decreases s.len(),
{
    let b = encode_utf8(s);
    lemma_encode_scalar_bytes(s[0]);
    let first = encode_scalar(s[0] as u32);
    let rest = s.drop_first();
    if j < first.len() {
        assert(b[j] == first[j]);
        lemma_ascii_head(s);
        assert(b.drop_first()[0] == b[1]);
        lemma_ascii_head(rest);
        assert(encode_utf8(rest).drop_first()[0] == b[2]);
        lemma_ascii_head(rest.drop_first());
        lemma_ascii_char(s[0], b[0]);
        lemma_ascii_char(s[1], b[1]);
        lemma_ascii_char(s[2], b[2]);
        assert(text_marker_at(s, 0));
    } else {
        let k = j - first.len();
        assert(b[j] == encode_utf8(rest)[k]);
        assert(b[j + 1] == encode_utf8(rest)[k + 1]);
        assert(b[j + 2] == encode_utf8(rest)[k + 2]);
        assert(marker_at(encode_utf8(rest), k));
        lemma_encoded_marker_in_text(rest, k);
        let i = choose|i: int| text_marker_at(rest, i);
        assert(text_marker_at(s, i + 1));
    }
}

/// The search through the bytes of an argument finds the marker exactly where
/// its characters hold it: no character outside ASCII can fake or hide one.
pub proof fn law_marker_is_textual(s: Seq<char>)
    ensures
        has_marker(encode_utf8(s)) <==> exists|i: int| text_marker_at(s, i),
{
    if has_marker(encode_utf8(s)) {
        lemma_encoded_marker_in_text(s, choose|j: int| marker_at(encode_utf8(s), j));
    }
    if exists|i: int| text_marker_at(s, i) {
        lemma_text_marker_encoded(s, choose|i: int| text_marker_at(s, i));
    }
}

/// A command line mentions PM2 exactly if a part of it does, wherever it is cut.
pub proof fn law_marker_search_joins(a: Seq<String>, b: Seq<String>)
    ensures
        cmdline_marked(a + b) <==> cmdline_marked(a) || cmdline_marked(b),
{
    let cmd = a + b;
    if cmdline_marked(cmd) {
        let k = choose|k: int|
            0 <= k < cmd.len() && has_marker(encode_utf8((#[trigger] cmd[k])@));
        if k < a.len() {
            assert(has_marker(encode_utf8(a[k]@)));
        } else {
            assert(has_marker(encode_utf8(b[k - a.len()]@)));
        }
    }
    if cmdline_marked(a) {
        let k = choose|k: int| 0 <= k < a.len() && has_marker(encode_utf8((#[trigger] a[k])@));
        assert(cmd[k] == a[k]);
    }
    if cmdline_marked(b) {
        let k = choose|k: int| 0 <= k < b.len() && has_marker(encode_utf8((#[trigger] b[k])@));
        assert(cmd[a.len() + k] == b[k]);
    }
}

/// One argument mentions PM2 exactly if its characters `p`, `m` and `2` stand next to
/// each other somewhere, the letters in either case; no arguments mention nothing.
pub proof fn law_marker_in_one_argument(arg: String)
    ensures
        cmdline_marked(seq![arg]) <==> exists|i: int|
            #![trigger arg@[i]]
            {
                &&& 0 <= i < arg@.len() - 2
                &&& arg@[i] == 'p' || arg@[i] == 'P'
                &&& arg@[i + 1] == 'm' || arg@[i + 1] == 'M'
                &&& arg@[i + 2] == '2'
            },
        !cmdline_marked(Seq::empty()),
{
    let cmd = seq![arg];
    law_marker_is_textual(arg@);
    assert(cmd[0] == arg);
    assert(cmdline_marked(cmd) <==> has_marker(encode_utf8(arg@)));
    if exists|i: int| text_marker_at(arg@, i) {
        let i = choose|i: int| text_marker_at(arg@, i);
        assert(arg@[i] == 'p' || arg@[i] == 'P');
    }
    if exists|i: int|
        #![trigger arg@[i]]
        {
            &&& 0 <= i < arg@.len() - 2
            &&& arg@[i] == 'p' || arg@[i] == 'P'
            &&& arg@[i + 1] == 'm' || arg@[i + 1] == 'M'
            &&& arg@[i + 2] == '2'
        } {
        let i = choose|i: int|
            #![trigger arg@[i]]
            {
                &&& 0 <= i < arg@.len() - 2
                &&& arg@[i] == 'p' || arg@[i] == 'P'
                &&& arg@[i + 1] == 'm' || arg@[i + 1] == 'M'
                &&& arg@[i + 2] == '2'
            };
        assert(text_marker_at(arg@, i));
    }
}

/// The two differ in the case of ASCII letters at most.
pub open spec fn same_but_for_case(a: Seq<u8>, b: Seq<u8>) -> bool {
    &&& a.len() == b.len()
    &&& forall|i: int| 0 <= i < a.len() ==> ascii_lower(#[trigger] a[i]) == ascii_lower(b[i])
}

proof fn lemma_marker_ignores_case(a: Seq<u8>, b: Seq<u8>)
    requires
        same_but_for_case(a, b),
        has_marker(a),
    ensures
        has_marker(b),
{
    let i = choose|i: int| marker_at(a, i);
    assert(ascii_lower(a[i]) == ascii_lower(b[i]));
    assert(ascii_lower(a[i + 1]) == ascii_lower(b[i + 1]));
    assert(ascii_lower(a[i + 2]) == ascii_lower(b[i + 2]));
    assert(marker_at(b, i));
}

/// The search for the marker ignores the case of ASCII letters: command lines
/// that differ in nothing else both mention PM2, or neither does.
pub proof fn law_marker_ignores_case(a: Seq<String>, b: Seq<String>)
    requires
        a.len() == b.len(),
        forall|k: int|
            0 <= k < a.len() ==> same_but_for_case(
                encode_utf8((#[trigger] a[k])@),
                encode_utf8(b[k]@),
            ),
    ensures
        cmdline_marked(a) <==> cmdline_marked(b),
{
    if cmdline_marked(a) {
        let k = choose|k: int| 0 <= k < a.len() && has_marker(encode_utf8((#[trigger] a[k])@));
        lemma_marker_ignores_case(encode_utf8(a[k]@), encode_utf8(b[k]@));
    }
    if cmdline_marked(b) {
        let k = choose|k: int| 0 <= k < b.len() && has_marker(encode_utf8((#[trigger] b[k])@));
        assert(same_but_for_case(encode_utf8(a[k]@), encode_utf8(b[k]@)));
        assert(same_but_for_case(encode_utf8(b[k]@), encode_utf8(a[k]@))) by {
            assert forall|i: int| 0 <= i < encode_utf8(b[k]@).len() implies ascii_lower(
                #[trigger] encode_utf8(b[k]@)[i],
            ) == ascii_lower(encode_utf8(a[k]@)[i]) by {
                assert(ascii_lower(encode_utf8(a[k]@)[i]) == ascii_lower(encode_utf8(b[k]@)[i]));
            }
        }
        lemma_marker_ignores_case(encode_utf8(b[k]@), encode_utf8(a[k]@));
    }
}

fn bytes_have_marker(b: &[u8]) -> (r: bool)
    ensures
        r == has_marker(b@),
{
    if b.len() < 3 {
        return false;
    }
    let mut i: usize = 0;
    while i <= b.len() - 3
        invariant
            3 <= b@.len(),
            0 <= i <= b@.len() - 2,
            forall|j: int| 0 <= j < i ==> !marker_at(b@, j),
        decreases b@.len() - i,
    {
        let p = b[i];
        let m = b[i + 1];
        if (p == 112 || p == 80) && (m == 109 || m == 77) && b[i + 2] == 50 {
            assert(marker_at(b@, i as int));
            return true;
        }
        assert(!marker_at(b@, i as int));
        i += 1;
    }
    false
}

/// Whether some argument of a command line mentions PM2.
pub fn cmdline_has_pm2_marker(cmd: &Vec<String>) -> (r: bool)
    ensures
        r == cmdline_marked(cmd@),
{
    let mut k: usize = 0;
    while k < cmd.len()
        invariant
            0 <= k <= cmd@.len(),
            forall|j: int| 0 <= j < k ==> !has_marker(encode_utf8((#[trigger] cmd@[j])@)),
        decreases cmd@.len() - k,
    {
        if bytes_have_marker(cmd[k].as_str().as_bytes()) {
            return true;
        }
        k += 1;
    }
    false
}

/// How many generations of ancestors are looked at.
pub const MAX_ANCESTORS: u32 = 16;

/// The `k`-th ancestor of `p`, as far as the table knows it; `p` is its own 0th.
pub open spec fn ancestor(table: Map<u32, ProcessInfo>, p: ProcessInfo, k: nat) -> Option<
    ProcessInfo,
>
    decreases k,
{
    if k == 0 {
        Some(p)
    } else {
        match ancestor(table, p, (k - 1) as nat) {
            Some(a) => match a.parent {
                Some(pid) => if table.contains_key(pid) {
                    Some(table[pid])
                } else {
                    None
                },
                None => None,
            },
            None => None,
        }
    }
}

pub open spec fn marked_ancestor(table: Map<u32, ProcessInfo>, p: ProcessInfo, k: nat) -> bool {
    ancestor(table, p, k) matches Some(a) && cmdline_marked(a.cmd@)
}

/// `p` or one of its nearest sixteen ancestors mentions PM2 in its command line.
pub open spec fn under_pm2(table: Map<u32, ProcessInfo>, p: ProcessInfo) -> bool {
    exists|k: nat| k <= MAX_ANCESTORS && #[trigger] marked_ancestor(table, p, k)
}

proof fn lemma_no_ancestor_beyond(
    table: Map<u32, ProcessInfo>,
    p: ProcessInfo,
    k: nat,
    further: nat,
)
    requires
        ancestor(table, p, k) is None,
        k <= further,
    ensures
        ancestor(table, p, further) is None,
    decreases further,
{
    if k < further {
        lemma_no_ancestor_beyond(table, p, k, (further - 1) as nat);
    }
}

/// Whether a process runs under PM2.
pub fn managed_by_pm2(sys: &ProcessTable, proc: &ProcessInfo) -> (r: bool)
    ensures
        r == under_pm2(sys@, *proc),
{
    if cmdline_has_pm2_marker(&proc.cmd) {
        assert(marked_ancestor(sys@, *proc, 0));
        return true;
    }
    assert(ancestor(sys@, *proc, 0) == Some(*proc));
    let mut current: &ProcessInfo = proc;
    let mut i: u32 = 0;
    while i < MAX_ANCESTORS
        invariant
            i <= MAX_ANCESTORS,
            ancestor(sys@, *proc, i as nat) == Some(*current),
            forall|k: nat| k <= i ==> !#[trigger] marked_ancestor(sys@, *proc, k),
        decreases MAX_ANCESTORS - i,
    {
        let parent: Option<&ProcessInfo> = match current.parent {
            Some(ppid) => sys.process(ppid),
            None => None,
        };
        match parent {
            Some(p) => {
                assert(ancestor(sys@, *proc, (i + 1) as nat) == Some(*p));
                if cmdline_has_pm2_marker(&p.cmd) {
                    assert(marked_ancestor(sys@, *proc, (i + 1) as nat));
                    return true;
                }
                current = p;
                i += 1;
            },
            None => {
                assert(ancestor(sys@, *proc, (i + 1) as nat) is None);
                proof {
                    assert forall|k: nat| !#[trigger] marked_ancestor(sys@, *proc, k) by {
                        if k > i {
                            lemma_no_ancestor_beyond(sys@, *proc, (i + 1) as nat, k);
                        }
                    }
                }
                return false;
            },
        }
    }
    false
}

/// The manager of the process `pid`: the daemon if the pid file names it, else
/// PM2 if it runs under PM2.
pub open spec fn manager_of(
    table: Map<u32, ProcessInfo>,
    pid: u32,
    proc: ProcessInfo,
    pidfile_pid: Option<u32>,
) -> Manager {
    if pidfile_pid == Some(pid) {
        Manager::Daemon
    } else if under_pm2(table, proc) {
        Manager::Pm2
    } else {
        Manager::Direct
    }
}

/// Labels a process with its manager.
pub fn manager_label(
    sys: &ProcessTable,
    pid: u32,
    proc: &ProcessInfo,
    pidfile_pid: Option<u32>,
) -> (r: Manager)
    ensures
        r == manager_of(sys@, pid, *proc, pidfile_pid),
{
    if let Some(p) = pidfile_pid {
        if p == pid {
            return Manager::Daemon;
        }
    }
    if managed_by_pm2(sys, proc) {
        return Manager::Pm2;
    }
    Manager::Direct
}

// ----- laws on the manager -----

/// `line` is a line of descent in the table, from `p` upwards: each process in it is
/// followed by the one that it has for a parent.
pub open spec fn is_descent(
    table: Map<u32, ProcessInfo>,
    p: ProcessInfo,
    line: Seq<ProcessInfo>,
) -> bool {
    &&& line.len() > 0
    &&& line[0] == p
    &&& forall|k: int|
        0 <= k < line.len() - 1 ==> {
            &&& (#[trigger] line[k]).parent matches Some(pid)
            &&& table.contains_key(pid)
            &&& table[pid] == line[k + 1]
        }
}

proof fn lemma_descent_is_ancestry(
    table: Map<u32, ProcessInfo>,
    p: ProcessInfo,
    line: Seq<ProcessInfo>,
    k: nat,
)
    requires
        is_descent(table, p, line),
        k < line.len(),
    ensures
        ancestor(table, p, k) == Some(line[k as int]),
    decreases k,
{
    if k > 0 {
        lemma_descent_is_ancestry(table, p, line, (k - 1) as nat);
        assert(line[k - 1].parent is Some);
    }
}

proof fn lemma_ancestry_has_descent(
    table: Map<u32, ProcessInfo>,
    p: ProcessInfo,
    k: nat,
) -> (line: Seq<ProcessInfo>)
    requires
        ancestor(table, p, k) is Some,
    ensures
        is_descent(table, p, line),
        line.len() == k + 1,
        ancestor(table, p, k) == Some(line.last()),
    decreases k,
{
    if k == 0 {
        seq![p]
    } else {
        let shorter = lemma_ancestry_has_descent(table, p, (k - 1) as nat);
        let line = shorter.push(ancestor(table, p, k)->0);
        assert forall|j: int| 0 <= j < line.len() - 1 implies {
            &&& (#[trigger] line[j]).parent matches Some(pid)
            &&& table.contains_key(pid)
            &&& table[pid] == line[j + 1]
        } by {
            assert(line[j] == shorter[j]);
            if j < shorter.len() - 1 {
                assert(line[j + 1] == shorter[j + 1]);
            }
        }
        line
    }
}

/// A process whose own command line mentions PM2, or that of its parent, or of one of
/// its ancestors up to the sixteenth, runs under PM2.
pub proof fn law_descendants_of_pm2(
    table: Map<u32, ProcessInfo>,
    p: ProcessInfo,
    line: Seq<ProcessInfo>,
)
    requires
        is_descent(table, p, line),
        line.len() <= 17,
        cmdline_marked(line.last().cmd@),
    ensures
        under_pm2(table, p),
{
    let k = (line.len() - 1) as nat;
    lemma_descent_is_ancestry(table, p, line, k);
    assert(marked_ancestor(table, p, k));
}

/// A process under PM2 descends, within sixteen generations, from one whose command
/// line mentions it.
pub proof fn law_pm2_is_an_ancestor(table: Map<u32, ProcessInfo>, p: ProcessInfo)
    requires
        under_pm2(table, p),
    ensures
        exists|line: Seq<ProcessInfo>| #[trigger]
            is_descent(table, p, line) && line.len() <= 17 && cmdline_marked(line.last().cmd@),
{
    let k = choose|k: nat| k <= MAX_ANCESTORS && #[trigger] marked_ancestor(table, p, k);
    let line = lemma_ancestry_has_descent(table, p, k);
    assert(is_descent(table, p, line));
}

/// The pid file goes first, then PM2: the process that the pid file names is the
/// daemon, whoever its ancestors are; any other is labelled by whether it runs under
/// PM2.
pub proof fn law_manager_by_pid_file_then_pm2(
    table: Map<u32, ProcessInfo>,
    pid: u32,
    proc: ProcessInfo,
    pidfile_pid: Option<u32>,
)
    ensures
        manager_of(table, pid, proc, pidfile_pid) == Manager::Daemon <==> pidfile_pid == Some(pid),
        manager_of(table, pid, proc, pidfile_pid) == Manager::Pm2 <==> pidfile_pid != Some(pid)
            && under_pm2(table, proc),
        manager_of(table, pid, proc, pidfile_pid) == Manager::Direct <==> pidfile_pid != Some(pid)
            && !under_pm2(table, proc),
{
}

} // verus!
