use std::path::Path;

use vproxy::process::{
    cmdline_has_pm2_marker, file_name, is_vproxy_process, managed_by_pm2, manager_label,
    vproxy_exe_name, Manager, ProcessInfo, ProcessTable,
};

fn process(name: &str, exe: Option<&str>, cmd: &[&str], parent: Option<u32>) -> ProcessInfo {
    ProcessInfo {
        parent,
        name: name.as_bytes().to_vec(),
        exe: exe.map(|path| path.as_bytes().to_vec()),
        cmd: cmd.iter().map(|arg| arg.to_string()).collect(),
        memory: 0,
        run_time: 0,
    }
}

fn args(cmd: &[&str]) -> Vec<String> {
    cmd.iter().map(|arg| arg.to_string()).collect()
}

#[test]
fn file_names_are_those_of_std() {
    let paths = [
        "", "/", "//", ".", "..", "/.", "/..", "a", "/a", "a/", "a//", "a/.", "a/./", "a/.//", "a/..",
        "a/../", "./a", "../a", "/usr/local/bin/vproxy", "/usr/local/bin/vproxy/", "vproxy/..",
        "/opt/vproxy.d/vproxy", "...", "a/...", "a/.b", "./.", "./", "/usr//bin/./vproxy/.",
    ];
    for path in paths {
        let expected = Path::new(path).file_name().map(|name| name.to_str().unwrap().as_bytes());
        assert_eq!(file_name(path.as_bytes()), expected, "{:?}", path);
    }
    assert_eq!(file_name(b"/tmp/\xff\xfe"), Some(&b"\xff\xfe"[..]));
}

#[test]
fn recognises_vproxy() {
    assert_eq!(vproxy_exe_name(), b"vproxy");
    assert!(is_vproxy_process(&process("vproxy", None, &[], None)));
    assert!(is_vproxy_process(&process("worker", Some("/usr/bin/vproxy"), &[], None)));
    assert!(is_vproxy_process(&process("vproxy", Some("/bin/sh"), &[], None)));
    assert!(!is_vproxy_process(&process("vproxy2", Some("/usr/bin/vproxy2"), &[], None)));
    assert!(!is_vproxy_process(&process("sh", Some("/vproxy/sh"), &[], None)));
    assert!(!is_vproxy_process(&process("sh", None, &["vproxy"], None)));
    assert!(!is_vproxy_process(&process("sh", Some("/vproxy/.."), &[], None)));
}

#[test]
fn finds_the_marker_in_any_case() {
    assert!(cmdline_has_pm2_marker(&args(&["pm2"])));
    assert!(cmdline_has_pm2_marker(&args(&["node", "/usr/lib/PM2/daemon.js"])));
    assert!(cmdline_has_pm2_marker(&args(&["xpM2x"])));
    assert!(cmdline_has_pm2_marker(&args(&["é Pm2"])));
    assert!(!cmdline_has_pm2_marker(&args(&[])));
    assert!(!cmdline_has_pm2_marker(&args(&["pm", "2"])));
    assert!(!cmdline_has_pm2_marker(&args(&["", "p", "pm", "pmé2", "pm3", "0m2", "p\u{fffd}m2"])));
}

#[test]
fn the_marker_search_joins_and_ignores_case() {
    let parts = [args(&["node", "app.js"]), args(&["PM2"]), args(&["x", "/opt/pM2/bin"]), args(&[])];
    for a in &parts {
        for b in &parts {
            let joined: Vec<String> = a.iter().chain(b).cloned().collect();
            let found = cmdline_has_pm2_marker(a) || cmdline_has_pm2_marker(b);
            assert_eq!(cmdline_has_pm2_marker(&joined), found);
            let upper: Vec<String> = joined.iter().map(|arg| arg.to_ascii_uppercase()).collect();
            assert_eq!(cmdline_has_pm2_marker(&upper), found);
        }
    }
}

/// A chain of processes: 1 is the child of 2, 2 of 3, and so on.
fn chain(length: u32, marked: u32) -> ProcessTable {
    let mut table = ProcessTable::new();
    for pid in 1..=length {
        let cmd: &[&str] = if pid == marked { &["PM2 v5: God Daemon"] } else { &["sh"] };
        table.insert(pid, process("sh", None, cmd, Some(pid + 1)));
    }
    table
}

#[test]
fn sixteen_ancestors_are_looked_at() {
    let near = chain(30, 17);
    assert!(managed_by_pm2(&near, near.process(1).unwrap()));
    let far = chain(30, 18);
    assert!(!managed_by_pm2(&far, far.process(1).unwrap()));
    assert!(managed_by_pm2(&far, far.process(2).unwrap()));
    let own = chain(1, 1);
    assert!(managed_by_pm2(&own, own.process(1).unwrap()));
    let short = chain(3, 0);
    assert!(!managed_by_pm2(&short, short.process(1).unwrap()));
}

#[test]
fn a_ring_of_parents_is_no_trouble() {
    let mut table = ProcessTable::new();
    table.insert(1, process("a", None, &["a"], Some(2)));
    table.insert(2, process("b", None, &["b"], Some(1)));
    assert!(!managed_by_pm2(&table, table.process(1).unwrap()));
}

#[test]
fn the_pid_file_goes_before_pm2() {
    let table = chain(2, 2);
    let p = table.process(1).unwrap();
    assert_eq!(manager_label(&table, 1, p, Some(1)), Manager::Daemon);
    assert_eq!(manager_label(&table, 1, p, Some(2)), Manager::Pm2);
    assert_eq!(manager_label(&table, 1, p, None), Manager::Pm2);
    let plain = chain(2, 0);
    assert_eq!(manager_label(&plain, 1, plain.process(1).unwrap(), None), Manager::Direct);
    assert_eq!(Manager::Daemon.as_str(), "daemon");
    assert_eq!(Manager::Pm2.as_str(), "pm2");
    assert_eq!(Manager::Direct.as_str(), "direct");
}

#[test]
fn the_table_is_a_map() {
    let mut table = ProcessTable::new();
    assert!(table.process(7).is_none());
    table.insert(7, process("old", None, &[], None));
    table.insert(9, process("nine", None, &[], None));
    table.insert(7, process("new", None, &[], None));
    assert_eq!(table.process(7).unwrap().name, b"new");
    let mut pids = table.pids();
    pids.sort();
    assert_eq!(pids, vec![7, 9]);
}
