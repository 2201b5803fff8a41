use vdr::procfs::{proc_path, proc_text, read_hostname, strip_deleted};
use vdr::{read_proc_string, resolve_exe_path};

#[test]
fn link_target_wins() {
    assert_eq!(resolve_exe_path(Some(b"/usr/bin/app"), "!other"), "/usr/bin/app");
    assert_eq!(resolve_exe_path(Some(b"/usr/bin/a!b"), ""), "/usr/bin/a!b");
}

#[test]
fn deleted_mark_is_stripped_once() {
    assert_eq!(resolve_exe_path(Some(b"/tmp/x (deleted)"), ""), "/tmp/x");
    assert_eq!(resolve_exe_path(Some(b"/tmp/x (deleted) (deleted)"), ""), "/tmp/x (deleted)");
    assert_eq!(strip_deleted("/tmp/x (deleted)"), "/tmp/x");
    assert_eq!(strip_deleted("/tmp/x"), "/tmp/x");
}

#[test]
fn link_target_need_not_be_utf8() {
    assert_eq!(resolve_exe_path(Some(b"/tmp/\xff\xc3\xa9 (deleted)"), ""), "/tmp/\u{fffd}\u{e9}");
}

#[test]
fn kernel_argument_gets_its_slashes_back() {
    assert_eq!(resolve_exe_path(None, "!usr!bin!app"), "/usr/bin/app");
    assert_eq!(resolve_exe_path(None, ""), "");
    let path = "/opt/tool/bin/x (deleted)";
    assert_eq!(resolve_exe_path(None, &path.replace('/', "!")), path);
}

#[test]
fn cmdline_arguments_are_separated_by_spaces() {
    let r = read_proc_string("cmdline", Some(b"/bin/app\0--flag\0a b\0"));
    assert_eq!(r, Some("/bin/app --flag a b".to_string()));
    assert_eq!(read_proc_string("cmdline", Some(b"")), Some(String::new()));
    assert_eq!(read_proc_string("cmdline", Some(b"x\xff\0")), Some("x\u{fffd}".to_string()));
}

#[test]
fn valid_utf8_is_decoded_as_it_stands() {
    let text = "/opt/\u{e9}\u{20ac}\u{1f980}/x";
    assert_eq!(resolve_exe_path(Some(text.as_bytes()), ""), text);
    assert_eq!(read_proc_string("comm", Some(text.as_bytes())), Some(text.to_string()));
    assert_eq!(read_proc_string("comm", Some(b"")), Some(String::new()));
}

#[test]
fn comm_is_trimmed() {
    assert_eq!(read_proc_string("comm", Some(b"app\n")), Some("app".to_string()));
    assert_eq!(read_proc_string("comm", Some(b"a\0b\n")), Some("a\0b".to_string()));
    assert_eq!(proc_text("comm", " x "), "x");
    assert_eq!(proc_text("cmdline", "\0x\0y\0"), "x y");
}

#[test]
fn unreadable_entry_is_none() {
    assert_eq!(read_proc_string("comm", None), None);
    assert_eq!(read_proc_string("cmdline", None), None);
}

#[test]
fn builds_proc_paths() {
    assert_eq!(proc_path(1, "exe"), "/proc/1/exe");
    assert_eq!(proc_path(4194304, "cmdline"), "/proc/4194304/cmdline");
}

#[test]
fn hostname_is_trimmed_or_empty() {
    assert_eq!(read_hostname(Some("box\n")), "box");
    assert_eq!(read_hostname(None), "");
}
