use pam::{parse_env_line, PamEnvList};

fn pair(k: &str, v: &str) -> (Vec<u8>, Vec<u8>) {
    (k.as_bytes().to_vec(), v.as_bytes().to_vec())
}

#[test]
fn env_line_splits_at_first_equals() {
    assert_eq!(parse_env_line(b"HOME=/home/a"), Some(pair("HOME", "/home/a")));
    assert_eq!(parse_env_line(b"A=b=c"), Some(pair("A", "b=c")));
    assert_eq!(parse_env_line(b"A="), Some(pair("A", "")));
}

#[test]
fn env_line_name_may_start_with_equals() {
    assert_eq!(parse_env_line(b"=A=b"), Some(pair("=A", "b")));
}

#[test]
fn env_line_malformed_is_skipped() {
    assert_eq!(parse_env_line(b""), None);
    assert_eq!(parse_env_line(b"NOVALUE"), None);
    assert_eq!(parse_env_line(b"="), None);
}

#[test]
fn env_list_keeps_order_and_skips_malformed() {
    let lines = vec![
        b"USER=alice".to_vec(),
        b"broken".to_vec(),
        b"SHELL=/bin/sh".to_vec(),
        Vec::new(),
    ];
    let mut list = PamEnvList::from_lines(&lines);
    assert_eq!(list.len(), 2);
    assert_eq!(list.next(), Some(pair("USER", "alice")));
    assert_eq!(list.len(), 1);
    assert_eq!(list.next(), Some(pair("SHELL", "/bin/sh")));
    assert_eq!(list.next(), None);
    assert_eq!(list.len(), 0);
}
