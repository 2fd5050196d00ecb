use openvtc::clipboard::{
    copy_with, emit_osc52_to, format_osc52, is_ssh_environment_with, CopyMethod,
    MAX_PAYLOAD_BYTES,
};
use std::collections::HashMap;

fn env(map: &[(&str, &str)]) -> impl Fn(&str) -> Option<String> {
    let owned: HashMap<String, String> =
        map.iter().map(|(k, v)| ((*k).into(), (*v).into())).collect();
    move |k| owned.get(k).cloned()
}

#[test]
fn ssh_env_detected_via_ssh_connection() {
    assert!(is_ssh_environment_with(env(&[(
        "SSH_CONNECTION",
        "10.0.0.1 22 10.0.0.2 5000",
    )])));
}

#[test]
fn ssh_env_detected_via_ssh_tty() {
    assert!(is_ssh_environment_with(env(&[("SSH_TTY", "/dev/pts/3")])));
}

#[test]
fn ssh_env_detected_via_ssh_client() {
    assert!(is_ssh_environment_with(env(&[(
        "SSH_CLIENT",
        "10.0.0.1 5000 22"
    )])));
}

#[test]
fn ssh_env_returns_false_when_no_vars_set() {
    assert!(!is_ssh_environment_with(env(&[])));
}

#[test]
fn ssh_env_ignores_empty_string_values() {
    assert!(!is_ssh_environment_with(env(&[("SSH_CONNECTION", "")])));
}

#[test]
fn osc52_format_uses_st_terminator() {
    let s = format_osc52("hi");
    assert!(s.starts_with("\x1b]52;c;"));
    assert!(s.ends_with("\x1b\\"));
    assert!(s.contains("aGk="));
}

#[test]
fn osc52_emits_to_writer() {
    let mut buf: Vec<u8> = Vec::new();
    emit_osc52_to("hi", &mut buf);
    let written = String::from_utf8(buf).unwrap();
    assert_eq!(written, format_osc52("hi"));
}

#[test]
fn osc52_appends_after_what_is_there() {
    let mut buf: Vec<u8> = b"before".to_vec();
    emit_osc52_to("", &mut buf);
    assert_eq!(String::from_utf8(buf).unwrap(), "before\x1b]52;c;\x1b\\");
}

#[test]
fn dispatch_on_ssh_tries_osc52_first() {
    let result = copy_with(
        "test",
        true,
        |_| Err("arboard would have been called".into()),
        |_| Ok(()),
    );
    assert_eq!(result, Ok(CopyMethod::Osc52));
}

#[test]
fn dispatch_on_ssh_falls_back_to_arboard_when_osc52_fails() {
    let result = copy_with(
        "test",
        true,
        |_| Ok(()),
        |_| Err("terminal does not support OSC 52".into()),
    );
    assert_eq!(result, Ok(CopyMethod::Arboard));
}

#[test]
fn dispatch_locally_tries_arboard_first() {
    let result = copy_with(
        "test",
        false,
        |_| Ok(()),
        |_| Err("osc52 would have been called".into()),
    );
    assert_eq!(result, Ok(CopyMethod::Arboard));
}

#[test]
fn dispatch_locally_falls_back_to_osc52_when_arboard_fails() {
    let result = copy_with(
        "test",
        false,
        |_| Err("no clipboard daemon".into()),
        |_| Ok(()),
    );
    assert_eq!(result, Ok(CopyMethod::Osc52));
}

#[test]
fn dispatch_returns_combined_err_when_both_methods_fail() {
    let err = copy_with(
        "test",
        true,
        |_| Err("no clipboard daemon".into()),
        |_| Err("OSC 52 not supported".into()),
    )
    .unwrap_err();
    assert!(err.contains("OSC 52: OSC 52 not supported"));
    assert!(err.contains("arboard: no clipboard daemon"));
}

#[test]
fn failures_are_named_in_the_order_of_the_attempts() {
    let local = copy_with("t", false, |_| Err("a".into()), |_| Err("b".into()));
    assert_eq!(local, Err("arboard: a; OSC 52: b".to_string()));
    let remote = copy_with("t", true, |_| Err("a".into()), |_| Err("b".into()));
    assert_eq!(remote, Err("OSC 52: b; arboard: a".to_string()));
}

#[test]
fn dispatch_rejects_oversized_payload() {
    let huge = "x".repeat(MAX_PAYLOAD_BYTES + 1);
    let err = copy_with(
        &huge,
        true,
        |_| panic!("arboard called despite oversized payload"),
        |_| panic!("osc52 called despite oversized payload"),
    )
    .unwrap_err();
    assert!(err.contains("exceeds"));
    assert!(err.contains(&MAX_PAYLOAD_BYTES.to_string()));
}

#[test]
fn a_payload_at_the_cap_is_copied() {
    let full = "x".repeat(MAX_PAYLOAD_BYTES);
    let result = copy_with(&full, false, |_| Ok(()), |_| Ok(()));
    assert_eq!(result, Ok(CopyMethod::Arboard));
}

#[test]
fn copy_method_label_is_operator_friendly() {
    assert_eq!(CopyMethod::Osc52.label(), "OSC 52 (terminal)");
    assert_eq!(CopyMethod::Arboard.label(), "system clipboard");
}

#[test]
fn the_second_way_is_left_alone_when_the_first_succeeds() {
    let local = copy_with("t", false, |_| Ok(()), |_| panic!("the terminal was tried"));
    assert_eq!(local, Ok(CopyMethod::Arboard));
    let remote = copy_with("t", true, |_| panic!("the system was tried"), |_| Ok(()));
    assert_eq!(remote, Ok(CopyMethod::Osc52));
}
