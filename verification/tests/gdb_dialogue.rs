use calico::gdb::{
    monitor_command, on_monitor_line, on_startup_line, on_target_line, starts_with,
    target_select_command,
};

#[test]
fn prefix_check() {
    assert!(starts_with("(gdb) ", "(gdb)"));
    assert!(starts_with("abc", ""));
    assert!(!starts_with("(gd", "(gdb)"));
    assert!(!starts_with("x(gdb)", "(gdb)"));
}

#[test]
fn startup_lines() {
    let r = on_startup_line("=thread-group-added,id=\"i1\"");
    assert!(!r.done);
    assert_eq!(r.messages, vec!["GDB responded: `=thread-group-added,id=\"i1\"`".to_string()]);
    let r = on_startup_line("(gdb) ");
    assert!(r.done);
    assert!(!r.failed);
    assert_eq!(
        r.messages,
        vec!["GDB responded: `(gdb) `".to_string(), "gdb ready".to_string()]
    );
}

#[test]
fn target_lines() {
    let r = on_target_line("^connected,frame={}");
    assert!(!r.done);
    assert!(!r.failed);
    assert_eq!(r.messages, vec!["connected to target!".to_string()]);
    let r = on_target_line("^error,msg=\"no\"");
    assert!(!r.done);
    assert!(r.failed);
    assert_eq!(r.messages, vec!["failed to connect to target!".to_string()]);
    let r = on_target_line("(gdb)");
    assert!(r.done);
    assert!(!r.failed);
    assert_eq!(r.messages, vec!["(gdb)".to_string()]);
    let r = on_target_line("~\"hello\"");
    assert!(!r.done);
    assert_eq!(r.messages, vec!["unexpected output: ~\"hello\"".to_string()]);
}

#[test]
fn monitor_lines() {
    let r = on_monitor_line("(gdb)");
    assert!(r.done);
    assert_eq!(r.messages, vec!["(gdb)".to_string()]);
    let r = on_monitor_line("@\"Target voltage: 3.3V\"");
    assert!(!r.done);
    assert_eq!(r.messages, vec!["@\"Target voltage: 3.3V\"".to_string()]);
    let r = on_monitor_line("^error,msg=\"x\"");
    assert!(!r.failed);
    let r = on_monitor_line("&\"monitor tpwr\"");
    assert_eq!(r.messages, vec!["debug: &\"monitor tpwr\"".to_string()]);
}

#[test]
fn commands() {
    assert_eq!(
        target_select_command("/dev/ttyACM0"),
        "-target-select extended-remote /dev/ttyACM0\n"
    );
    assert_eq!(monitor_command(&None), "monitor\n");
    assert_eq!(
        monitor_command(&Some(vec!["tpwr".to_string(), "enable".to_string()])),
        "monitor tpwr enable\n"
    );
    assert_eq!(monitor_command(&Some(vec![])), "monitor\n");
}
