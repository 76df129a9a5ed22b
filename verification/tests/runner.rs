use shredring::runner::{
    boot_args, build_monitor_args, build_run_args, lookup_var, parse_vars, run_mode, Run, RunMode,
};

#[test]
fn boot_args_pin_the_tile_cpus() {
    assert_eq!(boot_args(), vec!["--tile-cpus".to_string(), "0".to_string()]);
}

#[test]
fn needs_root_when_any_flag_is_set() {
    let none = Run { clean: false, configure: false, debug: false, monitor: false };
    assert!(!none.needs_root());
    let clean = Run { clean: true, configure: false, debug: false, monitor: false };
    assert!(clean.needs_root());
    let configure = Run { clean: false, configure: true, debug: false, monitor: false };
    assert!(configure.needs_root());
    let debug = Run { clean: false, configure: false, debug: true, monitor: false };
    assert!(debug.needs_root());
    let monitor = Run { clean: false, configure: false, debug: false, monitor: true };
    assert!(monitor.needs_root());
}

#[test]
fn run_mode_decision() {
    assert_eq!(run_mode(false, false), RunMode::Foreground);
    assert_eq!(run_mode(true, false), RunMode::Foreground);
    assert_eq!(run_mode(true, true), RunMode::Foreground);
    assert_eq!(run_mode(false, true), RunMode::WithMonitor);
}

#[test]
fn parse_vars_skips_two_header_lines() {
    let text = b"  \nheader one\nheader two\nPOD=test_pod:123\nAFFINITY=0-3\n".to_vec();
    let vars = parse_vars(&text).unwrap();
    assert_eq!(vars.len(), 2);
    assert_eq!(vars[0].0, b"POD".to_vec());
    assert_eq!(vars[0].1, b"test_pod:123".to_vec());
    assert_eq!(vars[1].0, b"AFFINITY".to_vec());
    assert_eq!(vars[1].1, b"0-3".to_vec());
}

#[test]
fn parse_vars_handles_carriage_returns_and_first_equals() {
    let text = b"h1\r\nh2\r\nKEY=a=b\r\n".to_vec();
    let vars = parse_vars(&text).unwrap();
    assert_eq!(vars.len(), 1);
    assert_eq!(vars[0].0, b"KEY".to_vec());
    assert_eq!(vars[0].1, b"a=b".to_vec());
}

#[test]
fn parse_vars_rejects_a_line_without_equals() {
    let text = b"h1\nh2\nGOOD=1\nbad line\n".to_vec();
    assert!(parse_vars(&text).is_none());
}

#[test]
fn parse_vars_of_headers_alone_is_empty() {
    let text = b"h1\nh2\n".to_vec();
    assert_eq!(parse_vars(&text).unwrap().len(), 0);
    let empty = b"".to_vec();
    assert_eq!(parse_vars(&empty).unwrap().len(), 0);
}

#[test]
fn lookup_finds_the_first_match() {
    let text = b"h1\nh2\nA=1\nB=2\nA=3\n".to_vec();
    let vars = parse_vars(&text).unwrap();
    assert_eq!(lookup_var(&vars, &b"A".to_vec()), Some(b"1".to_vec()));
    assert_eq!(lookup_var(&vars, &b"B".to_vec()), Some(b"2".to_vec()));
    assert_eq!(lookup_var(&vars, &b"C".to_vec()), None);
}

#[test]
fn run_args_without_debugger() {
    let args = build_run_args(
        false,
        &String::from("pod0"),
        &String::from("cfg0"),
        &String::from("0-7"),
    );
    let expected: Vec<String> = [
        "--pod",
        "pod0",
        "--cfg",
        "cfg0",
        "--log-app",
        "cfg0",
        "--log-thread",
        "main",
        "--tile-cpus",
        "0-7",
    ]
    .iter()
    .map(|s| s.to_string())
    .collect();
    assert_eq!(args, expected);
}

#[test]
fn run_args_with_debugger_prefix() {
    let args = build_run_args(
        true,
        &String::from("pod0"),
        &String::from("cfg0"),
        &String::from("1"),
    );
    assert_eq!(args.len(), 12);
    assert_eq!(args[0], "gdb");
    assert_eq!(args[1], "--args");
    assert_eq!(args[2], "--pod");
    assert_eq!(args[3], "pod0");
    assert_eq!(args[11], "1");
}

#[test]
fn monitor_args_run_for_a_thousand_years() {
    let args = build_monitor_args(&String::from("podX"), &String::from("nameX"));
    let expected: Vec<String> = [
        "--pod",
        "podX",
        "--cfg",
        "nameX",
        "--log-app",
        "nameX",
        "--log-thread",
        "mon",
        "--duration",
        "31536000000000000",
    ]
    .iter()
    .map(|s| s.to_string())
    .collect();
    assert_eq!(args, expected);
}
