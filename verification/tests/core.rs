use lidlock::callback::{decode_state, lock_outcome_line, plan_message, PBT_POWERSETTINGCHANGE, WM_POWERBROADCAST};
use lidlock::clock::current_timestamp;
use lidlock::decimal::u32_to_decimal;
use lidlock::policy::{decide, Action};
use lidlock::startup::{
    classify_singleton, combine_subscriptions, dispatch_should_continue, resolve_log_path,
    singleton_identifier, StartupError, ERROR_ALREADY_EXISTS_CODE,
};
use lidlock::timefmt::{format_line, format_timestamp, Timestamp};
use lidlock::wide::wide_string;

fn ts(year: u32, month: u32, day: u32, hour: u32, minute: u32, second: u32) -> Timestamp {
    Timestamp { year, month, day, hour, minute, second }
}

#[test]
fn policy_zero_local_locks() {
    assert_eq!(decide(0, false), Action::Lock);
}

#[test]
fn policy_zero_remote_ignored() {
    assert_eq!(decide(0, true), Action::IgnoreRemote);
}

#[test]
fn policy_nonzero_ignored_any_session() {
    assert_eq!(decide(1, false), Action::IgnoreState);
    assert_eq!(decide(1, true), Action::IgnoreState);
    assert_eq!(decide(7, false), Action::IgnoreState);
    assert_eq!(decide(1_000_000, true), Action::IgnoreState);
    assert_eq!(decide(u32::MAX, false), Action::IgnoreState);
    assert_eq!(decide(u32::MAX, true), Action::IgnoreState);
}

#[test]
fn singleton_second_acquisition_is_already_running() {
    assert_eq!(
        classify_singleton(true, ERROR_ALREADY_EXISTS_CODE),
        Err(StartupError::AlreadyRunning)
    );
}

#[test]
fn singleton_first_acquisition_succeeds() {
    assert_eq!(classify_singleton(true, 0), Ok(()));
}

#[test]
fn singleton_failed_create_is_os_error() {
    assert_eq!(classify_singleton(false, 5), Err(StartupError::OsError(5)));
    assert_eq!(
        classify_singleton(false, ERROR_ALREADY_EXISTS_CODE),
        Err(StartupError::OsError(ERROR_ALREADY_EXISTS_CODE))
    );
}

#[test]
fn singleton_identifier_is_fixed() {
    assert_eq!(
        singleton_identifier(),
        "Global\\{3DA16D16-5F02-4CFD-8C43-11C31127889D}"
    );
}

#[test]
fn subscriptions_both_ok() {
    assert_eq!(combine_subscriptions(Ok(()), Ok(())), Ok(()));
}

#[test]
fn subscriptions_second_failure_is_fatal() {
    assert_eq!(
        combine_subscriptions(Ok(()), Err(31)),
        Err(StartupError::OsError(31))
    );
}

#[test]
fn subscriptions_first_failure_is_fatal() {
    assert_eq!(
        combine_subscriptions(Err(8), Ok(())),
        Err(StartupError::OsError(8))
    );
    assert_eq!(
        combine_subscriptions(Err(8), Err(31)),
        Err(StartupError::OsError(8))
    );
}

#[test]
fn log_path_absent_without_arguments() {
    let args = vec!["lidlock".to_string()];
    assert_eq!(resolve_log_path(&args, "/tmp/lidlock.log"), None);
    let empty: Vec<String> = Vec::new();
    assert_eq!(resolve_log_path(&empty, "/tmp/lidlock.log"), None);
}

#[test]
fn log_path_debug_flag_selects_temp_file() {
    let args = vec!["lidlock".to_string(), "--debug".to_string()];
    assert_eq!(
        resolve_log_path(&args, "/tmp/lidlock.log"),
        Some("/tmp/lidlock.log".to_string())
    );
    let late = vec![
        "lidlock".to_string(),
        "a.log".to_string(),
        "--debug".to_string(),
    ];
    assert_eq!(
        resolve_log_path(&late, "/tmp/lidlock.log"),
        Some("/tmp/lidlock.log".to_string())
    );
}

#[test]
fn log_path_positional_argument_taken_verbatim() {
    let args = vec!["lidlock".to_string(), "C:\\logs\\agent.log".to_string()];
    assert_eq!(
        resolve_log_path(&args, "/tmp/lidlock.log"),
        Some("C:\\logs\\agent.log".to_string())
    );
}

#[test]
fn log_path_empty_positional_disables_logging() {
    let args = vec!["lidlock".to_string(), "".to_string()];
    assert_eq!(resolve_log_path(&args, "/tmp/lidlock.log"), None);
}

#[test]
fn dispatch_continues_on_nonzero_retrieval() {
    assert!(dispatch_should_continue(1));
    assert!(dispatch_should_continue(-1));
    assert!(!dispatch_should_continue(0));
}

#[test]
fn decode_reads_first_four_bytes_little_endian() {
    assert_eq!(decode_state(&vec![0x78, 0x56, 0x34, 0x12]), Some(0x12345678));
    assert_eq!(decode_state(&vec![0, 0, 0, 0]), Some(0));
    assert_eq!(decode_state(&vec![7, 0, 0, 0, 0xFF, 0xFF]), Some(7));
    assert_eq!(decode_state(&vec![0xFF, 0xFF, 0xFF, 0xFF]), Some(u32::MAX));
}

#[test]
fn decode_rejects_short_payload() {
    assert_eq!(decode_state(&vec![]), None);
    assert_eq!(decode_state(&vec![1, 2, 3]), None);
}

#[test]
fn decimal_rendering_exact() {
    assert_eq!(u32_to_decimal(0), "0");
    assert_eq!(u32_to_decimal(7), "7");
    assert_eq!(u32_to_decimal(10), "10");
    assert_eq!(u32_to_decimal(409), "409");
    assert_eq!(u32_to_decimal(u32::MAX), "4294967295");
}

#[test]
fn timestamp_rendering_exact() {
    let t = ts(2024, 1, 2, 3, 4, 5);
    assert_eq!(format_timestamp(&t), "2024-01-02 03:04:05");
    let u = ts(999, 12, 31, 23, 59, 59);
    assert_eq!(format_timestamp(&u), "0999-12-31 23:59:59");
}

#[test]
fn log_line_format_exact() {
    let t = ts(2024, 1, 2, 3, 4, 5);
    assert_eq!(
        format_line(&t, "Main started"),
        "[2024-01-02 03:04:05] Main started\n"
    );
}

#[test]
fn log_lines_one_newline_each_in_call_order() {
    let t = ts(2024, 6, 7, 8, 9, 10);
    let messages = ["first", "second", "third"];
    let mut file = String::new();
    for m in messages {
        file.push_str(&format_line(&t, m));
    }
    let lines: Vec<&str> = file.split_terminator('\n').collect();
    assert_eq!(lines.len(), 3);
    assert_eq!(file.matches('\n').count(), 3);
    assert!(file.ends_with('\n'));
    for (line, m) in lines.iter().zip(messages) {
        assert_eq!(*line, format!("[2024-06-07 08:09:10] {}", m));
        let stamp = &line[1..20];
        assert_eq!(stamp.len(), 19);
        for (i, c) in stamp.chars().enumerate() {
            match i {
                4 | 7 => assert_eq!(c, '-'),
                10 => assert_eq!(c, ' '),
                13 | 16 => assert_eq!(c, ':'),
                _ => assert!(c.is_ascii_digit()),
            }
        }
    }
}

#[test]
fn clock_reports_well_formed_timestamp() {
    let now = current_timestamp();
    assert!(now.is_well_formed());
    let line = format_line(&now, "probe");
    assert_eq!(line.len(), "probe".len() + 23);
    assert!(line.starts_with('['));
    assert!(line.ends_with("] probe\n"));
}

#[test]
fn broadcast_zero_state_local_session_locks() {
    let plan = plan_message(
        WM_POWERBROADCAST,
        PBT_POWERSETTINGCHANGE,
        Some(vec![0, 0, 0, 0]),
        false,
    );
    assert!(!plan.forward_default);
    assert!(plan.invoke_lock);
    assert_eq!(
        plan.log_lines,
        vec![
            "Received WM_POWERBROADCAST".to_string(),
            "Received PBT_POWERSETTINGCHANGE".to_string(),
            "Power setting state: 0".to_string(),
            "Attempting to lock workstation".to_string(),
        ]
    );
    assert_eq!(lock_outcome_line(true), "Workstation locked successfully");
    assert_eq!(lock_outcome_line(false), "Failed to lock workstation");
}

#[test]
fn broadcast_zero_state_remote_session_never_locks() {
    let plan = plan_message(
        WM_POWERBROADCAST,
        PBT_POWERSETTINGCHANGE,
        Some(vec![0, 0, 0, 0]),
        true,
    );
    assert!(!plan.forward_default);
    assert!(!plan.invoke_lock);
    assert_eq!(
        plan.log_lines.last().map(String::as_str),
        Some("Ignoring, session is remote")
    );
}

#[test]
fn broadcast_nonzero_state_never_locks() {
    for remote in [false, true] {
        let plan = plan_message(
            WM_POWERBROADCAST,
            PBT_POWERSETTINGCHANGE,
            Some(vec![7, 0, 0, 0]),
            remote,
        );
        assert!(!plan.forward_default);
        assert!(!plan.invoke_lock);
        assert_eq!(
            plan.log_lines,
            vec![
                "Received WM_POWERBROADCAST".to_string(),
                "Received PBT_POWERSETTINGCHANGE".to_string(),
                "Power setting state: 7".to_string(),
                "Ignoring non-zero state".to_string(),
            ]
        );
    }
}

#[test]
fn broadcast_other_subtype_logged_and_dropped() {
    let plan = plan_message(WM_POWERBROADCAST, 0x7, None, false);
    assert!(!plan.forward_default);
    assert!(!plan.invoke_lock);
    assert_eq!(plan.log_lines, vec!["Received WM_POWERBROADCAST".to_string()]);
}

#[test]
fn non_broadcast_forwarded_without_side_effects() {
    let plan = plan_message(0x1, 0, None, false);
    assert!(plan.forward_default);
    assert!(!plan.invoke_lock);
    assert!(plan.log_lines.is_empty());
}

#[test]
fn undecodable_payload_dropped_without_lock() {
    let plan = plan_message(WM_POWERBROADCAST, PBT_POWERSETTINGCHANGE, Some(vec![0, 0]), false);
    assert!(!plan.forward_default);
    assert!(!plan.invoke_lock);
    assert_eq!(
        plan.log_lines,
        vec![
            "Received WM_POWERBROADCAST".to_string(),
            "Received PBT_POWERSETTINGCHANGE".to_string(),
        ]
    );
}

#[test]
fn wide_string_encodes_utf16_with_terminator() {
    assert_eq!(wide_string("A"), vec![65, 0]);
    assert_eq!(wide_string(""), vec![0]);
    assert_eq!(wide_string("lidlock"), {
        let mut v: Vec<u16> = "lidlock".encode_utf16().collect();
        v.push(0);
        v
    });
    assert_eq!(wide_string("\u{20AC}"), vec![0x20AC, 0]);
    assert_eq!(wide_string("\u{1D11E}"), vec![0xD834, 0xDD1E, 0]);
    let ident = singleton_identifier();
    let mut expected: Vec<u16> = ident.encode_utf16().collect();
    expected.push(0);
    assert_eq!(wide_string(&ident), expected);
}

#[test]
fn startup_sequence_without_arguments_reaches_dispatch() {
    let args = vec!["lidlock".to_string()];
    assert_eq!(resolve_log_path(&args, "/tmp/lidlock.log"), None);
    assert_eq!(classify_singleton(true, 0), Ok(()));
    let subscriptions = combine_subscriptions(Ok(()), Ok(()));
    assert_eq!(subscriptions, Ok(()));
    assert!(subscriptions.is_ok() && dispatch_should_continue(1));
}
