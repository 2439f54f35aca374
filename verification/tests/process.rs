use heim::process::errors::{classify_query_failure, classify_send_failure, ProcessError};
use heim::process::handle::{current, get, processes, Process, WaitStep};
use heim::process::identity::ProcessIdentity;
use heim::process::pids::pid_exists;
use heim::process::record::{identity_from_stat, parse_stat};
use heim::process::signal::{handle_op, native_signal, HandleOp, Signal};
use heim::process::status::{
    status_from_kernel_state, status_from_state_char, status_from_suspended, Status,
};
use heim::process::windows::{
    classify_handle_failure, image_name_prefix, process_name, pseudo_process_name,
    pseudo_process_query,
};
use heim::units::Time;

fn identity(pid: i32, ns: u128) -> ProcessIdentity {
    ProcessIdentity::new(pid, Time { ns })
}

#[test]
fn get_succeeds_for_live_pid() {
    let fresh = identity(1234, 77_000_000_000);
    let handle = get(1234, Some(fresh)).unwrap();

    assert_eq!(handle.pid(), 1234);
    assert_eq!(handle.create_time(), Time { ns: 77_000_000_000 });
}

#[test]
fn get_fails_for_never_live_pid() {
    let r = get(i32::MAX, None);

    assert_eq!(r, Err(ProcessError::NoSuchProcess(i32::MAX)));
}

#[test]
fn current_pid_is_own_pid() {
    let own = identity(4321, 5_000_000_000);
    let me = current(4321, own);

    assert_eq!(me.pid(), 4321);
}

#[test]
fn enumeration_includes_own_pid() {
    let me = 4321;
    let probes = vec![
        (1, Some(identity(1, 1_000_000_000))),
        (me, Some(identity(me, 5_000_000_000))),
        (9999, None),
    ];
    let handles = processes(probes);

    assert_eq!(handles.len(), 3);
    assert!(handles.iter().any(|h| matches!(h, Ok(p) if p.pid() == me)));
    assert_eq!(handles[2], Err(ProcessError::NoSuchProcess(9999)));
}

#[test]
fn identity_round_trip_matches() {
    let first = identity(100, 9_000_000_000);
    let second = identity(100, 9_000_000_000);

    assert!(first.matches(&second));
    assert!(second.matches(&first));
}

#[test]
fn identity_tolerates_sub_second_drift() {
    let a = identity(100, 9_000_000_000);
    let b = identity(100, 9_999_999_999);

    assert!(a.matches(&b));
}

#[test]
fn identity_rejects_larger_drift() {
    let a = identity(100, 9_000_000_000);
    let b = identity(100, 10_000_000_001);

    assert!(!a.matches(&b));
    assert!(!b.matches(&a));
}

#[test]
fn identity_rejects_other_pid() {
    let a = identity(100, 9_000_000_000);
    let b = identity(101, 9_000_000_000);

    assert!(!a.matches(&b));
}

#[test]
fn stale_identity_refuses_every_control_operation() {
    let stored = identity(100, 9_000_000_000);
    let occupant = identity(100, 3_600_000_000_000);
    let handle = get(100, Some(stored)).unwrap();
    let gone = Err(ProcessError::NoSuchProcess(100));

    assert_eq!(handle.suspend(Some(&occupant)), gone);
    assert_eq!(handle.resume(Some(&occupant)), gone);
    assert_eq!(handle.terminate(Some(&occupant)), gone);
    assert_eq!(handle.kill(Some(&occupant)), gone);
    assert_eq!(handle.signal(Some(&occupant), Signal::Stop), gone);
    assert!(!handle.is_running(Some(&occupant)));
}

#[test]
fn control_operations_order_native_signals() {
    let stored = identity(100, 9_000_000_000);
    let fresh = identity(100, 9_000_000_000);
    let handle = get(100, Some(stored)).unwrap();

    assert_eq!(handle.suspend(Some(&fresh)).unwrap().native, 19);
    assert_eq!(handle.resume(Some(&fresh)).unwrap().native, 18);
    assert_eq!(handle.terminate(Some(&fresh)).unwrap().native, 15);
    assert_eq!(handle.kill(Some(&fresh)).unwrap().native, 9);
    assert_eq!(handle.suspend(Some(&fresh)).unwrap().pid, 100);
}

#[test]
fn wait_returns_at_once_when_target_is_gone() {
    let stored = identity(100, 9_000_000_000);
    let handle = get(100, Some(stored)).unwrap();

    assert_eq!(handle.wait(None), WaitStep::Done);

    let occupant = identity(100, 3_600_000_000_000);
    assert_eq!(handle.wait(Some(&occupant)), WaitStep::Done);

    let fresh = identity(100, 9_000_000_000);
    assert_eq!(handle.wait(Some(&fresh)), WaitStep::KeepWaiting);
}

#[test]
fn signal_mapping_is_the_documented_table() {
    assert_eq!(native_signal(Signal::Stop), 19);
    assert_eq!(native_signal(Signal::Continue), 18);
    assert_eq!(native_signal(Signal::Terminate), 15);
    assert_eq!(native_signal(Signal::Kill), 9);

    assert_eq!(handle_op(Signal::Stop), HandleOp::Suspend);
    assert_eq!(handle_op(Signal::Continue), HandleOp::Resume);
    assert_eq!(handle_op(Signal::Terminate), HandleOp::Terminate);
    assert_eq!(handle_op(Signal::Kill), HandleOp::Terminate);
}

#[test]
fn parse_stat_reads_the_record() {
    let line = b"1234 (weird (name)) S 1 1234 1234 0 -1 4194560 100 0 0 0 37 21 0 0 20 0 1 0 8000 1000000 250 18446744073709551615 1 1 0 0 0 0 0 0 0 0 0 0 17 0 0 0 0 0 0";
    let rec = parse_stat(1234, line).unwrap();

    assert_eq!(rec.pid, 1234);
    assert_eq!(rec.name, b"weird (name)".to_vec());
    assert_eq!(rec.status, Status::Sleeping);
    assert_eq!(rec.ppid, 1);
    assert_eq!(rec.utime_ticks, 37);
    assert_eq!(rec.stime_ticks, 21);
    assert_eq!(rec.starttime_ticks, 8000);
    assert_eq!(rec.rss_pages, 250);
}

#[test]
fn parse_stat_rejects_malformed_records() {
    assert!(parse_stat(1, b"1234 no parens here").is_err());
    assert!(parse_stat(1, b"1234 (x) S 1").is_err());
    assert!(parse_stat(1, b"").is_err());
}

#[test]
fn identity_from_record_uses_boot_time_and_ticks() {
    let line = b"7 (a) R 1 7 7 0 -1 0 0 0 0 0 0 0 0 0 20 0 1 0 500 0 0 0 0 0 0 0 0 0 0 0 0 0 17 0 0 0 0 0 0";
    let rec = parse_stat(7, line).unwrap();
    let boot = Time { ns: 1_611_230_000_000_000_000 };
    let id = identity_from_stat(&rec, boot, 100);

    assert_eq!(id.pid, 7);
    // 500 ticks at 100 per second is five seconds after boot.
    assert_eq!(id.created_at.ns, 1_611_230_005_000_000_000);
}

#[test]
fn query_failure_classification_tells_zombie_from_gone() {
    assert_eq!(classify_query_failure(3, 50, true), ProcessError::ZombieProcess(50));
    assert_eq!(classify_query_failure(3, 50, false), ProcessError::NoSuchProcess(50));
    assert_eq!(classify_query_failure(1, 50, false), ProcessError::AccessDenied(50));
    assert_eq!(classify_query_failure(13, 50, true), ProcessError::AccessDenied(50));
    assert_eq!(classify_query_failure(22, 50, false), ProcessError::Other(22));
}

#[test]
fn send_failure_classification() {
    assert_eq!(classify_send_failure(3, 50), ProcessError::NoSuchProcess(50));
    assert_eq!(classify_send_failure(1, 50), ProcessError::AccessDenied(50));
    assert_eq!(classify_send_failure(5, 50), ProcessError::Other(5));
}

#[test]
fn pid_existence_from_probe() {
    assert!(pid_exists(0, Some(1)));
    assert!(pid_exists(42, None));
    assert!(pid_exists(42, Some(1)));
    assert!(pid_exists(42, Some(13)));
    assert!(!pid_exists(42, Some(3)));
    assert!(!pid_exists(42, Some(22)));
}

#[test]
fn status_decodings() {
    assert_eq!(status_from_state_char(b'R').unwrap(), Status::Running);
    assert_eq!(status_from_state_char(b'S').unwrap(), Status::Sleeping);
    assert_eq!(status_from_state_char(b'Z').unwrap(), Status::Zombie);
    assert_eq!(status_from_state_char(b'T').unwrap(), Status::Stopped);
    assert_eq!(status_from_state_char(b'X').unwrap(), Status::Dead);
    assert!(status_from_state_char(b'?').is_err());

    assert_eq!(status_from_kernel_state(1).unwrap(), Status::Idle);
    assert_eq!(status_from_kernel_state(2).unwrap(), Status::Running);
    assert_eq!(status_from_kernel_state(5).unwrap(), Status::Zombie);
    assert!(status_from_kernel_state(9).is_err());

    assert_eq!(status_from_suspended(true), Status::Stopped);
    assert_eq!(status_from_suspended(false), Status::Running);
}

#[test]
fn pseudo_process_policy() {
    assert_eq!(pseudo_process_name(0).unwrap(), "System Idle Process");
    assert_eq!(pseudo_process_name(4).unwrap(), "System");
    assert_eq!(pseudo_process_name(7), None);

    assert_eq!(pseudo_process_query(0), Err(ProcessError::AccessDenied(0)));
    assert_eq!(pseudo_process_query(4), Err(ProcessError::AccessDenied(4)));
    assert_eq!(pseudo_process_query(7), Ok(()));
}

#[test]
fn name_fallback_chain() {
    assert_eq!(process_name(0, None, None).unwrap(), "System Idle Process");
    assert_eq!(
        process_name(7, Some("calc.exe".to_string()), Some("snap.exe".to_string())).unwrap(),
        "calc.exe"
    );
    assert_eq!(process_name(7, None, Some("snap.exe".to_string())).unwrap(), "snap.exe");
    assert_eq!(process_name(7, None, None), Err(ProcessError::NoSuchProcess(7)));
}

#[test]
fn handle_failure_classification() {
    assert_eq!(classify_handle_failure(5, 9), ProcessError::AccessDenied(9));
    assert_eq!(classify_handle_failure(87, 9), ProcessError::NoSuchProcess(9));
    assert_eq!(classify_handle_failure(6, 9), ProcessError::Other(6));
}

#[test]
fn image_name_stops_at_first_nul() {
    let buf: Vec<u16> = vec![99, 97, 108, 99, 0, 120, 0];
    assert_eq!(image_name_prefix(&buf), vec![99, 97, 108, 99]);

    let no_nul: Vec<u16> = vec![99, 97];
    assert_eq!(image_name_prefix(&no_nul), Vec::<u16>::new());
}

#[test]
fn handles_compare_by_identity() {
    let a: Process = get(5, Some(identity(5, 1_000_000_000))).unwrap();
    let b: Process = get(5, Some(identity(5, 1_000_000_000))).unwrap();

    assert_eq!(a, b);
    assert_eq!(a.identity(), b.identity());
}

#[test]
fn command_line_splits_at_nul() {
    let args = heim::process::command::command(b"ls\0-l\0");
    assert_eq!(args, vec![b"ls".to_vec(), b"-l".to_vec()]);

    assert_eq!(heim::process::command::command(b""), Vec::<Vec<u8>>::new());
    assert_eq!(heim::process::command::command(b"sh"), vec![b"sh".to_vec()]);
}

#[test]
fn environment_pairs_split_at_first_equals() {
    let env = heim::process::command::environment(b"PATH=/bin\0HOME=/root\0BROKEN\0A=b=c\0");
    assert_eq!(
        env,
        vec![
            (b"PATH".to_vec(), b"/bin".to_vec()),
            (b"HOME".to_vec(), b"/root".to_vec()),
            (b"A".to_vec(), b"b=c".to_vec()),
        ]
    );
}

#[test]
fn read_only_queries_answer_from_the_current_occupant() {
    let line = b"9 (worker) Z 1 9 9 0 -1 0 0 0 0 0 40 60 0 0 20 0 1 0 700 0 32 0 0 0 0 0 0 0 0 0 0 0 17 0 0 0 0 0 0";
    let rec = parse_stat(9, line).unwrap();
    let handle = get(9, Some(identity(9, 1_000_000_000))).unwrap();

    assert_eq!(handle.name(Some(&rec)).unwrap(), b"worker".to_vec());
    assert_eq!(handle.parent_pid(Some(&rec)).unwrap(), 1);
    assert_eq!(handle.status(Some(&rec)).unwrap(), Status::Zombie);

    let t = handle.cpu_time(Some(&rec), 100).unwrap();
    assert_eq!(t.user, Time { ns: 400_000_000 });
    assert_eq!(t.system, Time { ns: 600_000_000 });

    let m = handle.memory(Some(&rec), 4096).unwrap();
    assert_eq!(m.rss.bytes, 32 * 4096);

    assert_eq!(handle.name(None), Err(ProcessError::NoSuchProcess(9)));
    assert_eq!(handle.status(None), Err(ProcessError::NoSuchProcess(9)));
}
