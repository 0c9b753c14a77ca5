use ctr::{
    decimal_bytes, exit_status, isolation_namespaces, launch_result, limit_records, parse_command,
    stack_size, LaunchError, MountPoint, Settings, WaitReport, DEFAULT_STACK_SIZE, OWNER_ONLY_MODE,
};

#[test]
fn stack_size_from_limit() {
    assert_eq!(stack_size(Some(1_048_576)), 1_048_576);
}

#[test]
fn stack_size_default_when_unreadable() {
    assert_eq!(stack_size(None), 8 * 1024 * 1024);
    assert_eq!(DEFAULT_STACK_SIZE, 8_388_608);
}

#[test]
fn decimal_bytes_values() {
    assert_eq!(decimal_bytes(0), b"0".to_vec());
    assert_eq!(decimal_bytes(9), b"9".to_vec());
    assert_eq!(decimal_bytes(10), b"10".to_vec());
    assert_eq!(decimal_bytes(4321), b"4321".to_vec());
    assert_eq!(decimal_bytes(u32::MAX), b"4294967295".to_vec());
}

#[test]
fn limit_records_plan() {
    let r = limit_records(1234, 20);
    assert_eq!(r.len(), 3);
    assert_eq!(r[0].file, "pids.max");
    assert_eq!(r[0].content, b"20".to_vec());
    assert_eq!(r[1].file, "notify_on_release");
    assert_eq!(r[1].content, b"1".to_vec());
    assert_eq!(r[2].file, "cgroup.procs");
    assert_eq!(r[2].content, b"1234".to_vec());
    for rec in &r {
        assert_eq!(rec.mode, 0o700);
    }
    assert_eq!(OWNER_ONLY_MODE, 0o700);
}

#[test]
fn membership_record_names_pid() {
    let r = limit_records(77, 5);
    let pid: u32 = String::from_utf8(r[2].content.clone()).unwrap().parse().unwrap();
    assert_eq!(pid, 77);
    let max: u32 = String::from_utf8(r[0].content.clone()).unwrap().parse().unwrap();
    assert_eq!(max, 5);
}

#[test]
fn mount_point_describes_mount() {
    let m = MountPoint::new("/proc", "/proc", "proc", 0);
    assert_eq!(m.source, "/proc");
    assert_eq!(m.target, "/proc");
    assert_eq!(m.fstype, "proc");
    assert_eq!(m.flags, 0);
}

#[test]
fn parse_command_splits_program_and_args() {
    let line = vec![String::from("ctr"), String::from("/bin/ls"), String::from("-l"), String::from("/")];
    let c = parse_command(line).unwrap();
    assert_eq!(c.program, "/bin/ls");
    assert_eq!(c.args, vec![String::from("-l"), String::from("/")]);
}

#[test]
fn parse_command_without_args() {
    let c = parse_command(vec![String::from("ctr"), String::from("/bin/true")]).unwrap();
    assert_eq!(c.program, "/bin/true");
    assert!(c.args.is_empty());
}

#[test]
fn parse_command_without_program() {
    assert!(parse_command(vec![String::from("ctr")]).is_none());
    assert!(parse_command(Vec::new()).is_none());
}

#[test]
fn clean_exit_is_success_whatever_code() {
    assert_eq!(launch_result(Some(WaitReport::Exited(0))), Ok(()));
    assert_eq!(launch_result(Some(WaitReport::Exited(3))), Ok(()));
    assert_eq!(exit_status(launch_result(Some(WaitReport::Exited(3)))), 0);
}

#[test]
fn other_terminations_are_wait_errors() {
    for r in [WaitReport::Signaled, WaitReport::Stopped, WaitReport::Continued, WaitReport::Other] {
        assert_eq!(launch_result(Some(r)), Err(LaunchError::Wait));
    }
    assert_eq!(launch_result(None), Err(LaunchError::Wait));
    assert_eq!(exit_status(Err(LaunchError::Wait)), 1);
}

#[test]
fn namespaces_requested() {
    let n = isolation_namespaces();
    assert!(n.uts && n.pid && n.mount);
}

#[test]
fn standard_settings() {
    let s = Settings::standard();
    assert_eq!(s.cgroup_dir, "/sys/fs/cgroup/pids/ctr");
    assert_eq!(s.max_pids, 20);
    assert_eq!(s.hostname, "ctr");
}

#[test]
fn errors_describe_themselves() {
    assert_eq!(LaunchError::Wait.describe(), "failed to exit cleanly");
    assert_eq!(LaunchError::Exec.describe(), "command invocation failed");
}
