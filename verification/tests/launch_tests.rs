//! Launch planning and the launch step machine, driven with synthetic
//! native events.

use rappct::{
    AcError, AppContainerSid, AttrOutcome, CapabilityResolver, EXTENDED_STARTUPINFO_PRESENT,
    CREATE_SUSPENDED, CREATE_UNICODE_ENVIRONMENT, JOB_OBJECT_LIMIT_KILL_ON_JOB_CLOSE,
    JOB_OBJECT_LIMIT_PROCESS_MEMORY, JobLimits, JobOutcome, LaunchAction, LaunchMachine,
    LaunchOptions, LaunchPlan, LaunchStage, SecurityCapabilitiesBuilder, SpawnOutcome, StdioConfig,
    StdioOutcome, WaitOutcome, all_capability_names, creation_flags, job_cpu_rate,
    lpac_supported_version, plan_job, stage_error, wait_exit_disposition, wait_millis,
};

fn test_resolver() -> CapabilityResolver {
    let mut r = CapabilityResolver::new();
    let names = all_capability_names();
    for (i, n) in names.iter().enumerate() {
        let sddl = format!("S-1-15-3-{}", 1024 + i);
        r.register(n.as_str(), &sddl).expect("register");
    }
    r
}

fn pipe_options(cmd: &str) -> LaunchOptions {
    LaunchOptions {
        exe: "C:/Windows/System32/cmd.exe".to_string(),
        cmdline: Some(cmd.to_string()),
        cwd: None,
        env: None,
        stdio: StdioConfig::Pipe,
        suspended: false,
        join_job: None,
        startup_timeout: None,
    }
}

fn pipes() -> StdioOutcome {
    StdioOutcome::PipesCreated {
        child_stdin: 11,
        parent_stdin: 21,
        child_stdout: 12,
        parent_stdout: 22,
        child_stderr: 13,
        parent_stderr: 23,
    }
}

#[test]
fn pipe_launch_yields_three_distinct_endpoints_and_exit_code() {
    let resolver = test_resolver();
    let sec = SecurityCapabilitiesBuilder::new(&AppContainerSid::from_sddl("S-1-15-2-1"))
        .build(&resolver)
        .expect("build caps");
    let opts = pipe_options("/C exit 7");
    let plan = LaunchPlan::new(&sec, &opts).expect("plan");
    let (mut m, a) = LaunchMachine::start(plan);
    assert!(matches!(a, LaunchAction::WireStdio { mode: StdioConfig::Pipe }));
    let a = m.on_stdio(pipes());
    match a {
        LaunchAction::BuildAttributes { slot_count, attach_lpac, attach_handles } => {
            assert_eq!(slot_count, 2);
            assert!(!attach_lpac);
            assert!(attach_handles);
        }
        other => panic!("expected attribute build, got {other:?}"),
    }
    let a = m.on_attributes(AttrOutcome::Ready);
    match a {
        LaunchAction::Spawn { flags, inherit_handles } => {
            assert_eq!(flags, EXTENDED_STARTUPINFO_PRESENT);
            assert!(inherit_handles);
        }
        other => panic!("expected spawn, got {other:?}"),
    }
    let a = m.on_spawn(SpawnOutcome::Created { pid: 4242, process_h: 100, thread_h: 101 });
    match a {
        LaunchAction::Finish { close, launched } => {
            assert_eq!(close, vec![11, 12, 13, 101]);
            let s0 = launched.stdin_h.expect("stdin endpoint");
            let s1 = launched.stdout_h.expect("stdout endpoint");
            let s2 = launched.stderr_h.expect("stderr endpoint");
            assert!(s0 != s1 && s0 != s2 && s1 != s2);
            assert_eq!(launched.pid, 4242);
            assert_eq!(launched.process_h, 100);
            assert!(launched.job_guard_h.is_none());
        }
        other => panic!("expected finish, got {other:?}"),
    }
    assert_eq!(wait_exit_disposition(WaitOutcome::Signaled, Some(7)), Ok(7));
    assert_eq!(wait_exit_disposition(WaitOutcome::Signaled, Some(0)), Ok(0));
}

#[test]
fn end_to_end_internet_client_launch_reports_positive_pid() {
    let resolver = test_resolver();
    let sec = SecurityCapabilitiesBuilder::new(&AppContainerSid::from_sddl("S-1-15-2-1"))
        .with_named(&["internetClient"])
        .build(&resolver)
        .expect("build caps");
    assert!(!sec.lpac);
    assert_eq!(sec.caps.len(), 1);
    let opts = LaunchOptions {
        exe: "C:/Windows/System32/cmd.exe".to_string(),
        cmdline: Some("/C exit 0".to_string()),
        cwd: Some("C:/Windows".to_string()),
        env: None,
        stdio: StdioConfig::Inherit,
        suspended: false,
        join_job: None,
        startup_timeout: None,
    };
    let plan = LaunchPlan::new(&sec, &opts).expect("plan");
    let (mut m, a) = LaunchMachine::start(plan);
    assert!(matches!(a, LaunchAction::WireStdio { mode: StdioConfig::Inherit }));
    let a = m.on_stdio(StdioOutcome::Plain);
    assert!(matches!(a, LaunchAction::BuildAttributes { slot_count: 1, .. }));
    let a = m.on_attributes(AttrOutcome::Ready);
    assert!(matches!(a, LaunchAction::Spawn { .. }));
    let a = m.on_spawn(SpawnOutcome::Created { pid: 777, process_h: 50, thread_h: 51 });
    match a {
        LaunchAction::Finish { close, launched } => {
            assert_eq!(close, vec![51]);
            assert!(launched.pid > 0);
            assert!(launched.stdin_h.is_none());
        }
        other => panic!("expected finish, got {other:?}"),
    }
}

#[test]
fn lpac_probe_gates_process_creation() {
    let resolver = test_resolver();
    let sec = SecurityCapabilitiesBuilder::new(&AppContainerSid::from_sddl("S-1-15-2-1"))
        .lpac(true)
        .build(&resolver)
        .expect("build caps");
    let opts = LaunchOptions { stdio: StdioConfig::Inherit, ..Default::default() };
    let plan = LaunchPlan::new(&sec, &opts).expect("plan");
    let (mut m, a) = LaunchMachine::start(plan);
    assert!(matches!(a, LaunchAction::ProbeLpac));
    // A platform without LPAC support fails the launch before any native
    // resource is touched.
    let a = m.on_probe(false);
    match a {
        LaunchAction::Abort { close, error } => {
            assert!(close.is_empty());
            assert_eq!(error, AcError::UnsupportedLpac);
        }
        other => panic!("expected abort, got {other:?}"),
    }
}

#[test]
fn lpac_launch_without_defaults_proceeds_on_supporting_system() {
    let resolver = test_resolver();
    // lpac(true) without with_lpac_defaults: capability composition, not
    // LPAC support, decides whether the launch goes ahead.
    let sec = SecurityCapabilitiesBuilder::new(&AppContainerSid::from_sddl("S-1-15-2-1"))
        .lpac(true)
        .build(&resolver)
        .expect("build caps");
    let opts = LaunchOptions { stdio: StdioConfig::Inherit, ..Default::default() };
    let plan = LaunchPlan::new(&sec, &opts).expect("plan");
    let (mut m, a) = LaunchMachine::start(plan);
    assert!(matches!(a, LaunchAction::ProbeLpac));
    let a = m.on_probe(true);
    assert!(matches!(a, LaunchAction::WireStdio { mode: StdioConfig::Inherit }));
    let a = m.on_stdio(StdioOutcome::Plain);
    // LPAC adds the policy attribute: two slots even without a handle list.
    match a {
        LaunchAction::BuildAttributes { slot_count, attach_lpac, attach_handles } => {
            assert_eq!(slot_count, 2);
            assert!(attach_lpac);
            assert!(!attach_handles);
        }
        other => panic!("expected attribute build, got {other:?}"),
    }
    let a = m.on_attributes(AttrOutcome::Ready);
    assert!(matches!(a, LaunchAction::Spawn { .. }));
}

#[test]
fn job_limits_plan_reports_exact_native_words() {
    let limits = JobLimits {
        memory_bytes: Some(8 * 1024 * 1024),
        cpu_rate_percent: Some(25),
        kill_on_job_close: true,
    };
    let plan = plan_job(&limits);
    let ext = plan.ext.expect("extended limits");
    assert_eq!(ext.process_memory, 8_388_608);
    assert_ne!(ext.limit_flags & JOB_OBJECT_LIMIT_PROCESS_MEMORY, 0, "process memory limit flag not set");
    assert_ne!(ext.limit_flags & JOB_OBJECT_LIMIT_KILL_ON_JOB_CLOSE, 0, "kill-on-close flag not set");
    assert_eq!(plan.cpu_rate, Some(2500));
    assert!(plan.keep_guard);
}

#[test]
fn job_cpu_rate_clamps_to_valid_percent_range() {
    assert_eq!(job_cpu_rate(0), 100);
    assert_eq!(job_cpu_rate(1), 100);
    assert_eq!(job_cpu_rate(25), 2500);
    assert_eq!(job_cpu_rate(100), 10000);
    assert_eq!(job_cpu_rate(250), 10000);
}

#[test]
fn kill_on_close_launch_retains_job_guard() {
    let resolver = test_resolver();
    let sec = SecurityCapabilitiesBuilder::new(&AppContainerSid::from_sddl("S-1-15-2-1"))
        .build(&resolver)
        .expect("build caps");
    let mut opts = pipe_options("/C timeout /T 30 /NOBREAK > NUL");
    opts.join_job = Some(JobLimits {
        memory_bytes: Some(1024 * 1024),
        cpu_rate_percent: None,
        kill_on_job_close: true,
    });
    let plan = LaunchPlan::new(&sec, &opts).expect("plan");
    let (mut m, _) = LaunchMachine::start(plan);
    let _ = m.on_stdio(pipes());
    let _ = m.on_attributes(AttrOutcome::Ready);
    let a = m.on_spawn(SpawnOutcome::Created { pid: 99, process_h: 100, thread_h: 101 });
    match a {
        LaunchAction::ConfigureJob { close, job } => {
            // Child-side pipe ends close as soon as the process exists.
            assert_eq!(close, vec![11, 12, 13]);
            assert!(job.keep_guard);
        }
        other => panic!("expected job configuration, got {other:?}"),
    }
    let a = m.on_job(JobOutcome::Configured { job_h: 200 });
    match a {
        LaunchAction::Finish { close, launched } => {
            // The job handle is retained as the kill-on-close guard.
            assert_eq!(close, vec![101]);
            assert_eq!(launched.job_guard_h, Some(200));
        }
        other => panic!("expected finish, got {other:?}"),
    }
}

#[test]
fn job_without_kill_on_close_releases_job_handle() {
    let resolver = test_resolver();
    let sec = SecurityCapabilitiesBuilder::new(&AppContainerSid::from_sddl("S-1-15-2-1"))
        .build(&resolver)
        .expect("build caps");
    let mut opts = pipe_options("/C exit 0");
    opts.stdio = StdioConfig::Inherit;
    opts.join_job = Some(JobLimits {
        memory_bytes: Some(32 * 1024 * 1024),
        cpu_rate_percent: Some(50),
        kill_on_job_close: false,
    });
    let plan = LaunchPlan::new(&sec, &opts).expect("plan");
    let (mut m, _) = LaunchMachine::start(plan);
    let _ = m.on_stdio(StdioOutcome::Plain);
    let _ = m.on_attributes(AttrOutcome::Ready);
    let a = m.on_spawn(SpawnOutcome::Created { pid: 99, process_h: 100, thread_h: 101 });
    assert!(matches!(a, LaunchAction::ConfigureJob { .. }));
    let a = m.on_job(JobOutcome::Configured { job_h: 200 });
    match a {
        LaunchAction::Finish { close, launched } => {
            assert_eq!(close, vec![200, 101]);
            assert!(launched.job_guard_h.is_none());
        }
        other => panic!("expected finish, got {other:?}"),
    }
}

#[test]
fn failed_spawn_releases_every_acquired_handle() {
    let resolver = test_resolver();
    let sec = SecurityCapabilitiesBuilder::new(&AppContainerSid::from_sddl("S-1-15-2-1"))
        .build(&resolver)
        .expect("build caps");
    let opts = pipe_options("/C exit 0");
    let plan = LaunchPlan::new(&sec, &opts).expect("plan");
    let (mut m, _) = LaunchMachine::start(plan);
    let _ = m.on_stdio(pipes());
    let _ = m.on_attributes(AttrOutcome::Ready);
    let a = m.on_spawn(SpawnOutcome::Failed { source: "access denied".to_string() });
    match a {
        LaunchAction::Abort { close, error } => {
            // Reverse acquisition order: newest handle first.
            assert_eq!(close, vec![23, 13, 22, 12, 21, 11]);
            match error {
                AcError::LaunchFailed { stage, hint, .. } => {
                    assert_eq!(stage, "CreateProcessW");
                    assert_eq!(hint, "extended startup with AC/LPAC");
                }
                other => panic!("expected launch failure, got {other:?}"),
            }
        }
        other => panic!("expected abort, got {other:?}"),
    }
}

#[test]
fn malformed_package_sid_fails_before_any_native_stage() {
    let resolver = test_resolver();
    let sec = SecurityCapabilitiesBuilder::new(&AppContainerSid::from_sddl("not-a-sid"))
        .build(&resolver)
        .expect("build caps");
    match LaunchPlan::new(&sec, &LaunchOptions::default()) {
        Err(AcError::InvalidSid(d)) => assert_eq!(d, "not-a-sid"),
        other => panic!("expected invalid SID, got {other:?}"),
    }
}

#[test]
fn creation_flags_compose_from_env_and_suspension() {
    assert_eq!(creation_flags(false, false), EXTENDED_STARTUPINFO_PRESENT);
    assert_eq!(
        creation_flags(true, false),
        EXTENDED_STARTUPINFO_PRESENT | CREATE_UNICODE_ENVIRONMENT
    );
    assert_eq!(
        creation_flags(true, true),
        EXTENDED_STARTUPINFO_PRESENT | CREATE_UNICODE_ENVIRONMENT | CREATE_SUSPENDED
    );
}

#[test]
fn wait_disposition_distinguishes_timeout_from_failure() {
    match wait_exit_disposition(WaitOutcome::TimedOut, None) {
        Err(AcError::LaunchFailed { stage, hint, .. }) => {
            assert_eq!(stage, "wait");
            assert_eq!(hint, "timeout");
        }
        other => panic!("expected timeout error, got {other:?}"),
    }
    match wait_exit_disposition(WaitOutcome::Failed, None) {
        Err(AcError::Win32(m)) => assert_eq!(m, "WaitForSingleObject failed"),
        other => panic!("expected native failure, got {other:?}"),
    }
    match wait_exit_disposition(WaitOutcome::Signaled, None) {
        Err(AcError::Win32(m)) => assert_eq!(m, "GetExitCodeProcess failed"),
        other => panic!("expected exit-code failure, got {other:?}"),
    }
}

#[test]
fn wait_millis_saturates_into_native_range() {
    assert_eq!(wait_millis(None), 0xFFFF_FFFF);
    assert_eq!(wait_millis(Some(2000)), 2000);
    assert_eq!(wait_millis(Some(u64::MAX)), 0xFFFF_FFFF);
}

#[test]
fn lpac_support_needs_windows_ten_build_15063() {
    assert!(lpac_supported_version(10, 15063));
    assert!(lpac_supported_version(11, 22000));
    assert!(!lpac_supported_version(10, 14393));
    assert!(!lpac_supported_version(6, 9600));
}

#[test]
fn plan_reflects_env_lpac_and_pipe_in_slots_and_flags() {
    let resolver = test_resolver();
    let sec = SecurityCapabilitiesBuilder::new(&AppContainerSid::from_sddl("S-1-15-2-1"))
        .with_lpac_defaults()
        .build(&resolver)
        .expect("build caps");
    let mut opts = pipe_options("/C exit 0");
    opts.env = Some(vec![("PATH".to_string(), "C:/Windows".to_string())]);
    let plan = LaunchPlan::new(&sec, &opts).expect("plan");
    // One slot for the capabilities, one for the LPAC policy, one for the
    // handle list.
    assert_eq!(plan.attr_slot_count, 3);
    assert_eq!(
        plan.creation_flags,
        EXTENDED_STARTUPINFO_PRESENT | CREATE_UNICODE_ENVIRONMENT
    );
    let block = plan.env_block.as_ref().expect("environment block");
    let buf = block.as_slice();
    assert_eq!(buf[buf.len() - 1], 0);
    assert_eq!(buf[buf.len() - 2], 0);
    assert!(plan.lpac);
    assert_eq!(plan.cap_sddls.len(), 2);
}

#[test]
fn attribute_failure_releases_both_pipe_ends() {
    let resolver = test_resolver();
    let sec = SecurityCapabilitiesBuilder::new(&AppContainerSid::from_sddl("S-1-15-2-1"))
        .build(&resolver)
        .expect("build caps");
    let plan = LaunchPlan::new(&sec, &pipe_options("/C exit 0")).expect("plan");
    let (mut m, _) = LaunchMachine::start(plan);
    let _ = m.on_stdio(pipes());
    let a = m.on_attributes(AttrOutcome::Failed {
        stage: LaunchStage::AttachHandleList,
        source: "e".to_string(),
    });
    match a {
        LaunchAction::Abort { close, error } => {
            assert_eq!(close, vec![23, 13, 22, 12, 21, 11]);
            match error {
                AcError::LaunchFailed { stage, hint, .. } => {
                    assert_eq!(stage, "UpdateProcThreadAttribute(handles)");
                    assert_eq!(hint, "inherit handles");
                }
                other => panic!("expected launch failure, got {other:?}"),
            }
        }
        other => panic!("expected abort, got {other:?}"),
    }
}

#[test]
fn null_stdio_launch_closes_null_handles_on_finish() {
    let resolver = test_resolver();
    let sec = SecurityCapabilitiesBuilder::new(&AppContainerSid::from_sddl("S-1-15-2-1"))
        .build(&resolver)
        .expect("build caps");
    let mut opts = pipe_options("/C exit 0");
    opts.stdio = StdioConfig::Null;
    let plan = LaunchPlan::new(&sec, &opts).expect("plan");
    let (mut m, a) = LaunchMachine::start(plan);
    assert!(matches!(a, LaunchAction::WireStdio { mode: StdioConfig::Null }));
    let a = m.on_stdio(StdioOutcome::NullOpened { stdin_h: 31, stdout_h: 32, stderr_h: 33 });
    match a {
        LaunchAction::BuildAttributes { slot_count, attach_handles, .. } => {
            // Null mode passes no handle list: only the capabilities slot.
            assert_eq!(slot_count, 1);
            assert!(!attach_handles);
        }
        other => panic!("expected attribute build, got {other:?}"),
    }
    let _ = m.on_attributes(AttrOutcome::Ready);
    let a = m.on_spawn(SpawnOutcome::Created { pid: 5, process_h: 40, thread_h: 41 });
    match a {
        LaunchAction::Finish { close, launched } => {
            assert_eq!(close, vec![31, 32, 33, 41]);
            assert!(launched.stdin_h.is_none());
        }
        other => panic!("expected finish, got {other:?}"),
    }
}

#[test]
fn stage_errors_name_the_failing_native_call() {
    match stage_error(LaunchStage::CreateStdinPipe, "e".to_string()) {
        AcError::LaunchFailed { stage, hint, .. } => {
            assert_eq!(stage, "CreatePipe(stdin)");
            assert_eq!(hint, "pipe");
        }
        other => panic!("expected launch failure, got {other:?}"),
    }
    match stage_error(LaunchStage::AttachSecurityCapabilities, "e".to_string()) {
        AcError::LaunchFailed { stage, hint, .. } => {
            assert_eq!(stage, "UpdateProcThreadAttribute(security)");
            assert_eq!(hint, "attach SECURITY_CAPABILITIES");
        }
        other => panic!("expected launch failure, got {other:?}"),
    }
    match stage_error(LaunchStage::CreateJob, "denied".to_string()) {
        AcError::Win32(m) => assert_eq!(m, "CreateJobObjectW failed: denied"),
        other => panic!("expected native failure, got {other:?}"),
    }
}
