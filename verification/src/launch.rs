//! The secure process-launch engine: plan, step machine, and resource
//! accounting.
//!
//! A launch is split in two. Everything that can be decided from plain
//! values is decided here, verified: the UTF-16 marshaling of the command,
//! the environment block, the attribute-list slot count and attachment
//! order, process-creation flags, job-object limit words, stdio wiring
//! rules, and the exact error reported for every native stage that can
//! fail. The native calls themselves are performed by an unverified runner
//! that drives [`LaunchMachine`] one event at a time; the machine's
//! contracts pin down, for every event, the next action, the ordering
//! guarantees (no process is spawned before a requested LPAC probe has
//! passed), and which acquired native handles must be closed on every exit,
//! so that success hands out exactly the launched process's handles and
//! failure releases everything.

use vstd::prelude::*;

use crate::capability::SecurityCapabilities;
use crate::env::{WideBlock, env_block_ok, make_wide_block};
use crate::error::AcError;
use crate::sid::valid_sddl;
use crate::util::{encodes, to_utf16, utf16_vals};

verus! {

/// Process-creation flag: an extended startup-info block is passed.
pub const EXTENDED_STARTUPINFO_PRESENT: u32 = 0x0008_0000;

/// Process-creation flag: the environment block is UTF-16.
pub const CREATE_UNICODE_ENVIRONMENT: u32 = 0x0000_0400;

/// Process-creation flag: the primary thread starts suspended.
pub const CREATE_SUSPENDED: u32 = 0x0000_0004;

/// Startup-info flag: the three standard handles are taken from the block.
pub const STARTF_USESTDHANDLES: u32 = 0x0000_0100;

/// Job limit flag: a per-process memory cap is in force.
pub const JOB_OBJECT_LIMIT_PROCESS_MEMORY: u32 = 0x0000_0100;

/// Job limit flag: closing the last job handle kills attached processes.
pub const JOB_OBJECT_LIMIT_KILL_ON_JOB_CLOSE: u32 = 0x0000_2000;

/// Job CPU-rate flag: rate control is enabled.
pub const JOB_OBJECT_CPU_RATE_CONTROL_ENABLE: u32 = 0x0000_0001;

/// Job CPU-rate flag: the rate is a hard cap.
pub const JOB_OBJECT_CPU_RATE_CONTROL_HARD_CAP: u32 = 0x0000_0004;

/// LPAC policy word: opt out of the all-application-packages default.
pub const ALL_APPLICATION_PACKAGES_OPT_OUT: u32 = 0x0000_0001;

/// Wait forever.
pub const INFINITE: u32 = 0xFFFF_FFFF;

/// How the child's standard handles are wired.
#[derive(Clone, Copy, Debug, PartialEq, Eq, Structural)]
pub enum StdioConfig {
    /// The child reuses the parent's console handles.
    Inherit,
    /// The child's standard handles open the null device.
    Null,
    /// Fresh pipe pairs; the parent keeps one correctly-deinherited end of
    /// each.
    Pipe,
}

/// Resource limits applied through a job object.
#[derive(Clone, Copy, Debug, PartialEq, Eq)]
pub struct JobLimits {
    pub memory_bytes: Option<u64>,
    pub cpu_rate_percent: Option<u32>,
    pub kill_on_job_close: bool,
}

/// An immutable launch request.
#[derive(Debug)]
pub struct LaunchOptions {
    pub exe: String,
    pub cmdline: Option<String>,
    pub cwd: Option<String>,
    pub env: Option<Vec<(String, String)>>,
    pub stdio: StdioConfig,
    pub suspended: bool,
    pub join_job: Option<JobLimits>,
    pub startup_timeout: Option<u64>,
}

impl Default for LaunchOptions {
    /// A conservative default request: a well-known executable, inherited
    /// stdio, no job, no timeout.
    fn default() -> (r: Self)
        ensures
            r.exe@ == "C:\\Windows\\System32\\notepad.exe"@,
            r.cmdline is None,
            r.cwd matches Some(c) && c@ == "C:\\Windows\\System32"@,
            r.env is None,
            r.stdio == StdioConfig::Inherit,
            !r.suspended,
            r.join_job is None,
            r.startup_timeout is None,
    {
        LaunchOptions {
            exe: "C:\\Windows\\System32\\notepad.exe".to_owned(),
            cmdline: None,
            cwd: Some("C:\\Windows\\System32".to_owned()),
            env: None,
            stdio: StdioConfig::Inherit,
            suspended: false,
            join_job: None,
            startup_timeout: None,
        }
    }
}

/// A successfully created process, by id alone.
#[derive(Clone, Copy, Debug, PartialEq, Eq, Structural)]
pub struct Launched {
    pub pid: u32,
}

/// The extended-limit flags these job limits require. The two flags occupy
/// disjoint bits, so their union is their sum.
pub open spec fn spec_job_limit_flags(l: JobLimits) -> u32 {
    if l.memory_bytes is Some && l.kill_on_job_close {
        (JOB_OBJECT_LIMIT_PROCESS_MEMORY + JOB_OBJECT_LIMIT_KILL_ON_JOB_CLOSE) as u32
    } else if l.memory_bytes is Some {
        JOB_OBJECT_LIMIT_PROCESS_MEMORY
    } else if l.kill_on_job_close {
        JOB_OBJECT_LIMIT_KILL_ON_JOB_CLOSE
    } else {
        0
    }
}

/// The CPU rate word for a requested percentage: hundredths of a percent,
/// the percentage clamped to the closed range from one to one hundred.
pub open spec fn spec_cpu_rate(percent: u32) -> u32 {
    if percent < 1 {
        100
    } else if percent > 100 {
        10000
    } else {
        (percent * 100) as u32
    }
}

/// The extended-limit information of a job plan.
#[derive(Clone, Copy, Debug, PartialEq, Eq)]
pub struct JobExtendedLimits {
    pub limit_flags: u32,
    pub process_memory: u64,
}

/// Everything the runner needs to configure a job object.
#[derive(Clone, Copy, Debug, PartialEq, Eq)]
pub struct JobPlan {
    /// Set the extended-limit structure, when memory or kill-on-close was
    /// requested.
    pub ext: Option<JobExtendedLimits>,
    /// Set CPU-rate control with enable and hard-cap flags, at this rate.
    pub cpu_rate: Option<u32>,
    /// Keep the job handle as a kill-on-close guard instead of closing it
    /// right after assignment.
    pub keep_guard: bool,
}

/// What a well-planned job configuration looks like for given limits.
pub open spec fn job_plan_ok(l: JobLimits, p: JobPlan) -> bool {
    &&& (p.ext is Some <==> (l.memory_bytes is Some || l.kill_on_job_close))
    &&& p.ext matches Some(e) ==> e.limit_flags == spec_job_limit_flags(l) && e.process_memory == (
    match l.memory_bytes {
        Some(b) => b,
        None => 0,
    })
    &&& p.cpu_rate == (match l.cpu_rate_percent {
        Some(pc) => Some(spec_cpu_rate(pc)),
        None => None::<u32>,
    })
    &&& p.keep_guard == l.kill_on_job_close
}

/// Plans the job-object configuration for the requested limits.
pub fn plan_job(l: &JobLimits) -> (r: JobPlan)
    ensures
        job_plan_ok(*l, r),
{
    let ext = if l.memory_bytes.is_some() || l.kill_on_job_close {
        let flags: u32 = if l.memory_bytes.is_some() && l.kill_on_job_close {
            JOB_OBJECT_LIMIT_PROCESS_MEMORY + JOB_OBJECT_LIMIT_KILL_ON_JOB_CLOSE
        } else if l.memory_bytes.is_some() {
            JOB_OBJECT_LIMIT_PROCESS_MEMORY
        } else {
            JOB_OBJECT_LIMIT_KILL_ON_JOB_CLOSE
        };
        let mem: u64 = match l.memory_bytes {
            Some(b) => b,
            None => 0,
        };
        Some(JobExtendedLimits { limit_flags: flags, process_memory: mem })
    } else {
        None
    };
    let cpu_rate = match l.cpu_rate_percent {
        Some(pc) => Some(job_cpu_rate(pc)),
        None => None,
    };
    JobPlan { ext, cpu_rate, keep_guard: l.kill_on_job_close }
}

/// The CPU rate word for a requested percentage.
pub fn job_cpu_rate(percent: u32) -> (r: u32)
    ensures
        r == spec_cpu_rate(percent),
{
    if percent < 1 {
        100
    } else if percent > 100 {
        10000
    } else {
        percent * 100
    }
}

/// The process-creation flags for a launch. The three flags occupy disjoint
/// bits, so their union is their sum.
pub open spec fn spec_creation_flags(env_present: bool, suspended: bool) -> u32 {
    (EXTENDED_STARTUPINFO_PRESENT + (if env_present {
        CREATE_UNICODE_ENVIRONMENT as int
    } else {
        0
    }) + (if suspended {
        CREATE_SUSPENDED as int
    } else {
        0
    })) as u32
}

/// Computes the process-creation flags for a launch.
pub fn creation_flags(env_present: bool, suspended: bool) -> (r: u32)
    ensures
        r == spec_creation_flags(env_present, suspended),
{
    let mut f: u32 = EXTENDED_STARTUPINFO_PRESENT;
    if env_present {
        f = f + CREATE_UNICODE_ENVIRONMENT;
    }
    if suspended {
        f = f + CREATE_SUSPENDED;
    }
    f
}

/// Whether a Windows version understands LPAC launches.
pub fn lpac_supported_version(major: u32, build: u32) -> (r: bool)
    ensures
        r == (major >= 10 && build >= 15063),
{
    major >= 10 && build >= 15063
}

/// The milliseconds argument for a native wait: the requested timeout,
/// saturated into the 32-bit range, or infinite when none was requested.
pub fn wait_millis(timeout_ms: Option<u64>) -> (r: u32)
    ensures
        timeout_ms is None ==> r == INFINITE,
        timeout_ms matches Some(ms) ==> r as int == (if ms > INFINITE as int {
            INFINITE as int
        } else {
            ms as int
        }),
{
    match timeout_ms {
        None => INFINITE,
        Some(ms) => {
            if ms > INFINITE as u64 {
                INFINITE
            } else {
                let r = ms as u32;
                proof {
                    assert(ms <= 0xFFFF_FFFFu64 ==> ms as u32 as u64 == ms) by (bit_vector);
                }
                r
            }
        },
    }
}

/// How a native wait on the process handle came back.
#[derive(Clone, Copy, Debug, PartialEq, Eq, Structural)]
pub enum WaitOutcome {
    /// The process handle was signaled: the child has exited.
    Signaled,
    /// The timeout elapsed first.
    TimedOut,
    /// The wait itself failed.
    Failed,
}

/// Decides what a wait returns: the queried exit code on a signaled handle,
/// a recoverable timeout error, or an opaque native error.
pub fn wait_exit_disposition(outcome: WaitOutcome, exit_code: Option<u32>) -> (r: Result<
    u32,
    AcError,
>)
    ensures
        outcome is TimedOut ==> (r matches Err(e) && e matches AcError::LaunchFailed {
            stage,
            hint,
            source,
        } && stage@ == "wait"@ && hint@ == "timeout"@),
        outcome is Failed ==> (r matches Err(e) && e matches AcError::Win32(m) && m@
            == "WaitForSingleObject failed"@),
        outcome is Signaled ==> (exit_code matches Some(c) ==> r == Ok::<u32, AcError>(c)),
        outcome is Signaled && exit_code is None ==> (r matches Err(e)
            && e matches AcError::Win32(m) && m@ == "GetExitCodeProcess failed"@),
        r is Ok <==> outcome is Signaled && exit_code is Some,
{
    match outcome {
        WaitOutcome::TimedOut => Err(
            AcError::LaunchFailed { stage: "wait", hint: "timeout", source: "wait timeout".to_owned() },
        ),
        WaitOutcome::Failed => Err(AcError::Win32("WaitForSingleObject failed".to_owned())),
        WaitOutcome::Signaled => match exit_code {
            Some(c) => Ok(c),
            None => Err(AcError::Win32("GetExitCodeProcess failed".to_owned())),
        },
    }
}

/// Names every native stage a launch can fail at.
#[derive(Clone, Copy, Debug, PartialEq, Eq, Structural)]
pub enum LaunchStage {
    OpenNullStdin,
    OpenNullStdout,
    OpenNullStderr,
    CreateStdinPipe,
    CreateStdoutPipe,
    CreateStderrPipe,
    ConvertPackageSid,
    ConvertCapabilitySid,
    InitAttributeList,
    AttachSecurityCapabilities,
    AttachLpacPolicy,
    AttachHandleList,
    CreateProcess,
    CreateJob,
    SetJobLimits,
    SetJobCpu,
    AssignJob,
}

/// Stages that stdio wiring can fail at.
pub open spec fn stdio_stage(s: LaunchStage) -> bool {
    match s {
        LaunchStage::OpenNullStdin => true,
        LaunchStage::OpenNullStdout => true,
        LaunchStage::OpenNullStderr => true,
        LaunchStage::CreateStdinPipe => true,
        LaunchStage::CreateStdoutPipe => true,
        LaunchStage::CreateStderrPipe => true,
        _ => false,
    }
}

/// Stages that attribute-list construction can fail at.
pub open spec fn attr_stage(s: LaunchStage) -> bool {
    match s {
        LaunchStage::ConvertPackageSid => true,
        LaunchStage::ConvertCapabilitySid => true,
        LaunchStage::InitAttributeList => true,
        LaunchStage::AttachSecurityCapabilities => true,
        LaunchStage::AttachLpacPolicy => true,
        LaunchStage::AttachHandleList => true,
        _ => false,
    }
}

/// Stages that job configuration can fail at.
pub open spec fn job_stage(s: LaunchStage) -> bool {
    match s {
        LaunchStage::CreateJob => true,
        LaunchStage::SetJobLimits => true,
        LaunchStage::SetJobCpu => true,
        LaunchStage::AssignJob => true,
        _ => false,
    }
}

/// The exact error each failing stage is reported as.
pub open spec fn stage_error_ok(stage: LaunchStage, source: Seq<char>, e: AcError) -> bool {
    match stage {
        LaunchStage::OpenNullStdin => e matches AcError::LaunchFailed { stage: s, hint: h, source: d }
            && s@ == "CreateFileW(NUL)"@ && h@ == "stdin"@ && d@ == source,
        LaunchStage::OpenNullStdout => e matches AcError::LaunchFailed {
            stage: s,
            hint: h,
            source: d,
        } && s@ == "CreateFileW(NUL)"@ && h@ == "stdout"@ && d@ == source,
        LaunchStage::OpenNullStderr => e matches AcError::LaunchFailed {
            stage: s,
            hint: h,
            source: d,
        } && s@ == "CreateFileW(NUL)"@ && h@ == "stderr"@ && d@ == source,
        LaunchStage::CreateStdinPipe => e matches AcError::LaunchFailed {
            stage: s,
            hint: h,
            source: d,
        } && s@ == "CreatePipe(stdin)"@ && h@ == "pipe"@ && d@ == source,
        LaunchStage::CreateStdoutPipe => e matches AcError::LaunchFailed {
            stage: s,
            hint: h,
            source: d,
        } && s@ == "CreatePipe(stdout)"@ && h@ == "pipe"@ && d@ == source,
        LaunchStage::CreateStderrPipe => e matches AcError::LaunchFailed {
            stage: s,
            hint: h,
            source: d,
        } && s@ == "CreatePipe(stderr)"@ && h@ == "pipe"@ && d@ == source,
        LaunchStage::ConvertPackageSid => e matches AcError::LaunchFailed {
            stage: s,
            hint: h,
            source: d,
        } && s@ == "ConvertStringSidToSidW(package)"@ && h@ == "invalid package SID"@ && d@
            == source,
        LaunchStage::ConvertCapabilitySid => e matches AcError::LaunchFailed {
            stage: s,
            hint: h,
            source: d,
        } && s@ == "ConvertStringSidToSidW(capability)"@ && h@ == "invalid capability SID"@ && d@
            == source,
        LaunchStage::InitAttributeList => e matches AcError::Win32(m) && m@
            == "InitializeProcThreadAttributeList failed"@,
        LaunchStage::AttachSecurityCapabilities => e matches AcError::LaunchFailed {
            stage: s,
            hint: h,
            source: d,
        } && s@ == "UpdateProcThreadAttribute(security)"@ && h@ == "attach SECURITY_CAPABILITIES"@
            && d@ == source,
        LaunchStage::AttachLpacPolicy => e matches AcError::LaunchFailed {
            stage: s,
            hint: h,
            source: d,
        } && s@ == "UpdateProcThreadAttribute(lpac)"@ && h@ == "opt-out AAP policy"@ && d@
            == source,
        LaunchStage::AttachHandleList => e matches AcError::LaunchFailed {
            stage: s,
            hint: h,
            source: d,
        } && s@ == "UpdateProcThreadAttribute(handles)"@ && h@ == "inherit handles"@ && d@
            == source,
        LaunchStage::CreateProcess => e matches AcError::LaunchFailed {
            stage: s,
            hint: h,
            source: d,
        } && s@ == "CreateProcessW"@ && h@ == "extended startup with AC/LPAC"@ && d@ == source,
        LaunchStage::CreateJob => e matches AcError::Win32(m) && m@ == "CreateJobObjectW failed: "@
            + source,
        LaunchStage::SetJobLimits => e matches AcError::LaunchFailed {
            stage: s,
            hint: h,
            source: d,
        } && s@ == "SetInformationJobObject(ext)"@ && h@ == "set job limits"@ && d@ == source,
        LaunchStage::SetJobCpu => e matches AcError::LaunchFailed { stage: s, hint: h, source: d }
            && s@ == "SetInformationJobObject(cpu)"@ && h@ == "set cpu cap"@ && d@ == source,
        LaunchStage::AssignJob => e matches AcError::LaunchFailed { stage: s, hint: h, source: d }
            && s@ == "AssignProcessToJobObject"@ && h@ == "attach child"@ && d@ == source,
    }
}

/// Builds the error a failing stage is reported as.
pub fn stage_error(stage: LaunchStage, source: String) -> (e: AcError)
    ensures
        stage_error_ok(stage, source@, e),
{
    match stage {
        LaunchStage::OpenNullStdin => AcError::LaunchFailed {
            stage: "CreateFileW(NUL)",
            hint: "stdin",
            source,
        },
        LaunchStage::OpenNullStdout => AcError::LaunchFailed {
            stage: "CreateFileW(NUL)",
            hint: "stdout",
            source,
        },
        LaunchStage::OpenNullStderr => AcError::LaunchFailed {
            stage: "CreateFileW(NUL)",
            hint: "stderr",
            source,
        },
        LaunchStage::CreateStdinPipe => AcError::LaunchFailed {
            stage: "CreatePipe(stdin)",
            hint: "pipe",
            source,
        },
        LaunchStage::CreateStdoutPipe => AcError::LaunchFailed {
            stage: "CreatePipe(stdout)",
            hint: "pipe",
            source,
        },
        LaunchStage::CreateStderrPipe => AcError::LaunchFailed {
            stage: "CreatePipe(stderr)",
            hint: "pipe",
            source,
        },
        LaunchStage::ConvertPackageSid => AcError::LaunchFailed {
            stage: "ConvertStringSidToSidW(package)",
            hint: "invalid package SID",
            source,
        },
        LaunchStage::ConvertCapabilitySid => AcError::LaunchFailed {
            stage: "ConvertStringSidToSidW(capability)",
            hint: "invalid capability SID",
            source,
        },
        LaunchStage::InitAttributeList => AcError::Win32(
            "InitializeProcThreadAttributeList failed".to_owned(),
        ),
        LaunchStage::AttachSecurityCapabilities => AcError::LaunchFailed {
            stage: "UpdateProcThreadAttribute(security)",
            hint: "attach SECURITY_CAPABILITIES",
            source,
        },
        LaunchStage::AttachLpacPolicy => AcError::LaunchFailed {
            stage: "UpdateProcThreadAttribute(lpac)",
            hint: "opt-out AAP policy",
            source,
        },
        LaunchStage::AttachHandleList => AcError::LaunchFailed {
            stage: "UpdateProcThreadAttribute(handles)",
            hint: "inherit handles",
            source,
        },
        LaunchStage::CreateProcess => AcError::LaunchFailed {
            stage: "CreateProcessW",
            hint: "extended startup with AC/LPAC",
            source,
        },
        LaunchStage::CreateJob => {
            let mut m = "CreateJobObjectW failed: ".to_owned();
            m.append(source.as_str());
            AcError::Win32(m)
        },
        LaunchStage::SetJobLimits => AcError::LaunchFailed {
            stage: "SetInformationJobObject(ext)",
            hint: "set job limits",
            source,
        },
        LaunchStage::SetJobCpu => AcError::LaunchFailed {
            stage: "SetInformationJobObject(cpu)",
            hint: "set cpu cap",
            source,
        },
        LaunchStage::AssignJob => AcError::LaunchFailed {
            stage: "AssignProcessToJobObject",
            hint: "attach child",
            source,
        },
    }
}

/// Everything a launch needs that can be computed before any native call:
/// validated SID strings, marshaled UTF-16 buffers, the environment block,
/// attribute-list shape, creation flags, and the job configuration.
#[derive(Debug)]
pub struct LaunchPlan {
    pub lpac: bool,
    pub package_sddl: String,
    pub cap_sddls: Vec<String>,
    pub exe_w: Vec<u16>,
    pub cmdline_w: Option<Vec<u16>>,
    pub cwd_w: Option<Vec<u16>>,
    pub env_block: Option<WideBlock>,
    pub stdio: StdioConfig,
    pub suspended: bool,
    pub creation_flags: u32,
    pub inherit_handles: bool,
    pub attr_slot_count: u32,
    pub job: Option<JobPlan>,
}

/// The plan faithfully reflects the request: every field is what the
/// descriptor and the options dictate.
pub open spec fn plan_matches(
    sec: SecurityCapabilities,
    opts: LaunchOptions,
    p: LaunchPlan,
) -> bool {
    &&& p.lpac == sec.lpac
    &&& p.package_sddl@ == sec.package@
    &&& valid_sddl(p.package_sddl@)
    &&& p.cap_sddls@.len() == sec.caps@.len()
    &&& forall|i: int|
        0 <= i < sec.caps@.len() ==> (#[trigger] p.cap_sddls@[i])@ == sec.caps@[i].sid_sddl@
            && valid_sddl(p.cap_sddls@[i]@)
    &&& encodes(p.exe_w@, utf16_vals(opts.exe@) + seq![0int])
    &&& (p.cmdline_w is Some <==> opts.cmdline is Some)
    &&& (p.cmdline_w matches Some(w) ==> opts.cmdline matches Some(c) && encodes(
        w@,
        utf16_vals(c@) + seq![0int],
    ))
    &&& (p.cwd_w is Some <==> opts.cwd is Some)
    &&& (p.cwd_w matches Some(w) ==> opts.cwd matches Some(c) && encodes(
        w@,
        utf16_vals(c@) + seq![0int],
    ))
    &&& (p.env_block is Some <==> opts.env is Some)
    &&& (p.env_block matches Some(b) ==> opts.env matches Some(ev) && env_block_ok(ev@, b@))
    &&& p.stdio == opts.stdio
    &&& p.suspended == opts.suspended
    &&& p.creation_flags == spec_creation_flags(opts.env is Some, opts.suspended)
    &&& p.inherit_handles == !(opts.stdio is Inherit)
    &&& p.attr_slot_count == 1 + (if sec.lpac {
        1int
    } else {
        0int
    }) + (if opts.stdio is Pipe {
        1int
    } else {
        0int
    })
    &&& (p.job is Some <==> opts.join_job is Some)
    &&& (p.job matches Some(jp) ==> opts.join_job matches Some(l) && job_plan_ok(l, jp))
}

impl LaunchPlan {
    /// Plans a launch: validates the package and capability SID strings and
    /// marshals every buffer the native calls will need. A malformed SID is
    /// rejected here, before any native call would see it.
    pub fn new(sec: &SecurityCapabilities, opts: &LaunchOptions) -> (r: Result<LaunchPlan, AcError>)
        ensures
            r is Ok <==> valid_sddl(sec.package@) && (forall|i: int|
                0 <= i < sec.caps@.len() ==> valid_sddl((#[trigger] sec.caps@[i]).sid_sddl@)),
            r matches Ok(p) ==> plan_matches(*sec, *opts, p),
            r matches Err(e) ==> (e matches AcError::InvalidSid(d) && !valid_sddl(d@) && (d@
                == sec.package@ || (exists|i: int|
                0 <= i < sec.caps@.len() && d@ == (#[trigger] sec.caps@[i]).sid_sddl@))),
    {
        if !crate::sid::is_valid_sddl_str(self_package(sec)) {
            return Err(AcError::InvalidSid(sec.package.as_string().to_owned()));
        }
        let mut cap_sddls: Vec<String> = Vec::new();
        let mut k: usize = 0;
        while k < sec.caps.len()
            invariant
                k <= sec.caps@.len(),
                cap_sddls@.len() == k,
                forall|i: int|
                    0 <= i < k ==> (#[trigger] cap_sddls@[i])@ == sec.caps@[i].sid_sddl@
                        && valid_sddl(cap_sddls@[i]@),
            decreases sec.caps@.len() - k,
        {
            let sddl = &sec.caps[k].sid_sddl;
            if !crate::sid::is_valid_sddl_str(sddl.as_str()) {
                return Err(AcError::InvalidSid(sddl.clone()));
            }
            cap_sddls.push(sddl.clone());
            k = k + 1;
        }
        proof {
            assert forall|i: int| 0 <= i < sec.caps@.len() implies valid_sddl(
                (#[trigger] sec.caps@[i]).sid_sddl@,
            ) by {
                assert(cap_sddls@[i]@ == sec.caps@[i].sid_sddl@);
            }
        }
        let exe_w = to_utf16(opts.exe.as_str());
        let cmdline_w = match &opts.cmdline {
            Some(c) => Some(to_utf16(c.as_str())),
            None => None,
        };
        let cwd_w = match &opts.cwd {
            Some(c) => Some(to_utf16(c.as_str())),
            None => None,
        };
        let env_block = match &opts.env {
            Some(ev) => Some(make_wide_block(ev.as_slice())),
            None => None,
        };
        let flags = creation_flags(opts.env.is_some(), opts.suspended);
        let mut slots: u32 = 1;
        if sec.lpac {
            slots = slots + 1;
        }
        let is_pipe = match opts.stdio {
            StdioConfig::Pipe => true,
            _ => false,
        };
        if is_pipe {
            slots = slots + 1;
        }
        let job = match &opts.join_job {
            Some(l) => Some(plan_job(l)),
            None => None,
        };
        let inherit = match opts.stdio {
            StdioConfig::Inherit => false,
            _ => true,
        };
        Ok(
            LaunchPlan {
                lpac: sec.lpac,
                package_sddl: sec.package.as_string().to_owned(),
                cap_sddls,
                exe_w,
                cmdline_w,
                cwd_w,
                env_block,
                stdio: opts.stdio,
                suspended: opts.suspended,
                creation_flags: flags,
                inherit_handles: inherit,
                attr_slot_count: slots,
                job,
            },
        )
    }
}

/// The package identity string of a descriptor.
fn self_package(sec: &SecurityCapabilities) -> (r: &str)
    ensures
        r@ == sec.package@,
{
    sec.package.as_string()
}

/// Where a launch stands.
#[derive(Clone, Copy, Debug, PartialEq, Eq, Structural)]
pub enum LaunchPhase {
    /// Waiting for the LPAC support probe.
    Probing,
    /// Waiting for stdio wiring.
    WiringStdio,
    /// Waiting for the attribute list.
    BuildingAttributes,
    /// Waiting for process creation.
    Spawning,
    /// Waiting for job configuration.
    ConfiguringJob,
    /// Finished successfully; every handle closed or handed out.
    Done,
    /// Aborted; every acquired handle closed.
    Failed,
}

/// The native handles a successful launch hands to its caller.
#[derive(Clone, Copy, Debug, PartialEq, Eq)]
pub struct LaunchedHandles {
    pub pid: u32,
    pub stdin_h: Option<u64>,
    pub stdout_h: Option<u64>,
    pub stderr_h: Option<u64>,
    pub process_h: u64,
    pub job_guard_h: Option<u64>,
}

/// What the runner must do next.
#[derive(Debug)]
pub enum LaunchAction {
    /// Ask the platform whether LPAC launches are supported.
    ProbeLpac,
    /// Wire the child's standard handles for this mode.
    WireStdio { mode: StdioConfig },
    /// Build the attribute list: allocate `slot_count` slots, attach the
    /// security-capabilities structure, then the LPAC policy word when
    /// `attach_lpac`, then the inheritable-handle list when
    /// `attach_handles`.
    BuildAttributes { slot_count: u32, attach_lpac: bool, attach_handles: bool },
    /// Create the process with these flags.
    Spawn { flags: u32, inherit_handles: bool },
    /// Close exactly these handles, in order, then configure the job.
    ConfigureJob { close: Vec<u64>, job: JobPlan },
    /// The launch succeeded: close exactly these handles, in order, and
    /// hand the rest to the caller.
    Finish { close: Vec<u64>, launched: LaunchedHandles },
    /// The launch failed: close exactly these handles, in order, and report
    /// the error.
    Abort { close: Vec<u64>, error: AcError },
}

/// How stdio wiring came back.
#[derive(Debug)]
pub enum StdioOutcome {
    /// Inherit mode: nothing was created.
    Plain,
    /// Null mode: the null device opened three times.
    NullOpened { stdin_h: u64, stdout_h: u64, stderr_h: u64 },
    /// Pipe mode: three pipe pairs, child ends inheritable, parent ends
    /// deinherited.
    PipesCreated {
        child_stdin: u64,
        parent_stdin: u64,
        child_stdout: u64,
        parent_stdout: u64,
        child_stderr: u64,
        parent_stderr: u64,
    },
    /// A native call failed; `created` lists the handles already made, in
    /// creation order.
    Failed { stage: LaunchStage, source: String, created: Vec<u64> },
}

/// How attribute-list construction came back.
#[derive(Debug)]
pub enum AttrOutcome {
    Ready,
    Failed { stage: LaunchStage, source: String },
}

/// How process creation came back.
#[derive(Debug)]
pub enum SpawnOutcome {
    Created { pid: u32, process_h: u64, thread_h: u64 },
    Failed { source: String },
}

/// How job configuration came back.
#[derive(Debug)]
pub enum JobOutcome {
    Configured { job_h: u64 },
    /// `job_h` carries the job handle when it had already been created.
    Failed { stage: LaunchStage, source: String, job_h: Option<u64> },
}

/// No value occurs twice.
pub open spec fn distinct_seq(s: Seq<u64>) -> bool {
    forall|i: int, j: int| 0 <= i < j < s.len() ==> s[i] != s[j]
}

/// The handles a successful launch must hand out, given the plan and the
/// recorded parent-side pipe ends.
pub open spec fn launched_ok(
    plan: LaunchPlan,
    parent: Seq<u64>,
    pid: u32,
    process_h: u64,
    job_h: Option<u64>,
    l: LaunchedHandles,
) -> bool {
    &&& l.pid == pid
    &&& l.pid > 0
    &&& l.process_h == process_h
    &&& l.job_guard_h == job_h
    &&& (plan.stdio is Pipe ==> l.stdin_h == Some(parent[0]) && l.stdout_h == Some(parent[1])
        && l.stderr_h == Some(parent[2]) && parent[0] != parent[1] && parent[0] != parent[2]
        && parent[1] != parent[2])
    &&& (!(plan.stdio is Pipe) ==> l.stdin_h is None && l.stdout_h is None && l.stderr_h is None)
}

/// The verified control core of one launch. The runner performs each
/// [`LaunchAction`], reports what happened, and the machine decides the
/// next step; the machine's invariant keeps every acquired handle accounted
/// for until it is either closed or handed out, and keeps process creation
/// unreachable until a requested LPAC probe has passed.
pub struct LaunchMachine {
    plan: LaunchPlan,
    phase: LaunchPhase,
    probe_passed: bool,
    child_stdio: Vec<u64>,
    parent_stdio: Vec<u64>,
    pid: u32,
    process_h: u64,
    thread_h: u64,
}

impl LaunchMachine {
    /// The plan this machine runs.
    pub closed spec fn spec_plan(&self) -> LaunchPlan {
        self.plan
    }

    /// The current phase.
    pub closed spec fn spec_phase(&self) -> LaunchPhase {
        self.phase
    }

    /// Whether the LPAC probe has passed.
    pub closed spec fn spec_probe_passed(&self) -> bool {
        self.probe_passed
    }

    /// Child-side stdio handles, in stdin/stdout/stderr order.
    pub closed spec fn spec_child(&self) -> Seq<u64> {
        self.child_stdio@
    }

    /// Parent-side pipe ends, in stdin/stdout/stderr order.
    pub closed spec fn spec_parent(&self) -> Seq<u64> {
        self.parent_stdio@
    }

    /// The created process id.
    pub closed spec fn spec_pid(&self) -> u32 {
        self.pid
    }

    /// The created process handle.
    pub closed spec fn spec_process(&self) -> u64 {
        self.process_h
    }

    /// The created primary-thread handle.
    pub closed spec fn spec_thread(&self) -> u64 {
        self.thread_h
    }

    /// Every handle acquired and not yet closed or handed out, in
    /// acquisition order.
    pub open spec fn spec_outstanding(&self) -> Seq<u64> {
        match self.spec_phase() {
            LaunchPhase::Probing => Seq::empty(),
            LaunchPhase::WiringStdio => Seq::empty(),
            LaunchPhase::BuildingAttributes => self.stdio_acquired(),
            LaunchPhase::Spawning => self.stdio_acquired(),
            LaunchPhase::ConfiguringJob => self.spec_parent() + seq![
                self.spec_process(),
                self.spec_thread(),
            ],
            LaunchPhase::Done => Seq::empty(),
            LaunchPhase::Failed => Seq::empty(),
        }
    }

    /// The stdio handles in acquisition order: each pipe's child end, then
    /// its parent end.
    pub open spec fn stdio_acquired(&self) -> Seq<u64> {
        match self.spec_plan().stdio {
            StdioConfig::Inherit => Seq::empty(),
            StdioConfig::Null => self.spec_child(),
            StdioConfig::Pipe => seq![
                self.spec_child()[0],
                self.spec_parent()[0],
                self.spec_child()[1],
                self.spec_parent()[1],
                self.spec_child()[2],
                self.spec_parent()[2],
            ],
        }
    }

    /// The machine invariant: phase-appropriate bookkeeping, LPAC gating,
    /// and distinct stdio handles.
    pub open spec fn inv(&self) -> bool {
        &&& (match self.spec_phase() {
            LaunchPhase::Probing => self.spec_plan().lpac && self.spec_child().len() == 0
                && self.spec_parent().len() == 0,
            LaunchPhase::WiringStdio => (self.spec_plan().lpac ==> self.spec_probe_passed())
                && self.spec_child().len() == 0 && self.spec_parent().len() == 0,
            LaunchPhase::BuildingAttributes => (self.spec_plan().lpac
                ==> self.spec_probe_passed()) && self.stdio_lists_ok(),
            LaunchPhase::Spawning => (self.spec_plan().lpac ==> self.spec_probe_passed())
                && self.stdio_lists_ok(),
            LaunchPhase::ConfiguringJob => (self.spec_plan().lpac ==> self.spec_probe_passed())
                && self.spec_plan().job is Some && self.spec_pid() > 0 && self.parent_lists_ok(),
            LaunchPhase::Done => true,
            LaunchPhase::Failed => true,
        })
    }

    /// Stdio list shapes while both ends are still held.
    pub open spec fn stdio_lists_ok(&self) -> bool {
        match self.spec_plan().stdio {
            StdioConfig::Inherit => self.spec_child().len() == 0 && self.spec_parent().len() == 0,
            StdioConfig::Null => self.spec_child().len() == 3 && self.spec_parent().len() == 0
                && distinct_seq(self.spec_child()),
            StdioConfig::Pipe => self.spec_child().len() == 3 && self.spec_parent().len() == 3
                && distinct_seq(self.stdio_acquired()),
        }
    }

    /// Parent-end list shape after the child ends have been closed.
    pub open spec fn parent_lists_ok(&self) -> bool {
        match self.spec_plan().stdio {
            StdioConfig::Inherit => self.spec_parent().len() == 0,
            StdioConfig::Null => self.spec_parent().len() == 0,
            StdioConfig::Pipe => self.spec_parent().len() == 3 && distinct_seq(self.spec_parent()),
        }
    }

    /// The plan, for the runner to marshal buffers from.
    pub fn plan(&self) -> (r: &LaunchPlan)
        ensures
            *r == self.spec_plan(),
    {
        &self.plan
    }

    /// Starts a launch: first probe LPAC support when the descriptor asks
    /// for LPAC, otherwise go straight to stdio wiring.
    pub fn start(plan: LaunchPlan) -> (r: (LaunchMachine, LaunchAction))
        ensures
            r.0.inv(),
            r.0.spec_plan() == plan,
            plan.lpac ==> r.0.spec_phase() is Probing && r.1 is ProbeLpac,
            !plan.lpac ==> r.0.spec_phase() is WiringStdio && (r.1 matches
                LaunchAction::WireStdio { mode } && mode == plan.stdio),
    {
        let lpac = plan.lpac;
        let stdio = plan.stdio;
        let m = LaunchMachine {
            plan,
            phase: if lpac {
                LaunchPhase::Probing
            } else {
                LaunchPhase::WiringStdio
            },
            probe_passed: false,
            child_stdio: Vec::new(),
            parent_stdio: Vec::new(),
            pid: 0,
            process_h: 0,
            thread_h: 0,
        };
        let a = if lpac {
            LaunchAction::ProbeLpac
        } else {
            LaunchAction::WireStdio { mode: stdio }
        };
        (m, a)
    }

    /// Feeds the LPAC probe result in. An unsupported platform fails the
    /// launch closed, before any native resource is acquired and before any
    /// process-creation action can ever be issued.
    pub fn on_probe(&mut self, supported: bool) -> (a: LaunchAction)
        requires
            old(self).inv(),
            old(self).spec_phase() is Probing,
        ensures
            final(self).inv(),
            final(self).spec_plan() == old(self).spec_plan(),
            !supported ==> final(self).spec_phase() is Failed && (a matches LaunchAction::Abort {
                close,
                error,
            } && close@ == Seq::<u64>::empty() && error == AcError::UnsupportedLpac),
            supported ==> final(self).spec_phase() is WiringStdio && final(self).spec_probe_passed() && (a matches LaunchAction::WireStdio { mode } && mode == old(self).spec_plan().stdio),
    {
        if supported {
            self.probe_passed = true;
            self.phase = LaunchPhase::WiringStdio;
            LaunchAction::WireStdio { mode: self.plan.stdio }
        } else {
            self.phase = LaunchPhase::Failed;
            LaunchAction::Abort { close: Vec::new(), error: AcError::UnsupportedLpac }
        }
    }

    /// Feeds the stdio wiring result in. Success records the acquired
    /// handles and asks for the attribute list; failure closes everything
    /// the wiring had created, newest first.
    pub fn on_stdio(&mut self, outcome: StdioOutcome) -> (a: LaunchAction)
        requires
            old(self).inv(),
            old(self).spec_phase() is WiringStdio,
            outcome is Plain ==> old(self).spec_plan().stdio is Inherit,
            outcome is NullOpened ==> old(self).spec_plan().stdio is Null,
            outcome is PipesCreated ==> old(self).spec_plan().stdio is Pipe,
            outcome matches StdioOutcome::NullOpened { stdin_h, stdout_h, stderr_h }
                ==> distinct_seq(seq![stdin_h, stdout_h, stderr_h]),
            outcome matches StdioOutcome::PipesCreated {
                child_stdin,
                parent_stdin,
                child_stdout,
                parent_stdout,
                child_stderr,
                parent_stderr,
            } ==> distinct_seq(
                seq![
                    child_stdin,
                    parent_stdin,
                    child_stdout,
                    parent_stdout,
                    child_stderr,
                    parent_stderr,
                ],
            ),
            outcome matches StdioOutcome::Failed { stage, .. } ==> stdio_stage(stage),
        ensures
            final(self).inv(),
            final(self).spec_plan() == old(self).spec_plan(),
            outcome matches StdioOutcome::Failed { stage, source, created } ==> final(self).spec_phase() is Failed && (a matches LaunchAction::Abort { close, error } && close@
                == created@.reverse() && stage_error_ok(stage, source@, error)),
            !(outcome is Failed) ==> final(self).spec_phase() is BuildingAttributes && (a matches
                LaunchAction::BuildAttributes { slot_count, attach_lpac, attach_handles } && slot_count
                == old(self).spec_plan().attr_slot_count && attach_lpac == old(self).spec_plan().lpac && attach_handles == (old(self).spec_plan().stdio is Pipe)),
            outcome matches StdioOutcome::PipesCreated {
                child_stdin,
                parent_stdin,
                child_stdout,
                parent_stdout,
                child_stderr,
                parent_stderr,
            } ==> final(self).spec_child() == seq![child_stdin, child_stdout, child_stderr]
                && final(self).spec_parent() == seq![parent_stdin, parent_stdout, parent_stderr],
            outcome matches StdioOutcome::NullOpened { stdin_h, stdout_h, stderr_h } ==> final(self).spec_child() == seq![stdin_h, stdout_h, stderr_h] && final(self).spec_parent()
                == Seq::<u64>::empty(),
    {
        match outcome {
            StdioOutcome::Plain => {
                self.phase = LaunchPhase::BuildingAttributes;
                self.build_attrs_action()
            },
            StdioOutcome::NullOpened { stdin_h, stdout_h, stderr_h } => {
                self.child_stdio.push(stdin_h);
                self.child_stdio.push(stdout_h);
                self.child_stdio.push(stderr_h);
                self.phase = LaunchPhase::BuildingAttributes;
                proof {
                    assert(self.spec_child() =~= seq![stdin_h, stdout_h, stderr_h]);
                }
                self.build_attrs_action()
            },
            StdioOutcome::PipesCreated {
                child_stdin,
                parent_stdin,
                child_stdout,
                parent_stdout,
                child_stderr,
                parent_stderr,
            } => {
                self.child_stdio.push(child_stdin);
                self.child_stdio.push(child_stdout);
                self.child_stdio.push(child_stderr);
                self.parent_stdio.push(parent_stdin);
                self.parent_stdio.push(parent_stdout);
                self.parent_stdio.push(parent_stderr);
                self.phase = LaunchPhase::BuildingAttributes;
                proof {
                    assert(self.spec_child() =~= seq![child_stdin, child_stdout, child_stderr]);
                    assert(self.spec_parent() =~= seq![parent_stdin, parent_stdout, parent_stderr]);
                    assert(self.stdio_acquired() =~= seq![
                        child_stdin,
                        parent_stdin,
                        child_stdout,
                        parent_stdout,
                        child_stderr,
                        parent_stderr,
                    ]);
                }
                self.build_attrs_action()
            },
            StdioOutcome::Failed { stage, source, created } => {
                self.phase = LaunchPhase::Failed;
                let close = reversed_u64(&created);
                LaunchAction::Abort { close, error: stage_error(stage, source) }
            },
        }
    }

    /// The attribute-list request for this plan.
    fn build_attrs_action(&self) -> (a: LaunchAction)
        ensures
            a matches LaunchAction::BuildAttributes { slot_count, attach_lpac, attach_handles }
                && slot_count == self.spec_plan().attr_slot_count && attach_lpac
                == self.spec_plan().lpac && attach_handles == (self.spec_plan().stdio is Pipe),
    {
        let attach_handles = match self.plan.stdio {
            StdioConfig::Pipe => true,
            _ => false,
        };
        LaunchAction::BuildAttributes {
            slot_count: self.plan.attr_slot_count,
            attach_lpac: self.plan.lpac,
            attach_handles,
        }
    }

    /// Feeds the attribute-list result in. Success asks for process
    /// creation; failure closes every stdio handle, newest first.
    pub fn on_attributes(&mut self, outcome: AttrOutcome) -> (a: LaunchAction)
        requires
            old(self).inv(),
            old(self).spec_phase() is BuildingAttributes,
            outcome matches AttrOutcome::Failed { stage, .. } ==> attr_stage(stage),
        ensures
            final(self).inv(),
            final(self).spec_plan() == old(self).spec_plan(),
            outcome is Ready ==> final(self).spec_phase() is Spawning && (a matches
                LaunchAction::Spawn { flags, inherit_handles } && flags == old(self).spec_plan().creation_flags && inherit_handles == old(self).spec_plan().inherit_handles) && final(self).spec_child() == old(self).spec_child()
                && final(self).spec_parent() == old(self).spec_parent(),
            outcome matches AttrOutcome::Failed { stage, source } ==> final(self).spec_phase() is Failed && (a matches LaunchAction::Abort { close, error } && close@
                == old(self).stdio_acquired().reverse() && stage_error_ok(stage, source@, error)),
    {
        match outcome {
            AttrOutcome::Ready => {
                self.phase = LaunchPhase::Spawning;
                LaunchAction::Spawn {
                    flags: self.plan.creation_flags,
                    inherit_handles: self.plan.inherit_handles,
                }
            },
            AttrOutcome::Failed { stage, source } => {
                let close = self.close_stdio_reversed();
                self.phase = LaunchPhase::Failed;
                LaunchAction::Abort { close, error: stage_error(stage, source) }
            },
        }
    }

    /// The stdio handles in reverse acquisition order, clearing the lists.
    fn close_stdio_reversed(&mut self) -> (r: Vec<u64>)
        requires
            old(self).stdio_lists_ok(),
        ensures
            r@ == old(self).stdio_acquired().reverse(),
            final(self).spec_child().len() == 0,
            final(self).spec_parent().len() == 0,
            final(self).spec_plan() == old(self).spec_plan(),
            final(self).spec_phase() == old(self).spec_phase(),
            final(self).spec_probe_passed() == old(self).spec_probe_passed(),
            final(self).spec_pid() == old(self).spec_pid(),
            final(self).spec_process() == old(self).spec_process(),
            final(self).spec_thread() == old(self).spec_thread(),
    {
        let mut r: Vec<u64> = Vec::new();
        match self.plan.stdio {
            StdioConfig::Inherit => {},
            StdioConfig::Null => {
                r.push(self.child_stdio[2]);
                r.push(self.child_stdio[1]);
                r.push(self.child_stdio[0]);
            },
            StdioConfig::Pipe => {
                r.push(self.parent_stdio[2]);
                r.push(self.child_stdio[2]);
                r.push(self.parent_stdio[1]);
                r.push(self.child_stdio[1]);
                r.push(self.parent_stdio[0]);
                r.push(self.child_stdio[0]);
            },
        }
        self.child_stdio.clear();
        self.parent_stdio.clear();
        proof {
            assert(r@ =~= old(self).stdio_acquired().reverse());
        }
        r
    }

    /// Feeds the process-creation result in. Success either moves on to job
    /// configuration (closing the child-side stdio ends first) or finishes,
    /// handing out the parent ends and the process handle; failure closes
    /// every acquired handle, newest first.
    pub fn on_spawn(&mut self, outcome: SpawnOutcome) -> (a: LaunchAction)
        requires
            old(self).inv(),
            old(self).spec_phase() is Spawning,
            outcome matches SpawnOutcome::Created { pid, process_h, thread_h } ==> pid > 0
                && process_h != thread_h && !old(self).stdio_acquired().contains(process_h) && !old(self).stdio_acquired().contains(thread_h),
        ensures
            final(self).inv(),
            final(self).spec_plan() == old(self).spec_plan(),
            outcome matches SpawnOutcome::Failed { source } ==> final(self).spec_phase() is Failed
                && (a matches LaunchAction::Abort { close, error } && close@ == old(self).stdio_acquired().reverse() && stage_error_ok(
                LaunchStage::CreateProcess,
                source@,
                error,
            )),
            outcome matches SpawnOutcome::Created { pid, process_h, thread_h } ==> ((old(
                self,
            ).spec_plan().job is Some ==> final(self).spec_phase() is ConfiguringJob && (a matches
                LaunchAction::ConfigureJob { close, job } && close@ == old(self).spec_child()
                && Some(job) == old(self).spec_plan().job) && final(self).spec_pid() == pid
                && final(self).spec_process() == process_h && final(self).spec_thread() == thread_h
                && final(self).spec_parent() == old(self).spec_parent()) && (old(
                self,
            ).spec_plan().job is None ==> final(self).spec_phase() is Done && (a matches
                LaunchAction::Finish { close, launched } && close@ == old(self).spec_child().push(
                thread_h,
            ) && launched_ok(
                old(self).spec_plan(),
                old(self).spec_parent(),
                pid,
                process_h,
                None,
                launched,
            )))),
    {
        match outcome {
            SpawnOutcome::Created { pid, process_h, thread_h } => {
                self.pid = pid;
                self.process_h = process_h;
                self.thread_h = thread_h;
                if self.plan.job.is_some() {
                    let job = match self.plan.job {
                        Some(j) => j,
                        None => JobPlan { ext: None, cpu_rate: None, keep_guard: false },
                    };
                    let mut close: Vec<u64> = Vec::new();
                    match self.plan.stdio {
                        StdioConfig::Inherit => {},
                        _ => {
                            close.push(self.child_stdio[0]);
                            close.push(self.child_stdio[1]);
                            close.push(self.child_stdio[2]);
                        },
                    }
                    self.child_stdio.clear();
                    self.phase = LaunchPhase::ConfiguringJob;
                    proof {
                        assert(close@ =~= old(self).spec_child());
                    }
                    LaunchAction::ConfigureJob { close, job }
                } else {
                    let launched = self.finish_handles(None);
                    let mut close: Vec<u64> = Vec::new();
                    match self.plan.stdio {
                        StdioConfig::Inherit => {},
                        _ => {
                            close.push(self.child_stdio[0]);
                            close.push(self.child_stdio[1]);
                            close.push(self.child_stdio[2]);
                        },
                    }
                    close.push(thread_h);
                    self.child_stdio.clear();
                    self.parent_stdio.clear();
                    self.phase = LaunchPhase::Done;
                    proof {
                        assert(close@ =~= old(self).spec_child().push(thread_h));
                    }
                    LaunchAction::Finish { close, launched }
                }
            },
            SpawnOutcome::Failed { source } => {
                let close = self.close_stdio_reversed();
                self.phase = LaunchPhase::Failed;
                LaunchAction::Abort {
                    close,
                    error: stage_error(LaunchStage::CreateProcess, source),
                }
            },
        }
    }

    /// The handles a finishing launch hands out.
    fn finish_handles(&self, job_h: Option<u64>) -> (l: LaunchedHandles)
        requires
            self.spec_pid() > 0,
            self.spec_plan().stdio is Pipe ==> self.spec_parent().len() == 3 && distinct_seq(
                self.spec_parent(),
            ),
        ensures
            launched_ok(
                self.spec_plan(),
                self.spec_parent(),
                self.spec_pid(),
                self.spec_process(),
                job_h,
                l,
            ),
    {
        let (i, o, e) = match self.plan.stdio {
            StdioConfig::Pipe => (
                Some(self.parent_stdio[0]),
                Some(self.parent_stdio[1]),
                Some(self.parent_stdio[2]),
            ),
            _ => (None, None, None),
        };
        LaunchedHandles {
            pid: self.pid,
            stdin_h: i,
            stdout_h: o,
            stderr_h: e,
            process_h: self.process_h,
            job_guard_h: job_h,
        }
    }

    /// Feeds the job-configuration result in. Success finishes the launch,
    /// retaining the job handle as a kill-on-close guard exactly when the
    /// limits asked for it; failure closes the job handle (if made), the
    /// thread and process handles, and the parent pipe ends.
    pub fn on_job(&mut self, outcome: JobOutcome) -> (a: LaunchAction)
        requires
            old(self).inv(),
            old(self).spec_phase() is ConfiguringJob,
            outcome matches JobOutcome::Failed { stage, .. } ==> job_stage(stage),
        ensures
            final(self).inv(),
            final(self).spec_plan() == old(self).spec_plan(),
            outcome matches JobOutcome::Configured { job_h } ==> final(self).spec_phase() is Done
                && (a matches LaunchAction::Finish { close, launched } && (if old(self).spec_plan().job.unwrap().keep_guard {
                close@ == seq![old(self).spec_thread()] && launched_ok(
                    old(self).spec_plan(),
                    old(self).spec_parent(),
                    old(self).spec_pid(),
                    old(self).spec_process(),
                    Some(job_h),
                    launched,
                )
            } else {
                close@ == seq![job_h, old(self).spec_thread()] && launched_ok(
                    old(self).spec_plan(),
                    old(self).spec_parent(),
                    old(self).spec_pid(),
                    old(self).spec_process(),
                    None,
                    launched,
                )
            })),
            outcome matches JobOutcome::Failed { stage, source, job_h } ==> final(self).spec_phase() is Failed && (a matches LaunchAction::Abort { close, error } && close@
                == (match job_h {
                Some(j) => seq![j],
                None => Seq::<u64>::empty(),
            }) + seq![old(self).spec_thread(), old(self).spec_process()] + old(self).spec_parent().reverse() && stage_error_ok(stage, source@, error)),
    {
        match outcome {
            JobOutcome::Configured { job_h } => {
                let keep = match self.plan.job {
                    Some(j) => j.keep_guard,
                    None => false,
                };
                let mut close: Vec<u64> = Vec::new();
                let launched;
                if keep {
                    launched = self.finish_handles(Some(job_h));
                    close.push(self.thread_h);
                } else {
                    launched = self.finish_handles(None);
                    close.push(job_h);
                    close.push(self.thread_h);
                }
                self.child_stdio.clear();
                self.parent_stdio.clear();
                self.phase = LaunchPhase::Done;
                LaunchAction::Finish { close, launched }
            },
            JobOutcome::Failed { stage, source, job_h } => {
                let mut close: Vec<u64> = Vec::new();
                match job_h {
                    Some(j) => {
                        close.push(j);
                    },
                    None => {},
                }
                close.push(self.thread_h);
                close.push(self.process_h);
                match self.plan.stdio {
                    StdioConfig::Pipe => {
                        close.push(self.parent_stdio[2]);
                        close.push(self.parent_stdio[1]);
                        close.push(self.parent_stdio[0]);
                    },
                    _ => {},
                }
                self.child_stdio.clear();
                self.parent_stdio.clear();
                self.phase = LaunchPhase::Failed;
                proof {
                    assert(close@ =~= (match job_h {
                        Some(j) => seq![j],
                        None => Seq::<u64>::empty(),
                    }) + seq![old(self).spec_thread(), old(self).spec_process()] + old(self).spec_parent().reverse());
                }
                LaunchAction::Abort { close, error: stage_error(stage, source) }
            },
        }
    }
}

/// The handles of `v`, newest first.
fn reversed_u64(v: &Vec<u64>) -> (r: Vec<u64>)
    ensures
        r@ == v@.reverse(),
{
    let mut r: Vec<u64> = Vec::new();
    let mut k: usize = v.len();
    while k > 0
        invariant
            k <= v@.len(),
            r@.len() == v@.len() - k,
            forall|i: int| 0 <= i < r@.len() ==> r@[i] == v@[v@.len() - 1 - i],
        decreases k,
    {
        k = k - 1;
        r.push(v[k]);
    }
    proof {
        assert(r@ =~= v@.reverse());
    }
    r
}

/// An LPAC launch spawns no process before its probe has passed: in any
/// reachable machine state at or past attribute construction, a plan that
/// requested LPAC has a recorded successful probe — and a failed probe puts
/// the machine into its terminal failed phase, from which no further action
/// can be requested.
pub proof fn lemma_lpac_gates_spawn(m: LaunchMachine)
    requires
        m.inv(),
        m.spec_phase() is BuildingAttributes || m.spec_phase() is Spawning || m.spec_phase()
            is ConfiguringJob,
        m.spec_plan().lpac,
    ensures
        m.spec_probe_passed(),
{
}

/// Terminal phases hold no unreleased handle: every acquired native handle
/// has been named in a close list or handed out in a `Finish` action.
pub proof fn lemma_terminal_releases_all(m: LaunchMachine)
    requires
        m.inv(),
        m.spec_phase() is Done || m.spec_phase() is Failed,
    ensures
        m.spec_outstanding() == Seq::<u64>::empty(),
{
}

} // verus!
