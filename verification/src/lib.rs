//! AppContainer / LPAC process-isolation toolkit: the verified core.
//!
//! This crate models and verifies the secure process-launch engine for
//! Windows AppContainer sandboxes: composing a security-capability
//! descriptor from named capabilities and an LPAC flag, planning the native
//! extended-startup attribute list, wiring child stdio through pipe pairs,
//! applying job-object resource limits, and keeping every acquired native
//! resource single-owner and released exactly once across all error paths.
//!
//! The native calls themselves (SID conversion, attribute-list updates,
//! `CreateProcessW`, job objects) are performed by an unverified runner that
//! drives the [`LaunchMachine`] one event at a time; everything that can be
//! decided from plain values is decided — and proved — here.

mod capability;
mod env;
mod error;
mod launch;
mod net;
mod sid;
mod util;

pub use launch::{AttrOutcome, JobLimits, JobOutcome, JobPlan, LaunchAction, LaunchMachine};
pub use launch::{LaunchOptions, LaunchPhase, LaunchPlan, LaunchStage, Launched, LaunchedHandles};
pub use launch::{SpawnOutcome, StdioConfig, StdioOutcome, WaitOutcome};
pub use launch::{creation_flags, job_cpu_rate, lpac_supported_version, plan_job, stage_error};
pub use launch::{wait_exit_disposition, wait_millis};
pub use launch::{
    ALL_APPLICATION_PACKAGES_OPT_OUT, CREATE_SUSPENDED, CREATE_UNICODE_ENVIRONMENT,
    EXTENDED_STARTUPINFO_PRESENT, INFINITE, JOB_OBJECT_CPU_RATE_CONTROL_ENABLE,
    JOB_OBJECT_CPU_RATE_CONTROL_HARD_CAP, JOB_OBJECT_LIMIT_KILL_ON_JOB_CLOSE,
    JOB_OBJECT_LIMIT_PROCESS_MEMORY, STARTF_USESTDHANDLES,
};
pub use capability::SE_GROUP_ENABLED;
pub use net::{ConfirmedLoopbackAdd, LoopbackAdd};

pub use env::{WideBlock, env_block_ok, key_le, keys_sorted, make_wide_block};

pub use capability::{Capability, CapabilityCatalog, CapabilityName, CapabilityResolver};
pub use capability::{KnownCapability, SecurityCapabilities, SecurityCapabilitiesBuilder};
pub use capability::{all_capability_names, derive_named_capability_sids, known_caps_to_named};
pub use capability::{str_eq, suggest_capability_name};
pub use util::to_utf16;

pub use error::AcError;
pub use error::spec_message;
pub use sid::{AppContainerSid, AppSid, SidAndAttributes};
pub use sid::{is_valid_sddl_str, valid_sddl};
