//! The requests of the operations whose arguments are converted on the way out.
//!
//! Every other operation hands its arguments to the matching
//! [`Request`] as they are.

use crate::client::config::{MachineConfig, MachineRuntimeConfig};
use crate::client::log::{AccessLog, AccessLogType};
use crate::client::payload::{encode_payload, payload_encoding};
use crate::interfaces::Request;
use vstd::prelude::*;
use vstd::string::*;

verus! {

/// The request that creates a machine from a configuration.
pub fn create_machine(
    machine_config: &MachineConfig,
    machine_runtime_config: &MachineRuntimeConfig,
) -> (request: Request)
    ensures
        request matches Request::MachineMachineConfig { config, runtime }
            && config.deep_view() == machine_config.deep_view().spec_to_wire()
            && runtime == machine_runtime_config.spec_to_wire(),
{
    Request::MachineMachineConfig {
        config: machine_config.to_wire(),
        runtime: machine_runtime_config.to_wire(),
    }
}

/// The request that creates a machine from a directory on the server's host.
pub fn load_machine(
    directory: &str,
    machine_runtime_config: &MachineRuntimeConfig,
) -> (request: Request)
    ensures
        request matches Request::MachineMachineDirectory { directory: sent, runtime }
            && sent@ == directory@
            && runtime == machine_runtime_config.spec_to_wire(),
{
    Request::MachineMachineDirectory {
        directory: String::from_str(directory),
        runtime: machine_runtime_config.to_wire(),
    }
}

/// The request that runs the microarchitecture for one cycle and asks for the
/// log of its accesses.
pub fn step(log_type: &AccessLogType, one_based: bool) -> (request: Request)
    ensures
        request == (Request::MachineStepUarch { log_type: log_type.spec_to_wire(), one_based }),
{
    Request::MachineStepUarch { log_type: log_type.to_wire(), one_based }
}

/// The request that checks an access log for consistency.
pub fn verify_access_log(
    log: &AccessLog,
    runtime: &MachineRuntimeConfig,
    one_based: bool,
) -> (request: Request)
    ensures
        request matches Request::MachineVerifyAccessLog {
            log: sent_log,
            runtime: sent_runtime,
            one_based: sent_one_based,
        } && sent_log.deep_view() == log.deep_view().spec_to_wire()
            && sent_runtime == runtime.spec_to_wire()
            && sent_one_based == one_based,
{
    Request::MachineVerifyAccessLog {
        log: log.to_wire(),
        runtime: runtime.to_wire(),
        one_based,
    }
}

/// The request that checks that an access log leads from one root hash to
/// another.
///
/// Both hashes travel as payloads. On the wire the runtime configuration comes
/// before the flag.
pub fn verify_state_transition(
    root_hash_before: &[u8],
    log: &AccessLog,
    root_hash_after: &[u8],
    one_based: bool,
    runtime: &MachineRuntimeConfig,
) -> (request: Request)
    ensures
        request matches Request::MachineVerifyStateTransition {
            root_hash_before: sent_before,
            log: sent_log,
            root_hash_after: sent_after,
            runtime: sent_runtime,
            one_based: sent_one_based,
        } && sent_before@ == payload_encoding(root_hash_before@)
            && sent_log.deep_view() == log.deep_view().spec_to_wire()
            && sent_after@ == payload_encoding(root_hash_after@)
            && sent_runtime == runtime.spec_to_wire()
            && sent_one_based == one_based,
{
    Request::MachineVerifyStateTransition {
        root_hash_before: encode_payload(root_hash_before),
        log: log.to_wire(),
        root_hash_after: encode_payload(root_hash_after),
        runtime: runtime.to_wire(),
        one_based,
    }
}

} // verus!
