//! Requests: which method each operation calls, and with which parameters.
//!
//! The interface is JSON-RPC 2.0 with positional parameters. The method names
//! are those the server registers and are matched letter for letter, so the
//! name and the order of the parameters of each request are fixed here.

use crate::interfaces::config::{
    MachineConfig, MachineConfigView, MachineRuntimeConfig, MemoryRangeConfig,
    MemoryRangeConfigView,
};
use crate::interfaces::log::{AccessLog, AccessLogType, AccessLogView};
use vstd::prelude::*;

verus! {

/// One positional parameter of a request.
#[derive(Debug, Clone, PartialEq)]
pub enum Param {
    /// An address, an index, a length, a value or a cycle count.
    Integer(u64),
    /// A flag.
    Boolean(bool),
    /// A directory, the name of a register, or binary data in base64.
    Text(String),
    /// The configuration of a machine to create.
    MachineConfig(MachineConfig),
    /// The toggles that apply while a machine runs.
    MachineRuntimeConfig(MachineRuntimeConfig),
    /// What a log is to carry.
    AccessLogType(AccessLogType),
    /// A log to check.
    AccessLog(AccessLog),
    /// A memory range to put in place of another.
    MemoryRangeConfig(MemoryRangeConfig),
}

/// The mathematical value of a [`Param`].
pub enum ParamView {
    Integer(u64),
    Boolean(bool),
    Text(Seq<char>),
    MachineConfig(MachineConfigView),
    MachineRuntimeConfig(MachineRuntimeConfig),
    AccessLogType(AccessLogType),
    AccessLog(AccessLogView),
    MemoryRangeConfig(MemoryRangeConfigView),
}

impl DeepView for Param {
    type V = ParamView;

    open spec fn deep_view(&self) -> ParamView {
        match self {
            Param::Integer(value) => ParamView::Integer(*value),
            Param::Boolean(value) => ParamView::Boolean(*value),
            Param::Text(value) => ParamView::Text(value@),
            Param::MachineConfig(value) => ParamView::MachineConfig(value.deep_view()),
            Param::MachineRuntimeConfig(value) => ParamView::MachineRuntimeConfig(*value),
            Param::AccessLogType(value) => ParamView::AccessLogType(*value),
            Param::AccessLog(value) => ParamView::AccessLog(value.deep_view()),
            Param::MemoryRangeConfig(value) => ParamView::MemoryRangeConfig(value.deep_view()),
        }
    }
}

/// One call of the interface, with its parameters in wire shape.
#[derive(Debug, Clone, PartialEq)]
pub enum Request {
    /// Asks nothing; a reply shows that the server is there.
    CheckConnection,
    /// Forks the server; the reply is the address of the new server.
    Fork,
    /// Shuts the server down.
    Shutdown,
    /// Asks for the version of the server.
    GetVersion,
    /// Creates a machine from a configuration.
    MachineMachineConfig { config: MachineConfig, runtime: MachineRuntimeConfig },
    /// Creates a machine from a directory on the server's host.
    MachineMachineDirectory { directory: String, runtime: MachineRuntimeConfig },
    /// Destroys the machine.
    MachineDestroy,
    /// Stores the machine in a directory on the server's host.
    MachineStore { directory: String },
    /// Runs the machine until the given cycle.
    MachineRun { mcycle_end: u64 },
    /// Runs the microarchitecture until the given cycle.
    MachineRunUarch { uarch_cycle_end: u64 },
    /// Runs the microarchitecture for one cycle and logs its accesses.
    MachineStepUarch { log_type: AccessLogType, one_based: bool },
    /// Checks an access log for consistency.
    MachineVerifyAccessLog { log: AccessLog, runtime: MachineRuntimeConfig, one_based: bool },
    /// Checks that an access log leads from one root hash to another.
    MachineVerifyStateTransition {
        root_hash_before: String,
        log: AccessLog,
        root_hash_after: String,
        runtime: MachineRuntimeConfig,
        one_based: bool,
    },
    /// Asks for the Merkle proof of a node.
    MachineGetProof { address: u64, log2_size: u64 },
    /// Asks for the root hash of the Merkle tree.
    MachineGetRootHash,
    /// Reads a word of the machine state.
    MachineReadWord { address: u64 },
    /// Reads a range of physical memory.
    MachineReadMemory { address: u64, length: u64 },
    /// Writes base64 data to physical memory.
    MachineWriteMemory { address: u64, data: String },
    /// Reads a range of virtual memory.
    MachineReadVirtualMemory { address: u64, length: u64 },
    /// Writes base64 data to virtual memory.
    MachineWriteVirtualMemory { address: u64, data: String },
    /// Replaces a memory range.
    MachineReplaceMemoryRange { range: MemoryRangeConfig },
    /// Reads a control and status register.
    MachineReadCsr { csr: String },
    /// Writes a control and status register.
    MachineWriteCsr { csr: String, value: u64 },
    /// Asks for the address of a control and status register.
    MachineGetCsrAddress { csr: String },
    /// Reads a general-purpose register.
    MachineReadX { index: u64 },
    /// Reads a floating-point register.
    MachineReadF { index: u64 },
    /// Reads a microarchitecture register.
    MachineReadUarchX { index: u64 },
    /// Writes a general-purpose register.
    MachineWriteX { index: u64, value: u64 },
    /// Writes a floating-point register.
    MachineWriteF { index: u64, value: u64 },
    /// Writes a microarchitecture register.
    MachineWriteUarchX { index: u64, value: u64 },
    /// Asks for the address of a general-purpose register.
    MachineGetXAddress { index: u64 },
    /// Asks for the address of a floating-point register.
    MachineGetFAddress { index: u64 },
    /// Asks for the address of a microarchitecture register.
    MachineGetUarchXAddress { index: u64 },
    /// Sets the flag `iflags.Y`.
    MachineSetIflagsY,
    /// Resets the flag `iflags.Y`.
    MachineResetIflagsY,
    /// Reads the flag `iflags.Y`.
    MachineReadIflagsY,
    /// Sets the flag `iflags.X`.
    MachineSetIflagsX,
    /// Resets the flag `iflags.X`.
    MachineResetIflagsX,
    /// Reads the flag `iflags.X`.
    MachineReadIflagsX,
    /// Sets the flag `iflags.H`.
    MachineSetIflagsH,
    /// Reads the flag `iflags.H`.
    MachineReadIflagsH,
    /// Reads the privilege level.
    MachineReadIflagsPRV,
    /// Sets the halt flag of the microarchitecture.
    MachineSetUarchHaltFlag,
    /// Reads the halt flag of the microarchitecture.
    MachineReadUarchHaltFlag,
    /// Resets the microarchitecture.
    MachineResetUarchState,
    /// Asks for the configuration the machine was created with.
    MachineGetInitialConfig,
    /// Asks for the server's default configuration.
    MachineGetDefaultConfig,
    /// Checks the Merkle tree for consistency.
    MachineVerifyMerkleTree,
    /// Checks the dirty page maps for consistency.
    MachineVerifyDirtyPageMaps,
    /// Dumps the memory ranges to files on the server's host.
    MachineDumpPmas,
}

impl Request {
    /// The name under which the server registers the method of this request.
    pub open spec fn method_name(self) -> Seq<char> {
        match self {
            Request::CheckConnection => ""@,
            Request::Fork => "fork"@,
            Request::Shutdown => "shutdown"@,
            Request::GetVersion => "get_version"@,
            Request::MachineMachineConfig { .. } => "machine.machine.config"@,
            Request::MachineMachineDirectory { .. } => "machine.machine.directory"@,
            Request::MachineDestroy => "machine.destroy"@,
            Request::MachineStore { .. } => "machine.store"@,
            Request::MachineRun { .. } => "machine.run"@,
            Request::MachineRunUarch { .. } => "machine.run_uarch"@,
            Request::MachineStepUarch { .. } => "machine.step_uarch"@,
            Request::MachineVerifyAccessLog { .. } => "machine.verify_access_log"@,
            Request::MachineVerifyStateTransition { .. } => "machine.verify_state_transition"@,
            Request::MachineGetProof { .. } => "machine.get_proof"@,
            Request::MachineGetRootHash => "machine.get_root_hash"@,
            Request::MachineReadWord { .. } => "machine.read_word"@,
            Request::MachineReadMemory { .. } => "machine.read_memory"@,
            Request::MachineWriteMemory { .. } => "machine.write_memory"@,
            Request::MachineReadVirtualMemory { .. } => "machine.read_virtual_memory"@,
            Request::MachineWriteVirtualMemory { .. } => "machine.write_virtual_memory"@,
            Request::MachineReplaceMemoryRange { .. } => "machine.replace_memory_range"@,
            Request::MachineReadCsr { .. } => "machine.read_csr"@,
            Request::MachineWriteCsr { .. } => "machine.write_csr"@,
            Request::MachineGetCsrAddress { .. } => "machine.get_csr_address"@,
            Request::MachineReadX { .. } => "machine.read_x"@,
            Request::MachineReadF { .. } => "machine.read_f"@,
            Request::MachineReadUarchX { .. } => "machine.read_uarch_x"@,
            Request::MachineWriteX { .. } => "machine.write_x"@,
            Request::MachineWriteF { .. } => "machine.write_f"@,
            Request::MachineWriteUarchX { .. } => "machine.write_uarch_x"@,
            Request::MachineGetXAddress { .. } => "machine.get_x_address"@,
            Request::MachineGetFAddress { .. } => "machine.get_f_address"@,
            Request::MachineGetUarchXAddress { .. } => "machine.get_uarch_x_address"@,
            Request::MachineSetIflagsY => "machine.set_iflags_Y"@,
            Request::MachineResetIflagsY => "machine.reset_iflags_Y"@,
            Request::MachineReadIflagsY => "machine.read_iflags_Y"@,
            Request::MachineSetIflagsX => "machine.set_iflags_X"@,
            Request::MachineResetIflagsX => "machine.reset_iflags_X"@,
            Request::MachineReadIflagsX => "machine.read_iflags_X"@,
            Request::MachineSetIflagsH => "machine.set_iflags_H"@,
            Request::MachineReadIflagsH => "machine.read_iflags_H"@,
            Request::MachineReadIflagsPRV => "machine.read_iflags_PRV"@,
            Request::MachineSetUarchHaltFlag => "machine.set_uarch_halt_flag"@,
            Request::MachineReadUarchHaltFlag => "machine.read_uarch_halt_flag"@,
            Request::MachineResetUarchState => "machine.reset_uarch_state"@,
            Request::MachineGetInitialConfig => "machine.get_initial_config"@,
            Request::MachineGetDefaultConfig => "machine.get_default_config"@,
            Request::MachineVerifyMerkleTree => "machine.verify_merkle_tree"@,
            Request::MachineVerifyDirtyPageMaps => "machine.verify_dirty_page_maps"@,
            Request::MachineDumpPmas => "machine.dump_pmas"@,
        }
    }

    /// The parameters of this request, in the order the server expects.
    pub open spec fn parameters(self) -> Seq<ParamView> {
        match self {
            Request::CheckConnection => Seq::empty(),
            Request::Fork => Seq::empty(),
            Request::Shutdown => Seq::empty(),
            Request::GetVersion => Seq::empty(),
            Request::MachineMachineConfig { config, runtime } => seq![
                ParamView::MachineConfig(config.deep_view()),
                ParamView::MachineRuntimeConfig(runtime),
            ],
            Request::MachineMachineDirectory { directory, runtime } => seq![
                ParamView::Text(directory@),
                ParamView::MachineRuntimeConfig(runtime),
            ],
            Request::MachineDestroy => Seq::empty(),
            Request::MachineStore { directory } => seq![
                ParamView::Text(directory@),
            ],
            Request::MachineRun { mcycle_end } => seq![
                ParamView::Integer(mcycle_end),
            ],
            Request::MachineRunUarch { uarch_cycle_end } => seq![
                ParamView::Integer(uarch_cycle_end),
            ],
            Request::MachineStepUarch { log_type, one_based } => seq![
                ParamView::AccessLogType(log_type),
                ParamView::Boolean(one_based),
            ],
            Request::MachineVerifyAccessLog { log, runtime, one_based } => seq![
                ParamView::AccessLog(log.deep_view()),
                ParamView::MachineRuntimeConfig(runtime),
                ParamView::Boolean(one_based),
            ],
            Request::MachineVerifyStateTransition {
                root_hash_before,
                log,
                root_hash_after,
                runtime,
                one_based,
            } => seq![
                ParamView::Text(root_hash_before@),
                ParamView::AccessLog(log.deep_view()),
                ParamView::Text(root_hash_after@),
                ParamView::MachineRuntimeConfig(runtime),
                ParamView::Boolean(one_based),
            ],
            Request::MachineGetProof { address, log2_size } => seq![
                ParamView::Integer(address),
                ParamView::Integer(log2_size),
            ],
            Request::MachineGetRootHash => Seq::empty(),
            Request::MachineReadWord { address } => seq![
                ParamView::Integer(address),
            ],
            Request::MachineReadMemory { address, length } => seq![
                ParamView::Integer(address),
                ParamView::Integer(length),
            ],
            Request::MachineWriteMemory { address, data } => seq![
                ParamView::Integer(address),
                ParamView::Text(data@),
            ],
            Request::MachineReadVirtualMemory { address, length } => seq![
                ParamView::Integer(address),
                ParamView::Integer(length),
            ],
            Request::MachineWriteVirtualMemory { address, data } => seq![
                ParamView::Integer(address),
                ParamView::Text(data@),
            ],
            Request::MachineReplaceMemoryRange { range } => seq![
                ParamView::MemoryRangeConfig(range.deep_view()),
            ],
            Request::MachineReadCsr { csr } => seq![
                ParamView::Text(csr@),
            ],
            Request::MachineWriteCsr { csr, value } => seq![
                ParamView::Text(csr@),
                ParamView::Integer(value),
            ],
            Request::MachineGetCsrAddress { csr } => seq![
                ParamView::Text(csr@),
            ],
            Request::MachineReadX { index } => seq![
                ParamView::Integer(index),
            ],
            Request::MachineReadF { index } => seq![
                ParamView::Integer(index),
            ],
            Request::MachineReadUarchX { index } => seq![
                ParamView::Integer(index),
            ],
            Request::MachineWriteX { index, value } => seq![
                ParamView::Integer(index),
                ParamView::Integer(value),
            ],
            Request::MachineWriteF { index, value } => seq![
                ParamView::Integer(index),
                ParamView::Integer(value),
            ],
            Request::MachineWriteUarchX { index, value } => seq![
                ParamView::Integer(index),
                ParamView::Integer(value),
            ],
            Request::MachineGetXAddress { index } => seq![
                ParamView::Integer(index),
            ],
            Request::MachineGetFAddress { index } => seq![
                ParamView::Integer(index),
            ],
            Request::MachineGetUarchXAddress { index } => seq![
                ParamView::Integer(index),
            ],
            Request::MachineSetIflagsY => Seq::empty(),
            Request::MachineResetIflagsY => Seq::empty(),
            Request::MachineReadIflagsY => Seq::empty(),
            Request::MachineSetIflagsX => Seq::empty(),
            Request::MachineResetIflagsX => Seq::empty(),
            Request::MachineReadIflagsX => Seq::empty(),
            Request::MachineSetIflagsH => Seq::empty(),
            Request::MachineReadIflagsH => Seq::empty(),
            Request::MachineReadIflagsPRV => Seq::empty(),
            Request::MachineSetUarchHaltFlag => Seq::empty(),
            Request::MachineReadUarchHaltFlag => Seq::empty(),
            Request::MachineResetUarchState => Seq::empty(),
            Request::MachineGetInitialConfig => Seq::empty(),
            Request::MachineGetDefaultConfig => Seq::empty(),
            Request::MachineVerifyMerkleTree => Seq::empty(),
            Request::MachineVerifyDirtyPageMaps => Seq::empty(),
            Request::MachineDumpPmas => Seq::empty(),
        }
    }

    /// The name of the method to call.
    pub fn method(&self) -> (name: &'static str)
        ensures
            name@ == self.method_name(),
    {
        match self {
            Request::CheckConnection => "",
            Request::Fork => "fork",
            Request::Shutdown => "shutdown",
            Request::GetVersion => "get_version",
            Request::MachineMachineConfig { .. } => "machine.machine.config",
            Request::MachineMachineDirectory { .. } => "machine.machine.directory",
            Request::MachineDestroy => "machine.destroy",
            Request::MachineStore { .. } => "machine.store",
            Request::MachineRun { .. } => "machine.run",
            Request::MachineRunUarch { .. } => "machine.run_uarch",
            Request::MachineStepUarch { .. } => "machine.step_uarch",
            Request::MachineVerifyAccessLog { .. } => "machine.verify_access_log",
            Request::MachineVerifyStateTransition { .. } => "machine.verify_state_transition",
            Request::MachineGetProof { .. } => "machine.get_proof",
            Request::MachineGetRootHash => "machine.get_root_hash",
            Request::MachineReadWord { .. } => "machine.read_word",
            Request::MachineReadMemory { .. } => "machine.read_memory",
            Request::MachineWriteMemory { .. } => "machine.write_memory",
            Request::MachineReadVirtualMemory { .. } => "machine.read_virtual_memory",
            Request::MachineWriteVirtualMemory { .. } => "machine.write_virtual_memory",
            Request::MachineReplaceMemoryRange { .. } => "machine.replace_memory_range",
            Request::MachineReadCsr { .. } => "machine.read_csr",
            Request::MachineWriteCsr { .. } => "machine.write_csr",
            Request::MachineGetCsrAddress { .. } => "machine.get_csr_address",
            Request::MachineReadX { .. } => "machine.read_x",
            Request::MachineReadF { .. } => "machine.read_f",
            Request::MachineReadUarchX { .. } => "machine.read_uarch_x",
            Request::MachineWriteX { .. } => "machine.write_x",
            Request::MachineWriteF { .. } => "machine.write_f",
            Request::MachineWriteUarchX { .. } => "machine.write_uarch_x",
            Request::MachineGetXAddress { .. } => "machine.get_x_address",
            Request::MachineGetFAddress { .. } => "machine.get_f_address",
            Request::MachineGetUarchXAddress { .. } => "machine.get_uarch_x_address",
            Request::MachineSetIflagsY => "machine.set_iflags_Y",
            Request::MachineResetIflagsY => "machine.reset_iflags_Y",
            Request::MachineReadIflagsY => "machine.read_iflags_Y",
            Request::MachineSetIflagsX => "machine.set_iflags_X",
            Request::MachineResetIflagsX => "machine.reset_iflags_X",
            Request::MachineReadIflagsX => "machine.read_iflags_X",
            Request::MachineSetIflagsH => "machine.set_iflags_H",
            Request::MachineReadIflagsH => "machine.read_iflags_H",
            Request::MachineReadIflagsPRV => "machine.read_iflags_PRV",
            Request::MachineSetUarchHaltFlag => "machine.set_uarch_halt_flag",
            Request::MachineReadUarchHaltFlag => "machine.read_uarch_halt_flag",
            Request::MachineResetUarchState => "machine.reset_uarch_state",
            Request::MachineGetInitialConfig => "machine.get_initial_config",
            Request::MachineGetDefaultConfig => "machine.get_default_config",
            Request::MachineVerifyMerkleTree => "machine.verify_merkle_tree",
            Request::MachineVerifyDirtyPageMaps => "machine.verify_dirty_page_maps",
            Request::MachineDumpPmas => "machine.dump_pmas",
        }
    }

    /// The positional parameters to send with the call.
    pub fn into_params(self) -> (params: Vec<Param>)
        ensures
            params.deep_view() == self.parameters(),
    {
        let ghost expected = self.parameters();
        let params = match self {
            Request::CheckConnection => Vec::new(),
            Request::Fork => Vec::new(),
            Request::Shutdown => Vec::new(),
            Request::GetVersion => Vec::new(),
            Request::MachineMachineConfig { config, runtime } => vec![
                Param::MachineConfig(config),
                Param::MachineRuntimeConfig(runtime),
            ],
            Request::MachineMachineDirectory { directory, runtime } => vec![
                Param::Text(directory),
                Param::MachineRuntimeConfig(runtime),
            ],
            Request::MachineDestroy => Vec::new(),
            Request::MachineStore { directory } => vec![
                Param::Text(directory),
            ],
            Request::MachineRun { mcycle_end } => vec![
                Param::Integer(mcycle_end),
            ],
            Request::MachineRunUarch { uarch_cycle_end } => vec![
                Param::Integer(uarch_cycle_end),
            ],
            Request::MachineStepUarch { log_type, one_based } => vec![
                Param::AccessLogType(log_type),
                Param::Boolean(one_based),
            ],
            Request::MachineVerifyAccessLog { log, runtime, one_based } => vec![
                Param::AccessLog(log),
                Param::MachineRuntimeConfig(runtime),
                Param::Boolean(one_based),
            ],
            Request::MachineVerifyStateTransition {
                root_hash_before,
                log,
                root_hash_after,
                runtime,
                one_based,
            } => vec![
                Param::Text(root_hash_before),
                Param::AccessLog(log),
                Param::Text(root_hash_after),
                Param::MachineRuntimeConfig(runtime),
                Param::Boolean(one_based),
            ],
            Request::MachineGetProof { address, log2_size } => vec![
                Param::Integer(address),
                Param::Integer(log2_size),
            ],
            Request::MachineGetRootHash => Vec::new(),
            Request::MachineReadWord { address } => vec![
                Param::Integer(address),
            ],
            Request::MachineReadMemory { address, length } => vec![
                Param::Integer(address),
                Param::Integer(length),
            ],
            Request::MachineWriteMemory { address, data } => vec![
                Param::Integer(address),
                Param::Text(data),
            ],
            Request::MachineReadVirtualMemory { address, length } => vec![
                Param::Integer(address),
                Param::Integer(length),
            ],
            Request::MachineWriteVirtualMemory { address, data } => vec![
                Param::Integer(address),
                Param::Text(data),
            ],
            Request::MachineReplaceMemoryRange { range } => vec![
                Param::MemoryRangeConfig(range),
            ],
            Request::MachineReadCsr { csr } => vec![
                Param::Text(csr),
            ],
            Request::MachineWriteCsr { csr, value } => vec![
                Param::Text(csr),
                Param::Integer(value),
            ],
            Request::MachineGetCsrAddress { csr } => vec![
                Param::Text(csr),
            ],
            Request::MachineReadX { index } => vec![
                Param::Integer(index),
            ],
            Request::MachineReadF { index } => vec![
                Param::Integer(index),
            ],
            Request::MachineReadUarchX { index } => vec![
                Param::Integer(index),
            ],
            Request::MachineWriteX { index, value } => vec![
                Param::Integer(index),
                Param::Integer(value),
            ],
            Request::MachineWriteF { index, value } => vec![
                Param::Integer(index),
                Param::Integer(value),
            ],
            Request::MachineWriteUarchX { index, value } => vec![
                Param::Integer(index),
                Param::Integer(value),
            ],
            Request::MachineGetXAddress { index } => vec![
                Param::Integer(index),
            ],
            Request::MachineGetFAddress { index } => vec![
                Param::Integer(index),
            ],
            Request::MachineGetUarchXAddress { index } => vec![
                Param::Integer(index),
            ],
            Request::MachineSetIflagsY => Vec::new(),
            Request::MachineResetIflagsY => Vec::new(),
            Request::MachineReadIflagsY => Vec::new(),
            Request::MachineSetIflagsX => Vec::new(),
            Request::MachineResetIflagsX => Vec::new(),
            Request::MachineReadIflagsX => Vec::new(),
            Request::MachineSetIflagsH => Vec::new(),
            Request::MachineReadIflagsH => Vec::new(),
            Request::MachineReadIflagsPRV => Vec::new(),
            Request::MachineSetUarchHaltFlag => Vec::new(),
            Request::MachineReadUarchHaltFlag => Vec::new(),
            Request::MachineResetUarchState => Vec::new(),
            Request::MachineGetInitialConfig => Vec::new(),
            Request::MachineGetDefaultConfig => Vec::new(),
            Request::MachineVerifyMerkleTree => Vec::new(),
            Request::MachineVerifyDirtyPageMaps => Vec::new(),
            Request::MachineDumpPmas => Vec::new(),
        };
        assert(params.deep_view() =~= expected);
        params
    }
}

} // verus!
