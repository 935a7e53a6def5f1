use cartesi_machine_json_rpc::client::requests::{
    create_machine, load_machine, step, verify_access_log, verify_state_transition,
};
use cartesi_machine_json_rpc::client::{
    AccessLog, AccessLogType, MachineConfig, MachineRuntimeConfig,
};
use cartesi_machine_json_rpc::interfaces;
use cartesi_machine_json_rpc::interfaces::{Param, Request};

fn empty_log() -> AccessLog {
    AccessLog {
        accesses: vec![],
        brackets: vec![],
        notes: vec!["note".to_string()],
        log_type: AccessLogType { proofs: true, annotations: true },
    }
}

#[test]
fn requests_without_parameters_name_their_methods() {
    let table = [
        (Request::CheckConnection, ""),
        (Request::Fork, "fork"),
        (Request::Shutdown, "shutdown"),
        (Request::GetVersion, "get_version"),
        (Request::MachineDestroy, "machine.destroy"),
        (Request::MachineGetRootHash, "machine.get_root_hash"),
        (Request::MachineSetIflagsY, "machine.set_iflags_Y"),
        (Request::MachineResetIflagsY, "machine.reset_iflags_Y"),
        (Request::MachineReadIflagsY, "machine.read_iflags_Y"),
        (Request::MachineSetIflagsX, "machine.set_iflags_X"),
        (Request::MachineResetIflagsX, "machine.reset_iflags_X"),
        (Request::MachineReadIflagsX, "machine.read_iflags_X"),
        (Request::MachineSetIflagsH, "machine.set_iflags_H"),
        (Request::MachineReadIflagsH, "machine.read_iflags_H"),
        (Request::MachineReadIflagsPRV, "machine.read_iflags_PRV"),
        (Request::MachineSetUarchHaltFlag, "machine.set_uarch_halt_flag"),
        (Request::MachineReadUarchHaltFlag, "machine.read_uarch_halt_flag"),
        (Request::MachineResetUarchState, "machine.reset_uarch_state"),
        (Request::MachineGetInitialConfig, "machine.get_initial_config"),
        (Request::MachineGetDefaultConfig, "machine.get_default_config"),
        (Request::MachineVerifyMerkleTree, "machine.verify_merkle_tree"),
        (Request::MachineVerifyDirtyPageMaps, "machine.verify_dirty_page_maps"),
        (Request::MachineDumpPmas, "machine.dump_pmas"),
    ];
    for (request, name) in table {
        assert_eq!(request.method(), name);
        assert_eq!(request.into_params(), vec![]);
    }
}

#[test]
fn register_requests_name_their_methods() {
    let table = [
        (Request::MachineReadX { index: 2 }, "machine.read_x"),
        (Request::MachineReadF { index: 2 }, "machine.read_f"),
        (Request::MachineReadUarchX { index: 2 }, "machine.read_uarch_x"),
        (Request::MachineGetXAddress { index: 2 }, "machine.get_x_address"),
        (Request::MachineGetFAddress { index: 2 }, "machine.get_f_address"),
        (Request::MachineGetUarchXAddress { index: 2 }, "machine.get_uarch_x_address"),
        (Request::MachineReadWord { address: 2 }, "machine.read_word"),
        (Request::MachineRun { mcycle_end: 2 }, "machine.run"),
        (Request::MachineRunUarch { uarch_cycle_end: 2 }, "machine.run_uarch"),
    ];
    for (request, name) in table {
        assert_eq!(request.method(), name);
        assert_eq!(request.into_params(), vec![Param::Integer(2)]);
    }
    let table = [
        (Request::MachineWriteX { index: 2, value: 0x1234 }, "machine.write_x"),
        (Request::MachineWriteF { index: 2, value: 0x1234 }, "machine.write_f"),
        (Request::MachineWriteUarchX { index: 2, value: 0x1234 }, "machine.write_uarch_x"),
        (Request::MachineGetProof { address: 2, log2_size: 0x1234 }, "machine.get_proof"),
        (Request::MachineReadMemory { address: 2, length: 0x1234 }, "machine.read_memory"),
        (
            Request::MachineReadVirtualMemory { address: 2, length: 0x1234 },
            "machine.read_virtual_memory",
        ),
    ];
    for (request, name) in table {
        assert_eq!(request.method(), name);
        assert_eq!(request.into_params(), vec![Param::Integer(2), Param::Integer(0x1234)]);
    }
}

#[test]
fn text_requests_keep_the_order_of_their_parameters() {
    let csr = || "sscratch".to_string();
    let request = Request::MachineReadCsr { csr: csr() };
    assert_eq!(request.method(), "machine.read_csr");
    assert_eq!(request.into_params(), vec![Param::Text(csr())]);
    let request = Request::MachineGetCsrAddress { csr: csr() };
    assert_eq!(request.method(), "machine.get_csr_address");
    assert_eq!(request.into_params(), vec![Param::Text(csr())]);
    let request = Request::MachineWriteCsr { csr: csr(), value: 0x12345 };
    assert_eq!(request.method(), "machine.write_csr");
    assert_eq!(request.into_params(), vec![Param::Text(csr()), Param::Integer(0x12345)]);
    let request = Request::MachineStore { directory: "/tmp/cartesi_store".to_string() };
    assert_eq!(request.method(), "machine.store");
    assert_eq!(request.into_params(), vec![Param::Text("/tmp/cartesi_store".to_string())]);
    let request = Request::MachineWriteMemory { address: 0x8000000F, data: "AQID".to_string() };
    assert_eq!(request.method(), "machine.write_memory");
    assert_eq!(
        request.into_params(),
        vec![Param::Integer(0x8000000F), Param::Text("AQID".to_string())]
    );
    let request = Request::MachineWriteVirtualMemory { address: 9, data: "AQID".to_string() };
    assert_eq!(request.method(), "machine.write_virtual_memory");
    assert_eq!(request.into_params(), vec![Param::Integer(9), Param::Text("AQID".to_string())]);
}

#[test]
fn replace_memory_range_sends_the_range() {
    let range = interfaces::MemoryRangeConfig {
        start: Some(0x80000000000000),
        image_filename: Some("/tmp/input.raw".to_string()),
        length: Some(0x3c00000),
        shared: Some(true),
    };
    let request = Request::MachineReplaceMemoryRange { range: range.clone() };
    assert_eq!(request.method(), "machine.replace_memory_range");
    assert_eq!(request.into_params(), vec![Param::MemoryRangeConfig(range)]);
}

#[test]
fn create_machine_sends_config_then_runtime() {
    let config = MachineConfig::default();
    let runtime = MachineRuntimeConfig::default();
    let request = create_machine(&config, &runtime);
    assert_eq!(request.method(), "machine.machine.config");
    assert_eq!(
        request.into_params(),
        vec![Param::MachineConfig(config.to_wire()), Param::MachineRuntimeConfig(runtime.to_wire())]
    );
}

#[test]
fn load_machine_sends_directory_then_runtime() {
    let runtime = MachineRuntimeConfig { skip_version_check: true, ..Default::default() };
    let request = load_machine("/tmp/cartesi_machine", &runtime);
    assert_eq!(request.method(), "machine.machine.directory");
    assert_eq!(
        request.into_params(),
        vec![
            Param::Text("/tmp/cartesi_machine".to_string()),
            Param::MachineRuntimeConfig(runtime.to_wire())
        ]
    );
}

#[test]
fn step_sends_log_type_then_flag() {
    let request = step(&AccessLogType { annotations: true, proofs: false }, true);
    assert_eq!(request.method(), "machine.step_uarch");
    assert_eq!(
        request.into_params(),
        vec![
            Param::AccessLogType(interfaces::AccessLogType {
                has_annotations: true,
                has_proofs: false
            }),
            Param::Boolean(true)
        ]
    );
}

#[test]
fn verify_access_log_sends_log_runtime_flag() {
    let log = empty_log();
    let runtime = MachineRuntimeConfig::default();
    let request = verify_access_log(&log, &runtime, false);
    assert_eq!(request.method(), "machine.verify_access_log");
    assert_eq!(
        request.into_params(),
        vec![
            Param::AccessLog(log.to_wire()),
            Param::MachineRuntimeConfig(runtime.to_wire()),
            Param::Boolean(false)
        ]
    );
}

#[test]
fn verify_state_transition_encodes_hashes_and_puts_runtime_before_flag() {
    let log = empty_log();
    let runtime = MachineRuntimeConfig::default();
    let before = [
        131, 99, 230, 222, 130, 27, 210, 194, 165, 9, 76, 229, 231, 218, 75, 231, 151, 47, 191,
        153, 22, 84, 94, 122, 127, 184, 180, 51, 152, 100, 117, 189,
    ];
    let after = [
        234, 235, 196, 19, 105, 77, 70, 208, 245, 14, 10, 142, 22, 194, 160, 55, 13, 172, 207, 44,
        129, 97, 163, 39, 181, 15, 45, 0, 24, 214, 194, 148,
    ];
    let request = verify_state_transition(&before, &log, &after, true, &runtime);
    assert_eq!(request.method(), "machine.verify_state_transition");
    assert_eq!(
        request.into_params(),
        vec![
            Param::Text("g2Pm3oIb0sKlCUzl59pL55cvv5kWVF56f7i0M5hkdb0=\n".to_string()),
            Param::AccessLog(log.to_wire()),
            Param::Text("6uvEE2lNRtD1DgqOFsKgNw2szyyBYaMntQ8tABjWwpQ=\n".to_string()),
            Param::MachineRuntimeConfig(runtime.to_wire()),
            Param::Boolean(true)
        ]
    );
}
