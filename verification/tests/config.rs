use cartesi_machine_json_rpc::client::{
    convert_csr_field, convert_f_csr_field, convert_x_csr_field, ConcurrencyConfig, MachineConfig,
    MachineRuntimeConfig, MemoryRangeConfig, ProcessorConfig, RamConfig, RollupConfig, RomConfig,
    TlbConfig, UarchConfig,
};
use cartesi_machine_json_rpc::interfaces;

fn sample_range(start: u64, length: u64) -> MemoryRangeConfig {
    MemoryRangeConfig { start, length, image_filename: "".to_string(), shared: false }
}

fn sample_config() -> MachineConfig {
    let mut processor = ProcessorConfig::new();
    processor.pc = 4096;
    processor.marchid = 0xf;
    for i in 0..32 {
        processor.x[i] = 100 + i as u64;
        processor.f[i] = 200 + i as u64;
    }
    processor.fcsr = 3;
    processor.senvcfg = 17;
    MachineConfig {
        processor,
        ram: RamConfig { length: 1 << 20, image_filename: String::new() },
        rom: RomConfig {
            bootargs: "console=hvc0".to_string(),
            image_filename: String::from("/opt/cartesi/share/images/rom.bin"),
        },
        flash_drives: vec![
            MemoryRangeConfig {
                start: 0x80000000000000,
                image_filename: "/tmp/input_root.raw".to_string(),
                length: 0x3c00000,
                shared: false,
            },
            MemoryRangeConfig {
                start: 0x90000000000000,
                image_filename: "/tmp/other.raw".to_string(),
                length: 4096,
                shared: true,
            },
        ],
        clint: interfaces::CLINTConfig { mtimecmp: Some(0) },
        htif: interfaces::HTIFConfig {
            console_getchar: Some(false),
            yield_manual: Some(true),
            yield_automatic: Some(false),
            fromhost: Some(0),
            tohost: Some(0),
        },
        rollup: RollupConfig {
            input_metadata: Some(sample_range(0x60400000, 4096)),
            notice_hashes: Some(sample_range(0x60800000, 2 << 20)),
            rx_buffer: Some(sample_range(0x60000000, 2 << 20)),
            voucher_hashes: None,
            tx_buffer: Some(sample_range(0x60200000, 2 << 20)),
        },
        tlb: TlbConfig { image_filename: "tlb.bin".to_string() },
        uarch: UarchConfig {
            processor: Some(interfaces::UarchProcessorConfig {
                x: Some(vec![0; 32]),
                pc: Some(0x70000000),
                cycle: Some(0),
            }),
            ram: Some(interfaces::UarchRAMConfig {
                length: Some(77128),
                image_filename: Some(String::from("/opt/cartesi/share/images/uarch-ram.bin")),
            }),
        },
    }
}

#[test]
fn absent_register_is_zero() {
    assert_eq!(convert_csr_field(None), 0);
    assert_eq!(convert_csr_field(Some(0)), 0);
    assert_eq!(convert_csr_field(Some(u64::MAX)), u64::MAX);
}

#[test]
fn absent_register_file_is_all_zero() {
    assert_eq!(convert_x_csr_field(&None), [0u64; 32]);
    assert_eq!(convert_f_csr_field(&None), [0u64; 32]);
}

#[test]
fn register_file_keeps_its_first_32_values() {
    let values: Vec<u64> = (1..=40).collect();
    let mut expected = [0u64; 32];
    for i in 0..32 {
        expected[i] = i as u64 + 1;
    }
    assert_eq!(convert_x_csr_field(&Some(values.clone())), expected);
    assert_eq!(convert_f_csr_field(&Some(values[..32].to_vec())), expected);
}

#[test]
fn new_processor_names_the_emulator() {
    let processor = ProcessorConfig::new();
    assert_eq!(processor.mvendorid, 0x6361727465736920);
    assert_eq!(processor.mvendorid, 7161130726739634464);
    assert_eq!(processor.marchid, 0x7);
    assert_eq!(processor.mimpid, 0x1);
    assert_eq!(processor.pc, 0);
    assert_eq!(processor.x, [0u64; 32]);
    assert_eq!(processor.f, [0u64; 32]);
    assert_eq!(processor.fcsr, 0);
}

#[test]
fn default_processor_is_all_zero() {
    let processor = ProcessorConfig::default();
    assert_eq!(processor.mvendorid, 0);
    assert_eq!(processor.marchid, 0);
    assert_eq!(processor.mimpid, 0);
}

#[test]
fn new_values_are_empty() {
    assert_eq!(RamConfig::new(), RamConfig { length: 0, image_filename: String::new() });
    assert_eq!(TlbConfig::new(), TlbConfig { image_filename: String::new() });
    assert_eq!(UarchConfig::new(), UarchConfig { processor: None, ram: None });
    assert_eq!(
        RomConfig::new(),
        RomConfig { bootargs: String::new(), image_filename: String::new() }
    );
    assert_eq!(
        MemoryRangeConfig::new(),
        MemoryRangeConfig { start: 0, length: 0, shared: false, image_filename: String::new() }
    );
    assert_eq!(
        RollupConfig::new(),
        RollupConfig {
            rx_buffer: None,
            tx_buffer: None,
            input_metadata: None,
            voucher_hashes: None,
            notice_hashes: None
        }
    );
}

#[test]
fn memory_range_to_wire_marks_every_field_present() {
    let range = MemoryRangeConfig {
        start: 0x80000000000000,
        image_filename: "/tmp/input.raw".to_string(),
        length: 0x3c00000,
        shared: true,
    };
    assert_eq!(
        range.to_wire(),
        interfaces::MemoryRangeConfig {
            start: Some(0x80000000000000),
            image_filename: Some("/tmp/input.raw".to_string()),
            length: Some(0x3c00000),
            shared: Some(true),
        }
    );
}

#[test]
fn zero_fields_are_still_present_on_the_wire() {
    assert_eq!(
        MemoryRangeConfig::new().to_wire(),
        interfaces::MemoryRangeConfig {
            start: Some(0),
            image_filename: Some(String::new()),
            length: Some(0),
            shared: Some(false),
        }
    );
}

#[test]
fn absent_memory_range_fields_take_defaults() {
    let wire = interfaces::MemoryRangeConfig::default();
    assert_eq!(MemoryRangeConfig::from_wire(&wire), MemoryRangeConfig::new());
    let partial = interfaces::MemoryRangeConfig { length: Some(9), ..Default::default() };
    assert_eq!(
        MemoryRangeConfig::from_wire(&partial),
        MemoryRangeConfig { start: 0, length: 9, shared: false, image_filename: String::new() }
    );
}

#[test]
fn processor_round_trips() {
    let processor = sample_config().processor;
    let wire = processor.to_wire();
    assert_eq!(wire.pc, Some(4096));
    assert_eq!(wire.mvendorid, Some(0x6361727465736920));
    assert_eq!(wire.x.as_ref().map(|x| x.len()), Some(32));
    assert_eq!(wire.x.as_ref().map(|x| x[31]), Some(131));
    assert_eq!(wire.f.as_ref().map(|f| f[0]), Some(200));
    assert!(wire.registers_complete());
    assert_eq!(ProcessorConfig::from_wire(&wire), processor);
}

#[test]
fn absent_processor_fields_are_zero() {
    let wire = interfaces::ProcessorConfig { pc: Some(4096), ..Default::default() };
    let processor = ProcessorConfig::from_wire(&wire);
    assert_eq!(processor.pc, 4096);
    assert_eq!(processor.mvendorid, 0);
    assert_eq!(processor.x, [0u64; 32]);
    assert_eq!(processor, ProcessorConfig { pc: 4096, ..Default::default() });
}

#[test]
fn short_register_files_are_told_apart() {
    let short = interfaces::ProcessorConfig { x: Some(vec![1, 2, 3]), ..Default::default() };
    assert!(!short.registers_complete());
    let short_f = interfaces::ProcessorConfig { f: Some(vec![0; 31]), ..Default::default() };
    assert!(!short_f.registers_complete());
    let full = interfaces::ProcessorConfig {
        x: Some(vec![0; 32]),
        f: Some(vec![0; 33]),
        ..Default::default()
    };
    assert!(full.registers_complete());
    assert!(interfaces::ProcessorConfig::default().registers_complete());
    let machine = interfaces::MachineConfig { processor: Some(short), ..Default::default() };
    assert!(!machine.registers_complete());
    assert!(interfaces::MachineConfig::default().registers_complete());
}

#[test]
fn machine_config_round_trips() {
    let config = sample_config();
    let wire = config.to_wire();
    assert!(wire.registers_complete());
    assert_eq!(MachineConfig::from_wire(&wire), config);
}

#[test]
fn default_machine_config_round_trips() {
    let config = MachineConfig::default();
    assert_eq!(MachineConfig::from_wire(&config.to_wire()), config);
}

#[test]
fn machine_config_to_wire_marks_every_field_present() {
    let wire = sample_config().to_wire();
    assert!(wire.processor.is_some());
    assert!(wire.tlb.is_some());
    assert!(wire.uarch.is_some());
    assert_eq!(wire.clint, Some(interfaces::CLINTConfig { mtimecmp: Some(0) }));
    assert_eq!(wire.htif.map(|h| h.yield_manual), Some(Some(true)));
    assert_eq!(
        wire.ram,
        Some(interfaces::RAMConfig { length: 1 << 20, image_filename: Some(String::new()) })
    );
    assert_eq!(
        wire.rom,
        Some(interfaces::ROMConfig {
            bootargs: Some("console=hvc0".to_string()),
            image_filename: Some("/opt/cartesi/share/images/rom.bin".to_string()),
        })
    );
    let drives = wire.flash_drive.unwrap();
    assert_eq!(drives.len(), 2);
    assert_eq!(drives[0].start, Some(0x80000000000000));
    assert_eq!(drives[1].shared, Some(true));
    let rollup = wire.rollup.unwrap();
    assert_eq!(rollup.voucher_hashes, None);
    assert_eq!(rollup.input_metadata.unwrap().length, Some(4096));
}

#[test]
fn empty_wire_config_takes_defaults() {
    let config = MachineConfig::from_wire(&interfaces::MachineConfig::default());
    assert_eq!(config.processor, ProcessorConfig::new());
    assert_eq!(config.processor.mvendorid, 7161130726739634464);
    assert_eq!(config.ram.length, 0);
    assert_eq!(config.ram.image_filename, "");
    assert_eq!(config.rom.image_filename, "");
    assert_eq!(config.rom.bootargs, "");
    assert_eq!(config.flash_drives.len(), 0);
    assert_eq!(config.clint.mtimecmp, None);
    assert_eq!(config.htif, interfaces::HTIFConfig::default());
    assert_eq!(config.rollup, RollupConfig::new());
    assert_eq!(config.tlb.image_filename, "");
    assert_eq!(config.uarch, UarchConfig::new());
    assert_eq!(
        config,
        MachineConfig { processor: ProcessorConfig::new(), ..MachineConfig::default() }
    );
}

#[test]
fn server_default_config_is_read_as_sent() {
    let wire = interfaces::MachineConfig {
        processor: Some(interfaces::ProcessorConfig {
            pc: Some(4096),
            mvendorid: Some(7161130726739634464),
            marchid: Some(0xf),
            ..Default::default()
        }),
        ram: Some(interfaces::RAMConfig { length: 0, image_filename: None }),
        rom: Some(interfaces::ROMConfig { bootargs: None, image_filename: Some(String::new()) }),
        flash_drive: Some(vec![]),
        htif: Some(interfaces::HTIFConfig {
            fromhost: Some(0),
            tohost: Some(0),
            ..Default::default()
        }),
        clint: Some(interfaces::CLINTConfig { mtimecmp: Some(0) }),
        ..Default::default()
    };
    let config = MachineConfig::from_wire(&wire);
    assert_eq!(config.processor.pc, 4096);
    assert_eq!(config.processor.mvendorid, 7161130726739634464);
    assert_eq!(config.processor.marchid, 0xf);
    assert_eq!(config.ram.length, 0);
    assert_eq!(config.rom.image_filename, "");
    assert_eq!(config.flash_drives.len(), 0);
    assert_eq!(config.htif.fromhost, Some(0));
    assert_eq!(config.htif.tohost, Some(0));
    assert_eq!(config.clint.mtimecmp, Some(0));
}

#[test]
fn uarch_config_passes_through() {
    let uarch = sample_config().uarch;
    let wire = uarch.to_wire();
    assert_eq!(wire.processor, uarch.processor);
    assert_eq!(wire.ram, uarch.ram);
    assert_eq!(UarchConfig::from_wire(&wire), uarch);
    assert_eq!(
        UarchConfig::new().to_wire(),
        interfaces::UarchConfig { processor: None, ram: None }
    );
}

#[test]
fn uarch_parts_clone_to_equal_values() {
    let processor = interfaces::UarchProcessorConfig {
        x: Some(vec![5; 32]),
        pc: Some(0x70000000),
        cycle: None,
    };
    assert_eq!(processor.clone(), processor);
    let ram = interfaces::UarchRAMConfig {
        length: Some(77128),
        image_filename: Some("u".to_string()),
    };
    assert_eq!(ram.clone(), ram);
}

#[test]
fn rollup_keeps_absent_ranges_absent() {
    let rollup = sample_config().rollup;
    let wire = rollup.to_wire();
    assert!(wire.voucher_hashes.is_none());
    assert_eq!(
        wire.rx_buffer,
        Some(interfaces::MemoryRangeConfig {
            start: Some(0x60000000),
            length: Some(2 << 20),
            image_filename: Some("".to_string()),
            shared: Some(false),
        })
    );
    assert_eq!(RollupConfig::from_wire(&wire), rollup);
}

#[test]
fn runtime_config_round_trips() {
    let runtime = MachineRuntimeConfig {
        concurrency: ConcurrencyConfig { update_merkle_tree: 4 },
        htif: interfaces::HTIFRuntimeConfig { no_console_putchar: Some(true) },
        skip_root_hash_check: true,
        skip_version_check: false,
    };
    let wire = runtime.to_wire();
    assert_eq!(
        wire,
        interfaces::MachineRuntimeConfig {
            concurrency: Some(interfaces::ConcurrencyConfig { update_merkle_tree: Some(4) }),
            htif: Some(interfaces::HTIFRuntimeConfig { no_console_putchar: Some(true) }),
            skip_root_hash_check: Some(true),
            skip_version_check: Some(false),
        }
    );
    assert_eq!(MachineRuntimeConfig::from_wire(&wire), runtime);
}

#[test]
fn absent_runtime_fields_take_defaults() {
    let runtime = MachineRuntimeConfig::from_wire(&interfaces::MachineRuntimeConfig::default());
    assert_eq!(runtime, MachineRuntimeConfig::default());
    assert_eq!(runtime.concurrency.update_merkle_tree, 0);
    assert_eq!(runtime.htif.no_console_putchar, None);
    assert!(!runtime.skip_root_hash_check);
    assert!(!runtime.skip_version_check);
    assert_eq!(
        ConcurrencyConfig::from_wire(&interfaces::ConcurrencyConfig { update_merkle_tree: None }),
        ConcurrencyConfig { update_merkle_tree: 0 }
    );
}

#[test]
fn ram_and_rom_and_tlb_round_trip() {
    let ram = RamConfig { length: 1 << 20, image_filename: "ram.bin".to_string() };
    assert_eq!(
        ram.to_wire(),
        interfaces::RAMConfig { length: 1 << 20, image_filename: Some("ram.bin".to_string()) }
    );
    assert_eq!(RamConfig::from_wire(&ram.to_wire()), ram);
    let rom = RomConfig { bootargs: "quiet".to_string(), image_filename: "rom.bin".to_string() };
    assert_eq!(RomConfig::from_wire(&rom.to_wire()), rom);
    let tlb = TlbConfig { image_filename: "tlb.bin".to_string() };
    assert_eq!(TlbConfig::from_wire(&tlb.to_wire()), tlb);
    assert_eq!(
        RamConfig::from_wire(&interfaces::RAMConfig { length: 7, image_filename: None }),
        RamConfig { length: 7, image_filename: String::new() }
    );
}
