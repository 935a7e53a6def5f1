//! Machine configuration as it travels.
//!
//! Every optional field follows the rule of the interface: a field that is
//! absent stands for the server's default.

use vstd::prelude::*;

verus! {

/// An unsigned integer of the interface.
pub type UnsignedInteger = u64;

/// The values of the 32 floating-point registers.
pub type FRegConfig = Vec<UnsignedInteger>;

/// The values of the 32 general-purpose registers.
pub type XRegConfig = Vec<UnsignedInteger>;

/// The flash drives of a machine, in order.
pub type FlashDriveConfigs = Vec<MemoryRangeConfig>;

/// The mathematical value of an optional list of register values.
pub open spec fn words_view(field: Option<Vec<u64>>) -> Option<Seq<u64>> {
    match field {
        Some(words) => Some(words@),
        None => None,
    }
}

/// Core-local interruptor state.
#[derive(Debug, Clone, Copy, PartialEq)]
pub struct CLINTConfig {
    pub mtimecmp: Option<u64>,
}

impl DeepView for CLINTConfig {
    type V = CLINTConfig;

    open spec fn deep_view(&self) -> CLINTConfig {
        *self
    }
}

impl CLINTConfig {
    /// The value in which every field is absent, zero or empty.
    pub open spec fn default_value() -> CLINTConfig {
        CLINTConfig {
            mtimecmp: None,
        }
    }
}

impl Default for CLINTConfig {
    fn default() -> (value: Self)
        ensures
            value == CLINTConfig::default_value(),
    {
        CLINTConfig {
            mtimecmp: None,
        }
    }
}

/// Host-target interface toggles that apply while a machine runs.
#[derive(Debug, Clone, Copy, PartialEq)]
pub struct HTIFRuntimeConfig {
    pub no_console_putchar: Option<bool>,
}

impl DeepView for HTIFRuntimeConfig {
    type V = HTIFRuntimeConfig;

    open spec fn deep_view(&self) -> HTIFRuntimeConfig {
        *self
    }
}

impl HTIFRuntimeConfig {
    /// The value in which every field is absent, zero or empty.
    pub open spec fn default_value() -> HTIFRuntimeConfig {
        HTIFRuntimeConfig {
            no_console_putchar: None,
        }
    }
}

impl Default for HTIFRuntimeConfig {
    fn default() -> (value: Self)
        ensures
            value == HTIFRuntimeConfig::default_value(),
    {
        HTIFRuntimeConfig {
            no_console_putchar: None,
        }
    }
}

/// A range of machine memory, optionally backed by an image file.
#[derive(Debug, Clone, PartialEq)]
pub struct MemoryRangeConfig {
    pub image_filename: Option<String>,
    pub length: Option<u64>,
    pub shared: Option<bool>,
    pub start: Option<u64>,
}

/// The mathematical value of a [`MemoryRangeConfig`].
pub struct MemoryRangeConfigView {
    pub image_filename: Option<Seq<char>>,
    pub length: Option<u64>,
    pub shared: Option<bool>,
    pub start: Option<u64>,
}

impl DeepView for MemoryRangeConfig {
    type V = MemoryRangeConfigView;

    open spec fn deep_view(&self) -> MemoryRangeConfigView {
        MemoryRangeConfigView {
            image_filename: self.image_filename.deep_view(),
            length: self.length,
            shared: self.shared,
            start: self.start,
        }
    }
}

impl MemoryRangeConfigView {
    /// The value in which every field is absent, zero or empty.
    pub open spec fn default_value() -> MemoryRangeConfigView {
        MemoryRangeConfigView {
            image_filename: None,
            length: None,
            shared: None,
            start: None,
        }
    }
}

impl Default for MemoryRangeConfig {
    fn default() -> (value: Self)
        ensures
            value.deep_view() == MemoryRangeConfigView::default_value(),
    {
        MemoryRangeConfig {
            image_filename: None,
            length: None,
            shared: None,
            start: None,
        }
    }
}

/// Host-target interface state.
#[derive(Debug, Clone, Copy, PartialEq)]
pub struct HTIFConfig {
    pub console_getchar: Option<bool>,
    pub fromhost: Option<u64>,
    pub tohost: Option<u64>,
    pub yield_automatic: Option<bool>,
    pub yield_manual: Option<bool>,
}

impl DeepView for HTIFConfig {
    type V = HTIFConfig;

    open spec fn deep_view(&self) -> HTIFConfig {
        *self
    }
}

impl HTIFConfig {
    /// The value in which every field is absent, zero or empty.
    pub open spec fn default_value() -> HTIFConfig {
        HTIFConfig {
            console_getchar: None,
            fromhost: None,
            tohost: None,
            yield_automatic: None,
            yield_manual: None,
        }
    }
}

impl Default for HTIFConfig {
    fn default() -> (value: Self)
        ensures
            value == HTIFConfig::default_value(),
    {
        HTIFConfig {
            console_getchar: None,
            fromhost: None,
            tohost: None,
            yield_automatic: None,
            yield_manual: None,
        }
    }
}

/// Processor state: the two register files and the control and status registers.
#[derive(Debug, Clone, PartialEq)]
pub struct ProcessorConfig {
    pub f: Option<Vec<u64>>,
    pub fcsr: Option<u64>,
    pub icycleinstret: Option<u64>,
    pub iflags: Option<u64>,
    pub ilrsc: Option<u64>,
    pub marchid: Option<u64>,
    pub mcause: Option<u64>,
    pub mcounteren: Option<u64>,
    pub mcycle: Option<u64>,
    pub medeleg: Option<u64>,
    pub menvcfg: Option<u64>,
    pub mepc: Option<u64>,
    pub mideleg: Option<u64>,
    pub mie: Option<u64>,
    pub mimpid: Option<u64>,
    pub mip: Option<u64>,
    pub misa: Option<u64>,
    pub mscratch: Option<u64>,
    pub mstatus: Option<u64>,
    pub mtval: Option<u64>,
    pub mtvec: Option<u64>,
    pub mvendorid: Option<u64>,
    pub pc: Option<u64>,
    pub satp: Option<u64>,
    pub scause: Option<u64>,
    pub scounteren: Option<u64>,
    pub senvcfg: Option<u64>,
    pub sepc: Option<u64>,
    pub sscratch: Option<u64>,
    pub stval: Option<u64>,
    pub stvec: Option<u64>,
    pub x: Option<Vec<u64>>,
}

/// The mathematical value of a [`ProcessorConfig`].
pub struct ProcessorConfigView {
    pub f: Option<Seq<u64>>,
    pub fcsr: Option<u64>,
    pub icycleinstret: Option<u64>,
    pub iflags: Option<u64>,
    pub ilrsc: Option<u64>,
    pub marchid: Option<u64>,
    pub mcause: Option<u64>,
    pub mcounteren: Option<u64>,
    pub mcycle: Option<u64>,
    pub medeleg: Option<u64>,
    pub menvcfg: Option<u64>,
    pub mepc: Option<u64>,
    pub mideleg: Option<u64>,
    pub mie: Option<u64>,
    pub mimpid: Option<u64>,
    pub mip: Option<u64>,
    pub misa: Option<u64>,
    pub mscratch: Option<u64>,
    pub mstatus: Option<u64>,
    pub mtval: Option<u64>,
    pub mtvec: Option<u64>,
    pub mvendorid: Option<u64>,
    pub pc: Option<u64>,
    pub satp: Option<u64>,
    pub scause: Option<u64>,
    pub scounteren: Option<u64>,
    pub senvcfg: Option<u64>,
    pub sepc: Option<u64>,
    pub sscratch: Option<u64>,
    pub stval: Option<u64>,
    pub stvec: Option<u64>,
    pub x: Option<Seq<u64>>,
}

impl DeepView for ProcessorConfig {
    type V = ProcessorConfigView;

    open spec fn deep_view(&self) -> ProcessorConfigView {
        ProcessorConfigView {
            f: words_view(self.f),
            fcsr: self.fcsr,
            icycleinstret: self.icycleinstret,
            iflags: self.iflags,
            ilrsc: self.ilrsc,
            marchid: self.marchid,
            mcause: self.mcause,
            mcounteren: self.mcounteren,
            mcycle: self.mcycle,
            medeleg: self.medeleg,
            menvcfg: self.menvcfg,
            mepc: self.mepc,
            mideleg: self.mideleg,
            mie: self.mie,
            mimpid: self.mimpid,
            mip: self.mip,
            misa: self.misa,
            mscratch: self.mscratch,
            mstatus: self.mstatus,
            mtval: self.mtval,
            mtvec: self.mtvec,
            mvendorid: self.mvendorid,
            pc: self.pc,
            satp: self.satp,
            scause: self.scause,
            scounteren: self.scounteren,
            senvcfg: self.senvcfg,
            sepc: self.sepc,
            sscratch: self.sscratch,
            stval: self.stval,
            stvec: self.stvec,
            x: words_view(self.x),
        }
    }
}

impl ProcessorConfigView {
    /// The value in which every field is absent, zero or empty.
    pub open spec fn default_value() -> ProcessorConfigView {
        ProcessorConfigView {
            f: None,
            fcsr: None,
            icycleinstret: None,
            iflags: None,
            ilrsc: None,
            marchid: None,
            mcause: None,
            mcounteren: None,
            mcycle: None,
            medeleg: None,
            menvcfg: None,
            mepc: None,
            mideleg: None,
            mie: None,
            mimpid: None,
            mip: None,
            misa: None,
            mscratch: None,
            mstatus: None,
            mtval: None,
            mtvec: None,
            mvendorid: None,
            pc: None,
            satp: None,
            scause: None,
            scounteren: None,
            senvcfg: None,
            sepc: None,
            sscratch: None,
            stval: None,
            stvec: None,
            x: None,
        }
    }
}

impl Default for ProcessorConfig {
    fn default() -> (value: Self)
        ensures
            value.deep_view() == ProcessorConfigView::default_value(),
    {
        ProcessorConfig {
            f: None,
            fcsr: None,
            icycleinstret: None,
            iflags: None,
            ilrsc: None,
            marchid: None,
            mcause: None,
            mcounteren: None,
            mcycle: None,
            medeleg: None,
            menvcfg: None,
            mepc: None,
            mideleg: None,
            mie: None,
            mimpid: None,
            mip: None,
            misa: None,
            mscratch: None,
            mstatus: None,
            mtval: None,
            mtvec: None,
            mvendorid: None,
            pc: None,
            satp: None,
            scause: None,
            scounteren: None,
            senvcfg: None,
            sepc: None,
            sscratch: None,
            stval: None,
            stvec: None,
            x: None,
        }
    }
}

impl ProcessorConfigView {
    /// Each register file that is present holds at least 32 values.
    pub open spec fn registers_complete(self) -> bool {
        &&& self.x matches Some(x) ==> x.len() >= 32
        &&& self.f matches Some(f) ==> f.len() >= 32
    }
}

impl ProcessorConfig {
    /// Tells whether each register file that is present holds at least 32
    /// values, as the conversion to a caller's configuration needs.
    pub fn registers_complete(&self) -> (complete: bool)
        ensures
            complete == self.deep_view().registers_complete(),
    {
        let x_complete = match &self.x {
            Some(x) => x.len() >= 32,
            None => true,
        };
        let f_complete = match &self.f {
            Some(f) => f.len() >= 32,
            None => true,
        };
        x_complete && f_complete
    }
}

/// Main memory.
#[derive(Debug, Clone, PartialEq)]
pub struct RAMConfig {
    pub image_filename: Option<String>,
    pub length: u64,
}

/// The mathematical value of a [`RAMConfig`].
pub struct RAMConfigView {
    pub image_filename: Option<Seq<char>>,
    pub length: u64,
}

impl DeepView for RAMConfig {
    type V = RAMConfigView;

    open spec fn deep_view(&self) -> RAMConfigView {
        RAMConfigView {
            image_filename: self.image_filename.deep_view(),
            length: self.length,
        }
    }
}

impl RAMConfigView {
    /// The value in which every field is absent, zero or empty.
    pub open spec fn default_value() -> RAMConfigView {
        RAMConfigView {
            image_filename: None,
            length: 0,
        }
    }
}

impl Default for RAMConfig {
    fn default() -> (value: Self)
        ensures
            value.deep_view() == RAMConfigView::default_value(),
    {
        RAMConfig {
            image_filename: None,
            length: 0,
        }
    }
}

/// The memory ranges through which a rollup exchanges data with the machine.
#[derive(Debug, Clone, PartialEq)]
pub struct RollupConfig {
    pub input_metadata: Option<MemoryRangeConfig>,
    pub notice_hashes: Option<MemoryRangeConfig>,
    pub rx_buffer: Option<MemoryRangeConfig>,
    pub tx_buffer: Option<MemoryRangeConfig>,
    pub voucher_hashes: Option<MemoryRangeConfig>,
}

/// The mathematical value of a [`RollupConfig`].
pub struct RollupConfigView {
    pub input_metadata: Option<MemoryRangeConfigView>,
    pub notice_hashes: Option<MemoryRangeConfigView>,
    pub rx_buffer: Option<MemoryRangeConfigView>,
    pub tx_buffer: Option<MemoryRangeConfigView>,
    pub voucher_hashes: Option<MemoryRangeConfigView>,
}

impl DeepView for RollupConfig {
    type V = RollupConfigView;

    open spec fn deep_view(&self) -> RollupConfigView {
        RollupConfigView {
            input_metadata: self.input_metadata.deep_view(),
            notice_hashes: self.notice_hashes.deep_view(),
            rx_buffer: self.rx_buffer.deep_view(),
            tx_buffer: self.tx_buffer.deep_view(),
            voucher_hashes: self.voucher_hashes.deep_view(),
        }
    }
}

impl RollupConfigView {
    /// The value in which every field is absent, zero or empty.
    pub open spec fn default_value() -> RollupConfigView {
        RollupConfigView {
            input_metadata: None,
            notice_hashes: None,
            rx_buffer: None,
            tx_buffer: None,
            voucher_hashes: None,
        }
    }
}

impl Default for RollupConfig {
    fn default() -> (value: Self)
        ensures
            value.deep_view() == RollupConfigView::default_value(),
    {
        RollupConfig {
            input_metadata: None,
            notice_hashes: None,
            rx_buffer: None,
            tx_buffer: None,
            voucher_hashes: None,
        }
    }
}

/// Read-only memory.
#[derive(Debug, Clone, PartialEq)]
pub struct ROMConfig {
    pub bootargs: Option<String>,
    pub image_filename: Option<String>,
}

/// The mathematical value of a [`ROMConfig`].
pub struct ROMConfigView {
    pub bootargs: Option<Seq<char>>,
    pub image_filename: Option<Seq<char>>,
}

impl DeepView for ROMConfig {
    type V = ROMConfigView;

    open spec fn deep_view(&self) -> ROMConfigView {
        ROMConfigView {
            bootargs: self.bootargs.deep_view(),
            image_filename: self.image_filename.deep_view(),
        }
    }
}

impl ROMConfigView {
    /// The value in which every field is absent, zero or empty.
    pub open spec fn default_value() -> ROMConfigView {
        ROMConfigView {
            bootargs: None,
            image_filename: None,
        }
    }
}

impl Default for ROMConfig {
    fn default() -> (value: Self)
        ensures
            value.deep_view() == ROMConfigView::default_value(),
    {
        ROMConfig {
            bootargs: None,
            image_filename: None,
        }
    }
}

/// Translation lookaside buffer.
#[derive(Debug, Clone, PartialEq)]
pub struct TLBConfig {
    pub image_filename: Option<String>,
}

/// The mathematical value of a [`TLBConfig`].
pub struct TLBConfigView {
    pub image_filename: Option<Seq<char>>,
}

impl DeepView for TLBConfig {
    type V = TLBConfigView;

    open spec fn deep_view(&self) -> TLBConfigView {
        TLBConfigView {
            image_filename: self.image_filename.deep_view(),
        }
    }
}

impl TLBConfigView {
    /// The value in which every field is absent, zero or empty.
    pub open spec fn default_value() -> TLBConfigView {
        TLBConfigView {
            image_filename: None,
        }
    }
}

impl Default for TLBConfig {
    fn default() -> (value: Self)
        ensures
            value.deep_view() == TLBConfigView::default_value(),
    {
        TLBConfig {
            image_filename: None,
        }
    }
}

/// Microarchitecture processor state.
#[derive(Debug, PartialEq)]
pub struct UarchProcessorConfig {
    pub cycle: Option<u64>,
    pub pc: Option<u64>,
    pub x: Option<Vec<u64>>,
}

/// The mathematical value of a [`UarchProcessorConfig`].
pub struct UarchProcessorConfigView {
    pub cycle: Option<u64>,
    pub pc: Option<u64>,
    pub x: Option<Seq<u64>>,
}

impl DeepView for UarchProcessorConfig {
    type V = UarchProcessorConfigView;

    open spec fn deep_view(&self) -> UarchProcessorConfigView {
        UarchProcessorConfigView {
            cycle: self.cycle,
            pc: self.pc,
            x: words_view(self.x),
        }
    }
}

impl Clone for UarchProcessorConfig {
    fn clone(&self) -> (copy: Self)
        ensures
            copy.deep_view() == self.deep_view(),
    {
        UarchProcessorConfig {
            cycle: self.cycle,
            pc: self.pc,
            x: self.x.clone(),
        }
    }
}

impl UarchProcessorConfigView {
    /// The value in which every field is absent, zero or empty.
    pub open spec fn default_value() -> UarchProcessorConfigView {
        UarchProcessorConfigView {
            cycle: None,
            pc: None,
            x: None,
        }
    }
}

impl Default for UarchProcessorConfig {
    fn default() -> (value: Self)
        ensures
            value.deep_view() == UarchProcessorConfigView::default_value(),
    {
        UarchProcessorConfig {
            cycle: None,
            pc: None,
            x: None,
        }
    }
}

/// Microarchitecture memory.
#[derive(Debug, PartialEq)]
pub struct UarchRAMConfig {
    pub image_filename: Option<String>,
    pub length: Option<u64>,
}

/// The mathematical value of a [`UarchRAMConfig`].
pub struct UarchRAMConfigView {
    pub image_filename: Option<Seq<char>>,
    pub length: Option<u64>,
}

impl DeepView for UarchRAMConfig {
    type V = UarchRAMConfigView;

    open spec fn deep_view(&self) -> UarchRAMConfigView {
        UarchRAMConfigView {
            image_filename: self.image_filename.deep_view(),
            length: self.length,
        }
    }
}

impl Clone for UarchRAMConfig {
    fn clone(&self) -> (copy: Self)
        ensures
            copy.deep_view() == self.deep_view(),
    {
        UarchRAMConfig {
            image_filename: self.image_filename.clone(),
            length: self.length,
        }
    }
}

impl UarchRAMConfigView {
    /// The value in which every field is absent, zero or empty.
    pub open spec fn default_value() -> UarchRAMConfigView {
        UarchRAMConfigView {
            image_filename: None,
            length: None,
        }
    }
}

impl Default for UarchRAMConfig {
    fn default() -> (value: Self)
        ensures
            value.deep_view() == UarchRAMConfigView::default_value(),
    {
        UarchRAMConfig {
            image_filename: None,
            length: None,
        }
    }
}

/// Microarchitecture state.
#[derive(Debug, Clone, PartialEq)]
pub struct UarchConfig {
    pub processor: Option<UarchProcessorConfig>,
    pub ram: Option<UarchRAMConfig>,
}

/// The mathematical value of a [`UarchConfig`].
pub struct UarchConfigView {
    pub processor: Option<UarchProcessorConfigView>,
    pub ram: Option<UarchRAMConfigView>,
}

impl DeepView for UarchConfig {
    type V = UarchConfigView;

    open spec fn deep_view(&self) -> UarchConfigView {
        UarchConfigView {
            processor: self.processor.deep_view(),
            ram: self.ram.deep_view(),
        }
    }
}

impl UarchConfigView {
    /// The value in which every field is absent, zero or empty.
    pub open spec fn default_value() -> UarchConfigView {
        UarchConfigView {
            processor: None,
            ram: None,
        }
    }
}

impl Default for UarchConfig {
    fn default() -> (value: Self)
        ensures
            value.deep_view() == UarchConfigView::default_value(),
    {
        UarchConfig {
            processor: None,
            ram: None,
        }
    }
}

/// Concurrency hints.
#[derive(Debug, Clone, Copy, PartialEq)]
pub struct ConcurrencyConfig {
    pub update_merkle_tree: Option<u64>,
}

impl DeepView for ConcurrencyConfig {
    type V = ConcurrencyConfig;

    open spec fn deep_view(&self) -> ConcurrencyConfig {
        *self
    }
}

impl ConcurrencyConfig {
    /// The value in which every field is absent, zero or empty.
    pub open spec fn default_value() -> ConcurrencyConfig {
        ConcurrencyConfig {
            update_merkle_tree: None,
        }
    }
}

impl Default for ConcurrencyConfig {
    fn default() -> (value: Self)
        ensures
            value == ConcurrencyConfig::default_value(),
    {
        ConcurrencyConfig {
            update_merkle_tree: None,
        }
    }
}

/// The full initial state of a machine.
#[derive(Debug, Clone, PartialEq)]
pub struct MachineConfig {
    pub clint: Option<CLINTConfig>,
    pub flash_drive: Option<Vec<MemoryRangeConfig>>,
    pub htif: Option<HTIFConfig>,
    pub processor: Option<ProcessorConfig>,
    pub ram: Option<RAMConfig>,
    pub rollup: Option<RollupConfig>,
    pub rom: Option<ROMConfig>,
    pub tlb: Option<TLBConfig>,
    pub uarch: Option<UarchConfig>,
}

/// The mathematical value of a [`MachineConfig`].
pub struct MachineConfigView {
    pub clint: Option<CLINTConfig>,
    pub flash_drive: Option<Seq<MemoryRangeConfigView>>,
    pub htif: Option<HTIFConfig>,
    pub processor: Option<ProcessorConfigView>,
    pub ram: Option<RAMConfigView>,
    pub rollup: Option<RollupConfigView>,
    pub rom: Option<ROMConfigView>,
    pub tlb: Option<TLBConfigView>,
    pub uarch: Option<UarchConfigView>,
}

impl DeepView for MachineConfig {
    type V = MachineConfigView;

    open spec fn deep_view(&self) -> MachineConfigView {
        MachineConfigView {
            clint: self.clint,
            flash_drive: self.flash_drive.deep_view(),
            htif: self.htif,
            processor: self.processor.deep_view(),
            ram: self.ram.deep_view(),
            rollup: self.rollup.deep_view(),
            rom: self.rom.deep_view(),
            tlb: self.tlb.deep_view(),
            uarch: self.uarch.deep_view(),
        }
    }
}

impl MachineConfigView {
    /// The value in which every field is absent, zero or empty.
    pub open spec fn default_value() -> MachineConfigView {
        MachineConfigView {
            clint: None,
            flash_drive: None,
            htif: None,
            processor: None,
            ram: None,
            rollup: None,
            rom: None,
            tlb: None,
            uarch: None,
        }
    }
}

impl Default for MachineConfig {
    fn default() -> (value: Self)
        ensures
            value.deep_view() == MachineConfigView::default_value(),
    {
        MachineConfig {
            clint: None,
            flash_drive: None,
            htif: None,
            processor: None,
            ram: None,
            rollup: None,
            rom: None,
            tlb: None,
            uarch: None,
        }
    }
}

impl MachineConfigView {
    /// The processor state, where present, has complete register files.
    pub open spec fn registers_complete(self) -> bool {
        self.processor matches Some(processor) ==> processor.registers_complete()
    }
}

impl MachineConfig {
    /// Tells whether the processor state, where present, has complete
    /// register files.
    pub fn registers_complete(&self) -> (complete: bool)
        ensures
            complete == self.deep_view().registers_complete(),
    {
        match &self.processor {
            Some(processor) => processor.registers_complete(),
            None => true,
        }
    }
}

/// Toggles that apply while a machine runs.
#[derive(Debug, Clone, Copy, PartialEq)]
pub struct MachineRuntimeConfig {
    pub concurrency: Option<ConcurrencyConfig>,
    pub htif: Option<HTIFRuntimeConfig>,
    pub skip_root_hash_check: Option<bool>,
    pub skip_version_check: Option<bool>,
}

impl DeepView for MachineRuntimeConfig {
    type V = MachineRuntimeConfig;

    open spec fn deep_view(&self) -> MachineRuntimeConfig {
        *self
    }
}

impl MachineRuntimeConfig {
    /// The value in which every field is absent, zero or empty.
    pub open spec fn default_value() -> MachineRuntimeConfig {
        MachineRuntimeConfig {
            concurrency: None,
            htif: None,
            skip_root_hash_check: None,
            skip_version_check: None,
        }
    }
}

impl Default for MachineRuntimeConfig {
    fn default() -> (value: Self)
        ensures
            value == MachineRuntimeConfig::default_value(),
    {
        MachineRuntimeConfig {
            concurrency: None,
            htif: None,
            skip_root_hash_check: None,
            skip_version_check: None,
        }
    }
}

/// The version a server reports.
#[derive(Debug, Clone, PartialEq)]
pub struct SemanticVersion {
    pub build: Option<String>,
    pub major: u64,
    pub minor: u64,
    pub patch: u64,
    pub pre_release: Option<String>,
}

/// The mathematical value of a [`SemanticVersion`].
pub struct SemanticVersionView {
    pub build: Option<Seq<char>>,
    pub major: u64,
    pub minor: u64,
    pub patch: u64,
    pub pre_release: Option<Seq<char>>,
}

impl DeepView for SemanticVersion {
    type V = SemanticVersionView;

    open spec fn deep_view(&self) -> SemanticVersionView {
        SemanticVersionView {
            build: self.build.deep_view(),
            major: self.major,
            minor: self.minor,
            patch: self.patch,
            pre_release: self.pre_release.deep_view(),
        }
    }
}

impl SemanticVersionView {
    /// The value in which every field is absent, zero or empty.
    pub open spec fn default_value() -> SemanticVersionView {
        SemanticVersionView {
            build: None,
            major: 0,
            minor: 0,
            patch: 0,
            pre_release: None,
        }
    }
}

impl Default for SemanticVersion {
    fn default() -> (value: Self)
        ensures
            value.deep_view() == SemanticVersionView::default_value(),
    {
        SemanticVersion {
            build: None,
            major: 0,
            minor: 0,
            patch: 0,
            pre_release: None,
        }
    }
}

} // verus!
