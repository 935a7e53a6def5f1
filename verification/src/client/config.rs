//! Machine configuration as a caller holds it, and its conversions.
//!
//! Here every field has a value. Converting to the wire marks every field as
//! present; converting from the wire fills each absent field with its default:
//! zero, `false`, the empty text or the empty list.

use crate::client::conversions::{
    convert_csr_field, convert_f_csr_field, convert_x_csr_field, registers_to_words,
    spec_convert_registers, text_or_empty,
};
use crate::interfaces;
use vstd::prelude::*;

verus! {

/// Processor state.
#[derive(Debug, Clone, Copy, PartialEq)]
pub struct ProcessorConfig {
    /// The general-purpose registers.
    pub x: [u64; 32],
    /// The floating-point registers.
    pub f: [u64; 32],
    /// The `pc` register.
    pub pc: u64,
    /// The `mvendorid` register.
    pub mvendorid: u64,
    /// The `marchid` register.
    pub marchid: u64,
    /// The `mimpid` register.
    pub mimpid: u64,
    /// The `mcycle` register.
    pub mcycle: u64,
    /// The `icycleinstret` register.
    pub icycleinstret: u64,
    /// The `mstatus` register.
    pub mstatus: u64,
    /// The `mtvec` register.
    pub mtvec: u64,
    /// The `mscratch` register.
    pub mscratch: u64,
    /// The `mepc` register.
    pub mepc: u64,
    /// The `mcause` register.
    pub mcause: u64,
    /// The `mtval` register.
    pub mtval: u64,
    /// The `misa` register.
    pub misa: u64,
    /// The `mie` register.
    pub mie: u64,
    /// The `mip` register.
    pub mip: u64,
    /// The `medeleg` register.
    pub medeleg: u64,
    /// The `mideleg` register.
    pub mideleg: u64,
    /// The `mcounteren` register.
    pub mcounteren: u64,
    /// The `stvec` register.
    pub stvec: u64,
    /// The `sscratch` register.
    pub sscratch: u64,
    /// The `sepc` register.
    pub sepc: u64,
    /// The `scause` register.
    pub scause: u64,
    /// The `stval` register.
    pub stval: u64,
    /// The `satp` register.
    pub satp: u64,
    /// The `scounteren` register.
    pub scounteren: u64,
    /// The `ilrsc` register.
    pub ilrsc: u64,
    /// The `iflags` register.
    pub iflags: u64,
    /// The `senvcfg` register.
    pub senvcfg: u64,
    /// The `menvcfg` register.
    pub menvcfg: u64,
    /// The `fcsr` register.
    pub fcsr: u64,
}

/// The mathematical value of a [`ProcessorConfig`].
pub struct ProcessorConfigView {
    pub x: Seq<u64>,
    pub f: Seq<u64>,
    pub pc: u64,
    pub mvendorid: u64,
    pub marchid: u64,
    pub mimpid: u64,
    pub mcycle: u64,
    pub icycleinstret: u64,
    pub mstatus: u64,
    pub mtvec: u64,
    pub mscratch: u64,
    pub mepc: u64,
    pub mcause: u64,
    pub mtval: u64,
    pub misa: u64,
    pub mie: u64,
    pub mip: u64,
    pub medeleg: u64,
    pub mideleg: u64,
    pub mcounteren: u64,
    pub stvec: u64,
    pub sscratch: u64,
    pub sepc: u64,
    pub scause: u64,
    pub stval: u64,
    pub satp: u64,
    pub scounteren: u64,
    pub ilrsc: u64,
    pub iflags: u64,
    pub senvcfg: u64,
    pub menvcfg: u64,
    pub fcsr: u64,
}

impl DeepView for ProcessorConfig {
    type V = ProcessorConfigView;

    open spec fn deep_view(&self) -> ProcessorConfigView {
        ProcessorConfigView {
            x: self.x@,
            f: self.f@,
            pc: self.pc,
            mvendorid: self.mvendorid,
            marchid: self.marchid,
            mimpid: self.mimpid,
            mcycle: self.mcycle,
            icycleinstret: self.icycleinstret,
            mstatus: self.mstatus,
            mtvec: self.mtvec,
            mscratch: self.mscratch,
            mepc: self.mepc,
            mcause: self.mcause,
            mtval: self.mtval,
            misa: self.misa,
            mie: self.mie,
            mip: self.mip,
            medeleg: self.medeleg,
            mideleg: self.mideleg,
            mcounteren: self.mcounteren,
            stvec: self.stvec,
            sscratch: self.sscratch,
            sepc: self.sepc,
            scause: self.scause,
            stval: self.stval,
            satp: self.satp,
            scounteren: self.scounteren,
            ilrsc: self.ilrsc,
            iflags: self.iflags,
            senvcfg: self.senvcfg,
            menvcfg: self.menvcfg,
            fcsr: self.fcsr,
        }
    }
}

impl ProcessorConfigView {
    /// The value in which every field is absent, zero or empty.
    pub open spec fn default_value() -> ProcessorConfigView {
        ProcessorConfigView {
            x: Seq::new(32, |i: int| 0u64),
            f: Seq::new(32, |i: int| 0u64),
            pc: 0,
            mvendorid: 0,
            marchid: 0,
            mimpid: 0,
            mcycle: 0,
            icycleinstret: 0,
            mstatus: 0,
            mtvec: 0,
            mscratch: 0,
            mepc: 0,
            mcause: 0,
            mtval: 0,
            misa: 0,
            mie: 0,
            mip: 0,
            medeleg: 0,
            mideleg: 0,
            mcounteren: 0,
            stvec: 0,
            sscratch: 0,
            sepc: 0,
            scause: 0,
            stval: 0,
            satp: 0,
            scounteren: 0,
            ilrsc: 0,
            iflags: 0,
            senvcfg: 0,
            menvcfg: 0,
            fcsr: 0,
        }
    }
}

impl Default for ProcessorConfig {
    fn default() -> (value: Self)
        ensures
            value.deep_view() == ProcessorConfigView::default_value(),
    {
        let value = ProcessorConfig {
            x: [0; 32],
            f: [0; 32],
            pc: 0,
            mvendorid: 0,
            marchid: 0,
            mimpid: 0,
            mcycle: 0,
            icycleinstret: 0,
            mstatus: 0,
            mtvec: 0,
            mscratch: 0,
            mepc: 0,
            mcause: 0,
            mtval: 0,
            misa: 0,
            mie: 0,
            mip: 0,
            medeleg: 0,
            mideleg: 0,
            mcounteren: 0,
            stvec: 0,
            sscratch: 0,
            sepc: 0,
            scause: 0,
            stval: 0,
            satp: 0,
            scounteren: 0,
            ilrsc: 0,
            iflags: 0,
            senvcfg: 0,
            menvcfg: 0,
            fcsr: 0,
        };
        assert(value.x@ =~= Seq::new(32, |i: int| 0u64));
        assert(value.f@ =~= Seq::new(32, |i: int| 0u64));
        value
    }
}

impl ProcessorConfigView {
    /// Both register files hold exactly 32 values, as every
    /// [`ProcessorConfig`] does.
    pub open spec fn well_formed(self) -> bool {
        self.x.len() == 32 && self.f.len() == 32
    }

    /// The state a machine starts from where nothing else is asked for: the
    /// identification registers name the emulator, everything else is zero.
    pub open spec fn spec_new() -> ProcessorConfigView {
        ProcessorConfigView {
            mvendorid: 0x6361727465736920,
            marchid: 0x7,
            mimpid: 0x1,
            ..ProcessorConfigView::default_value()
        }
    }
}

impl ProcessorConfig {
    /// The state a machine starts from where nothing else is asked for.
    pub fn new() -> (value: Self)
        ensures
            value.deep_view() == ProcessorConfigView::spec_new(),
    {
        let mut value = Self::default();
        value.mvendorid = 0x6361727465736920;
        value.marchid = 0x7;
        value.mimpid = 0x1;
        value
    }
}

impl ProcessorConfigView {
    /// The wire shape of this value: every field is present.
    pub open spec fn spec_to_wire(self) -> interfaces::ProcessorConfigView {
        interfaces::ProcessorConfigView {
            x: Some(self.x),
            f: Some(self.f),
            pc: Some(self.pc),
            mvendorid: Some(self.mvendorid),
            marchid: Some(self.marchid),
            mimpid: Some(self.mimpid),
            mcycle: Some(self.mcycle),
            icycleinstret: Some(self.icycleinstret),
            mstatus: Some(self.mstatus),
            mtvec: Some(self.mtvec),
            mscratch: Some(self.mscratch),
            mepc: Some(self.mepc),
            mcause: Some(self.mcause),
            mtval: Some(self.mtval),
            misa: Some(self.misa),
            mie: Some(self.mie),
            mip: Some(self.mip),
            medeleg: Some(self.medeleg),
            mideleg: Some(self.mideleg),
            mcounteren: Some(self.mcounteren),
            stvec: Some(self.stvec),
            sscratch: Some(self.sscratch),
            sepc: Some(self.sepc),
            scause: Some(self.scause),
            stval: Some(self.stval),
            satp: Some(self.satp),
            scounteren: Some(self.scounteren),
            ilrsc: Some(self.ilrsc),
            iflags: Some(self.iflags),
            senvcfg: Some(self.senvcfg),
            menvcfg: Some(self.menvcfg),
            fcsr: Some(self.fcsr),
        }
    }

    /// The value that a wire shape stands for: an absent field resolves to
    /// its default.
    pub open spec fn spec_from_wire(wire: interfaces::ProcessorConfigView) -> ProcessorConfigView {
        ProcessorConfigView {
            x: spec_convert_registers(wire.x),
            f: spec_convert_registers(wire.f),
            pc: wire.pc.unwrap_or(0),
            mvendorid: wire.mvendorid.unwrap_or(0),
            marchid: wire.marchid.unwrap_or(0),
            mimpid: wire.mimpid.unwrap_or(0),
            mcycle: wire.mcycle.unwrap_or(0),
            icycleinstret: wire.icycleinstret.unwrap_or(0),
            mstatus: wire.mstatus.unwrap_or(0),
            mtvec: wire.mtvec.unwrap_or(0),
            mscratch: wire.mscratch.unwrap_or(0),
            mepc: wire.mepc.unwrap_or(0),
            mcause: wire.mcause.unwrap_or(0),
            mtval: wire.mtval.unwrap_or(0),
            misa: wire.misa.unwrap_or(0),
            mie: wire.mie.unwrap_or(0),
            mip: wire.mip.unwrap_or(0),
            medeleg: wire.medeleg.unwrap_or(0),
            mideleg: wire.mideleg.unwrap_or(0),
            mcounteren: wire.mcounteren.unwrap_or(0),
            stvec: wire.stvec.unwrap_or(0),
            sscratch: wire.sscratch.unwrap_or(0),
            sepc: wire.sepc.unwrap_or(0),
            scause: wire.scause.unwrap_or(0),
            stval: wire.stval.unwrap_or(0),
            satp: wire.satp.unwrap_or(0),
            scounteren: wire.scounteren.unwrap_or(0),
            ilrsc: wire.ilrsc.unwrap_or(0),
            iflags: wire.iflags.unwrap_or(0),
            senvcfg: wire.senvcfg.unwrap_or(0),
            menvcfg: wire.menvcfg.unwrap_or(0),
            fcsr: wire.fcsr.unwrap_or(0),
        }
    }

    /// Each register that a wire shape leaves out is zero, and each register
    /// file that it leaves out holds 32 zeros.
    pub proof fn lemma_absent_fields_take_defaults()
        ensures
            ProcessorConfigView::spec_from_wire(interfaces::ProcessorConfigView::default_value())
                == ProcessorConfigView::default_value(),
    {
    }

    /// Converting to the wire and back changes nothing.
    pub proof fn lemma_round_trip(value: ProcessorConfigView)
        requires
            value.well_formed(),
        ensures
            ProcessorConfigView::spec_from_wire(value.spec_to_wire()) == value,
    {
        assert(value.x.subrange(0, 32) =~= value.x);
        assert(value.f.subrange(0, 32) =~= value.f);
    }
}

impl ProcessorConfig {
    /// Converts to the wire shape, in which every field is present.
    pub fn to_wire(&self) -> (wire: interfaces::ProcessorConfig)
        ensures
            wire.deep_view() == self.deep_view().spec_to_wire(),
            wire.deep_view().registers_complete(),
    {
        interfaces::ProcessorConfig {
            x: Some(registers_to_words(&self.x)),
            f: Some(registers_to_words(&self.f)),
            pc: Some(self.pc),
            mvendorid: Some(self.mvendorid),
            marchid: Some(self.marchid),
            mimpid: Some(self.mimpid),
            mcycle: Some(self.mcycle),
            icycleinstret: Some(self.icycleinstret),
            mstatus: Some(self.mstatus),
            mtvec: Some(self.mtvec),
            mscratch: Some(self.mscratch),
            mepc: Some(self.mepc),
            mcause: Some(self.mcause),
            mtval: Some(self.mtval),
            misa: Some(self.misa),
            mie: Some(self.mie),
            mip: Some(self.mip),
            medeleg: Some(self.medeleg),
            mideleg: Some(self.mideleg),
            mcounteren: Some(self.mcounteren),
            stvec: Some(self.stvec),
            sscratch: Some(self.sscratch),
            sepc: Some(self.sepc),
            scause: Some(self.scause),
            stval: Some(self.stval),
            satp: Some(self.satp),
            scounteren: Some(self.scounteren),
            ilrsc: Some(self.ilrsc),
            iflags: Some(self.iflags),
            senvcfg: Some(self.senvcfg),
            menvcfg: Some(self.menvcfg),
            fcsr: Some(self.fcsr),
        }
    }

    /// Converts from the wire shape; an absent register is zero.
    ///
    /// Each register file that is present must hold at least 32 values.
    pub fn from_wire(wire: &interfaces::ProcessorConfig) -> (value: Self)
        requires
            wire.deep_view().registers_complete(),
        ensures
            value.deep_view() == ProcessorConfigView::spec_from_wire(wire.deep_view()),
    {
        ProcessorConfig {
            x: convert_x_csr_field(&wire.x),
            f: convert_f_csr_field(&wire.f),
            pc: convert_csr_field(wire.pc),
            mvendorid: convert_csr_field(wire.mvendorid),
            marchid: convert_csr_field(wire.marchid),
            mimpid: convert_csr_field(wire.mimpid),
            mcycle: convert_csr_field(wire.mcycle),
            icycleinstret: convert_csr_field(wire.icycleinstret),
            mstatus: convert_csr_field(wire.mstatus),
            mtvec: convert_csr_field(wire.mtvec),
            mscratch: convert_csr_field(wire.mscratch),
            mepc: convert_csr_field(wire.mepc),
            mcause: convert_csr_field(wire.mcause),
            mtval: convert_csr_field(wire.mtval),
            misa: convert_csr_field(wire.misa),
            mie: convert_csr_field(wire.mie),
            mip: convert_csr_field(wire.mip),
            medeleg: convert_csr_field(wire.medeleg),
            mideleg: convert_csr_field(wire.mideleg),
            mcounteren: convert_csr_field(wire.mcounteren),
            stvec: convert_csr_field(wire.stvec),
            sscratch: convert_csr_field(wire.sscratch),
            sepc: convert_csr_field(wire.sepc),
            scause: convert_csr_field(wire.scause),
            stval: convert_csr_field(wire.stval),
            satp: convert_csr_field(wire.satp),
            scounteren: convert_csr_field(wire.scounteren),
            ilrsc: convert_csr_field(wire.ilrsc),
            iflags: convert_csr_field(wire.iflags),
            senvcfg: convert_csr_field(wire.senvcfg),
            menvcfg: convert_csr_field(wire.menvcfg),
            fcsr: convert_csr_field(wire.fcsr),
        }
    }
}

/// Main memory.
#[derive(Debug, Clone, PartialEq)]
pub struct RamConfig {
    /// The length in bytes.
    pub length: u64,
    /// The file that holds the initial contents.
    pub image_filename: String,
}

/// The mathematical value of a [`RamConfig`].
pub struct RamConfigView {
    pub length: u64,
    pub image_filename: Seq<char>,
}

impl DeepView for RamConfig {
    type V = RamConfigView;

    open spec fn deep_view(&self) -> RamConfigView {
        RamConfigView {
            length: self.length,
            image_filename: self.image_filename@,
        }
    }
}

impl RamConfigView {
    /// The value in which every field is absent, zero or empty.
    pub open spec fn default_value() -> RamConfigView {
        RamConfigView {
            length: 0,
            image_filename: Seq::empty(),
        }
    }
}

impl Default for RamConfig {
    fn default() -> (value: Self)
        ensures
            value.deep_view() == RamConfigView::default_value(),
    {
        RamConfig {
            length: 0,
            image_filename: String::new(),
        }
    }
}

impl RamConfig {
    /// A configuration in which every field is zero or empty.
    pub fn new() -> (value: Self)
        ensures
            value.deep_view() == RamConfigView::default_value(),
    {
        Self::default()
    }
}

impl RamConfigView {
    /// The wire shape of this value: every field is present.
    pub open spec fn spec_to_wire(self) -> interfaces::RAMConfigView {
        interfaces::RAMConfigView {
            length: self.length,
            image_filename: Some(self.image_filename),
        }
    }

    /// The value that a wire shape stands for: an absent field resolves to
    /// its default.
    pub open spec fn spec_from_wire(wire: interfaces::RAMConfigView) -> RamConfigView {
        RamConfigView {
            length: wire.length,
            image_filename: wire.image_filename.unwrap_or(Seq::empty()),
        }
    }

    /// Converting to the wire and back changes nothing.
    pub proof fn lemma_round_trip(value: RamConfigView)
        ensures
            RamConfigView::spec_from_wire(value.spec_to_wire()) == value,
    {
    }
}

impl RamConfig {
    /// Converts to the wire shape, in which every field is present.
    pub fn to_wire(&self) -> (wire: interfaces::RAMConfig)
        ensures
            wire.deep_view() == self.deep_view().spec_to_wire(),
    {
        interfaces::RAMConfig {
            length: self.length,
            image_filename: Some(self.image_filename.clone()),
        }
    }

    /// Converts from the wire shape; an absent field resolves to its default.
    pub fn from_wire(wire: &interfaces::RAMConfig) -> (value: Self)
        ensures
            value.deep_view() == RamConfigView::spec_from_wire(wire.deep_view()),
    {
        RamConfig {
            length: wire.length,
            image_filename: text_or_empty(&wire.image_filename),
        }
    }
}

/// Translation lookaside buffer.
#[derive(Debug, Clone, PartialEq)]
pub struct TlbConfig {
    /// The file that holds the initial contents.
    pub image_filename: String,
}

/// The mathematical value of a [`TlbConfig`].
pub struct TlbConfigView {
    pub image_filename: Seq<char>,
}

impl DeepView for TlbConfig {
    type V = TlbConfigView;

    open spec fn deep_view(&self) -> TlbConfigView {
        TlbConfigView {
            image_filename: self.image_filename@,
        }
    }
}

impl TlbConfigView {
    /// The value in which every field is absent, zero or empty.
    pub open spec fn default_value() -> TlbConfigView {
        TlbConfigView {
            image_filename: Seq::empty(),
        }
    }
}

impl Default for TlbConfig {
    fn default() -> (value: Self)
        ensures
            value.deep_view() == TlbConfigView::default_value(),
    {
        TlbConfig {
            image_filename: String::new(),
        }
    }
}

impl TlbConfig {
    /// A configuration in which every field is zero or empty.
    pub fn new() -> (value: Self)
        ensures
            value.deep_view() == TlbConfigView::default_value(),
    {
        Self::default()
    }
}

impl TlbConfigView {
    /// The wire shape of this value: every field is present.
    pub open spec fn spec_to_wire(self) -> interfaces::TLBConfigView {
        interfaces::TLBConfigView {
            image_filename: Some(self.image_filename),
        }
    }

    /// The value that a wire shape stands for: an absent field resolves to
    /// its default.
    pub open spec fn spec_from_wire(wire: interfaces::TLBConfigView) -> TlbConfigView {
        TlbConfigView {
            image_filename: wire.image_filename.unwrap_or(Seq::empty()),
        }
    }

    /// Converting to the wire and back changes nothing.
    pub proof fn lemma_round_trip(value: TlbConfigView)
        ensures
            TlbConfigView::spec_from_wire(value.spec_to_wire()) == value,
    {
    }
}

impl TlbConfig {
    /// Converts to the wire shape, in which every field is present.
    pub fn to_wire(&self) -> (wire: interfaces::TLBConfig)
        ensures
            wire.deep_view() == self.deep_view().spec_to_wire(),
    {
        interfaces::TLBConfig {
            image_filename: Some(self.image_filename.clone()),
        }
    }

    /// Converts from the wire shape; an absent field resolves to its default.
    pub fn from_wire(wire: &interfaces::TLBConfig) -> (value: Self)
        ensures
            value.deep_view() == TlbConfigView::spec_from_wire(wire.deep_view()),
    {
        TlbConfig {
            image_filename: text_or_empty(&wire.image_filename),
        }
    }
}

/// Microarchitecture state, kept in its wire shape.
#[derive(Debug, Clone, PartialEq)]
pub struct UarchConfig {
    pub processor: Option<interfaces::UarchProcessorConfig>,
    pub ram: Option<interfaces::UarchRAMConfig>,
}

/// The mathematical value of a [`UarchConfig`].
pub struct UarchConfigView {
    pub processor: Option<interfaces::UarchProcessorConfigView>,
    pub ram: Option<interfaces::UarchRAMConfigView>,
}

impl DeepView for UarchConfig {
    type V = UarchConfigView;

    open spec fn deep_view(&self) -> UarchConfigView {
        UarchConfigView {
            processor: self.processor.deep_view(),
            ram: self.ram.deep_view(),
        }
    }
}

impl UarchConfigView {
    /// The value in which every field is absent, zero or empty.
    pub open spec fn default_value() -> UarchConfigView {
        UarchConfigView {
            processor: None,
            ram: None,
        }
    }
}

impl Default for UarchConfig {
    fn default() -> (value: Self)
        ensures
            value.deep_view() == UarchConfigView::default_value(),
    {
        UarchConfig {
            processor: None,
            ram: None,
        }
    }
}

impl UarchConfig {
    /// A configuration in which every field is zero or empty.
    pub fn new() -> (value: Self)
        ensures
            value.deep_view() == UarchConfigView::default_value(),
    {
        Self::default()
    }
}

impl UarchConfigView {
    /// The wire shape of this value: every field is present.
    pub open spec fn spec_to_wire(self) -> interfaces::UarchConfigView {
        interfaces::UarchConfigView {
            processor: self.processor,
            ram: self.ram,
        }
    }

    /// The value that a wire shape stands for: an absent field resolves to
    /// its default.
    pub open spec fn spec_from_wire(wire: interfaces::UarchConfigView) -> UarchConfigView {
        UarchConfigView {
            processor: wire.processor,
            ram: wire.ram,
        }
    }

    /// Converting to the wire and back changes nothing.
    pub proof fn lemma_round_trip(value: UarchConfigView)
        ensures
            UarchConfigView::spec_from_wire(value.spec_to_wire()) == value,
    {
    }
}

impl UarchConfig {
    /// Converts to the wire shape, in which every field is present.
    pub fn to_wire(&self) -> (wire: interfaces::UarchConfig)
        ensures
            wire.deep_view() == self.deep_view().spec_to_wire(),
    {
        interfaces::UarchConfig {
            processor: self.processor.clone(),
            ram: self.ram.clone(),
        }
    }

    /// Converts from the wire shape; an absent field resolves to its default.
    pub fn from_wire(wire: &interfaces::UarchConfig) -> (value: Self)
        ensures
            value.deep_view() == UarchConfigView::spec_from_wire(wire.deep_view()),
    {
        UarchConfig {
            processor: wire.processor.clone(),
            ram: wire.ram.clone(),
        }
    }
}

/// Read-only memory.
#[derive(Debug, Clone, PartialEq)]
pub struct RomConfig {
    /// The arguments handed to the kernel.
    pub bootargs: String,
    /// The file that holds the contents.
    pub image_filename: String,
}

/// The mathematical value of a [`RomConfig`].
pub struct RomConfigView {
    pub bootargs: Seq<char>,
    pub image_filename: Seq<char>,
}

impl DeepView for RomConfig {
    type V = RomConfigView;

    open spec fn deep_view(&self) -> RomConfigView {
        RomConfigView {
            bootargs: self.bootargs@,
            image_filename: self.image_filename@,
        }
    }
}

impl RomConfigView {
    /// The value in which every field is absent, zero or empty.
    pub open spec fn default_value() -> RomConfigView {
        RomConfigView {
            bootargs: Seq::empty(),
            image_filename: Seq::empty(),
        }
    }
}

impl Default for RomConfig {
    fn default() -> (value: Self)
        ensures
            value.deep_view() == RomConfigView::default_value(),
    {
        RomConfig {
            bootargs: String::new(),
            image_filename: String::new(),
        }
    }
}

impl RomConfig {
    /// A configuration in which every field is zero or empty.
    pub fn new() -> (value: Self)
        ensures
            value.deep_view() == RomConfigView::default_value(),
    {
        Self::default()
    }
}

impl RomConfigView {
    /// The wire shape of this value: every field is present.
    pub open spec fn spec_to_wire(self) -> interfaces::ROMConfigView {
        interfaces::ROMConfigView {
            bootargs: Some(self.bootargs),
            image_filename: Some(self.image_filename),
        }
    }

    /// The value that a wire shape stands for: an absent field resolves to
    /// its default.
    pub open spec fn spec_from_wire(wire: interfaces::ROMConfigView) -> RomConfigView {
        RomConfigView {
            bootargs: wire.bootargs.unwrap_or(Seq::empty()),
            image_filename: wire.image_filename.unwrap_or(Seq::empty()),
        }
    }

    /// Converting to the wire and back changes nothing.
    pub proof fn lemma_round_trip(value: RomConfigView)
        ensures
            RomConfigView::spec_from_wire(value.spec_to_wire()) == value,
    {
    }
}

impl RomConfig {
    /// Converts to the wire shape, in which every field is present.
    pub fn to_wire(&self) -> (wire: interfaces::ROMConfig)
        ensures
            wire.deep_view() == self.deep_view().spec_to_wire(),
    {
        interfaces::ROMConfig {
            bootargs: Some(self.bootargs.clone()),
            image_filename: Some(self.image_filename.clone()),
        }
    }

    /// Converts from the wire shape; an absent field resolves to its default.
    pub fn from_wire(wire: &interfaces::ROMConfig) -> (value: Self)
        ensures
            value.deep_view() == RomConfigView::spec_from_wire(wire.deep_view()),
    {
        RomConfig {
            bootargs: text_or_empty(&wire.bootargs),
            image_filename: text_or_empty(&wire.image_filename),
        }
    }
}

/// A range of machine memory.
#[derive(Debug, Clone, PartialEq)]
pub struct MemoryRangeConfig {
    /// The address at which the range starts.
    pub start: u64,
    /// The length in bytes.
    pub length: u64,
    /// Whether changes to the range reach the image file.
    pub shared: bool,
    /// The file that backs the range.
    pub image_filename: String,
}

/// The mathematical value of a [`MemoryRangeConfig`].
pub struct MemoryRangeConfigView {
    pub start: u64,
    pub length: u64,
    pub shared: bool,
    pub image_filename: Seq<char>,
}

impl DeepView for MemoryRangeConfig {
    type V = MemoryRangeConfigView;

    open spec fn deep_view(&self) -> MemoryRangeConfigView {
        MemoryRangeConfigView {
            start: self.start,
            length: self.length,
            shared: self.shared,
            image_filename: self.image_filename@,
        }
    }
}

impl MemoryRangeConfigView {
    /// The value in which every field is absent, zero or empty.
    pub open spec fn default_value() -> MemoryRangeConfigView {
        MemoryRangeConfigView {
            start: 0,
            length: 0,
            shared: false,
            image_filename: Seq::empty(),
        }
    }
}

impl Default for MemoryRangeConfig {
    fn default() -> (value: Self)
        ensures
            value.deep_view() == MemoryRangeConfigView::default_value(),
    {
        MemoryRangeConfig {
            start: 0,
            length: 0,
            shared: false,
            image_filename: String::new(),
        }
    }
}

impl MemoryRangeConfig {
    /// A configuration in which every field is zero or empty.
    pub fn new() -> (value: Self)
        ensures
            value.deep_view() == MemoryRangeConfigView::default_value(),
    {
        Self::default()
    }
}

impl MemoryRangeConfigView {
    /// The wire shape of this value: every field is present.
    pub open spec fn spec_to_wire(self) -> interfaces::MemoryRangeConfigView {
        interfaces::MemoryRangeConfigView {
            start: Some(self.start),
            length: Some(self.length),
            shared: Some(self.shared),
            image_filename: Some(self.image_filename),
        }
    }

    /// The value that a wire shape stands for: an absent field resolves to
    /// its default.
    pub open spec fn spec_from_wire(
        wire: interfaces::MemoryRangeConfigView,
    ) -> MemoryRangeConfigView {
        MemoryRangeConfigView {
            start: wire.start.unwrap_or(0),
            length: wire.length.unwrap_or(0),
            shared: wire.shared.unwrap_or(false),
            image_filename: wire.image_filename.unwrap_or(Seq::empty()),
        }
    }

    /// Converting to the wire and back changes nothing.
    pub proof fn lemma_round_trip(value: MemoryRangeConfigView)
        ensures
            MemoryRangeConfigView::spec_from_wire(value.spec_to_wire()) == value,
    {
    }
}

impl MemoryRangeConfig {
    /// Converts to the wire shape, in which every field is present.
    pub fn to_wire(&self) -> (wire: interfaces::MemoryRangeConfig)
        ensures
            wire.deep_view() == self.deep_view().spec_to_wire(),
    {
        interfaces::MemoryRangeConfig {
            start: Some(self.start),
            length: Some(self.length),
            shared: Some(self.shared),
            image_filename: Some(self.image_filename.clone()),
        }
    }

    /// Converts from the wire shape; an absent field resolves to its default.
    pub fn from_wire(wire: &interfaces::MemoryRangeConfig) -> (value: Self)
        ensures
            value.deep_view() == MemoryRangeConfigView::spec_from_wire(wire.deep_view()),
    {
        MemoryRangeConfig {
            start: wire.start.unwrap_or(0),
            length: wire.length.unwrap_or(0),
            shared: wire.shared.unwrap_or(false),
            image_filename: text_or_empty(&wire.image_filename),
        }
    }
}

/// The memory ranges of a rollup. A range that is absent stays absent on the wire.
#[derive(Debug, Clone, PartialEq)]
pub struct RollupConfig {
    pub rx_buffer: Option<MemoryRangeConfig>,
    pub tx_buffer: Option<MemoryRangeConfig>,
    pub input_metadata: Option<MemoryRangeConfig>,
    pub voucher_hashes: Option<MemoryRangeConfig>,
    pub notice_hashes: Option<MemoryRangeConfig>,
}

/// The mathematical value of a [`RollupConfig`].
pub struct RollupConfigView {
    pub rx_buffer: Option<MemoryRangeConfigView>,
    pub tx_buffer: Option<MemoryRangeConfigView>,
    pub input_metadata: Option<MemoryRangeConfigView>,
    pub voucher_hashes: Option<MemoryRangeConfigView>,
    pub notice_hashes: Option<MemoryRangeConfigView>,
}

impl DeepView for RollupConfig {
    type V = RollupConfigView;

    open spec fn deep_view(&self) -> RollupConfigView {
        RollupConfigView {
            rx_buffer: self.rx_buffer.deep_view(),
            tx_buffer: self.tx_buffer.deep_view(),
            input_metadata: self.input_metadata.deep_view(),
            voucher_hashes: self.voucher_hashes.deep_view(),
            notice_hashes: self.notice_hashes.deep_view(),
        }
    }
}

impl RollupConfigView {
    /// The value in which every field is absent, zero or empty.
    pub open spec fn default_value() -> RollupConfigView {
        RollupConfigView {
            rx_buffer: None,
            tx_buffer: None,
            input_metadata: None,
            voucher_hashes: None,
            notice_hashes: None,
        }
    }
}

impl Default for RollupConfig {
    fn default() -> (value: Self)
        ensures
            value.deep_view() == RollupConfigView::default_value(),
    {
        RollupConfig {
            rx_buffer: None,
            tx_buffer: None,
            input_metadata: None,
            voucher_hashes: None,
            notice_hashes: None,
        }
    }
}

impl RollupConfig {
    /// A configuration in which every field is zero or empty.
    pub fn new() -> (value: Self)
        ensures
            value.deep_view() == RollupConfigView::default_value(),
    {
        Self::default()
    }
}

impl RollupConfigView {
    /// The wire shape of this value: every field is present.
    pub open spec fn spec_to_wire(self) -> interfaces::RollupConfigView {
        interfaces::RollupConfigView {
            rx_buffer: match self.rx_buffer {
                Some(range) => Some(range.spec_to_wire()),
                None => None,
            },
            tx_buffer: match self.tx_buffer {
                Some(range) => Some(range.spec_to_wire()),
                None => None,
            },
            input_metadata: match self.input_metadata {
                Some(range) => Some(range.spec_to_wire()),
                None => None,
            },
            voucher_hashes: match self.voucher_hashes {
                Some(range) => Some(range.spec_to_wire()),
                None => None,
            },
            notice_hashes: match self.notice_hashes {
                Some(range) => Some(range.spec_to_wire()),
                None => None,
            },
        }
    }

    /// The value that a wire shape stands for: an absent field resolves to
    /// its default.
    pub open spec fn spec_from_wire(wire: interfaces::RollupConfigView) -> RollupConfigView {
        RollupConfigView {
            rx_buffer: match wire.rx_buffer {
                Some(range) => Some(MemoryRangeConfigView::spec_from_wire(range)),
                None => None,
            },
            tx_buffer: match wire.tx_buffer {
                Some(range) => Some(MemoryRangeConfigView::spec_from_wire(range)),
                None => None,
            },
            input_metadata: match wire.input_metadata {
                Some(range) => Some(MemoryRangeConfigView::spec_from_wire(range)),
                None => None,
            },
            voucher_hashes: match wire.voucher_hashes {
                Some(range) => Some(MemoryRangeConfigView::spec_from_wire(range)),
                None => None,
            },
            notice_hashes: match wire.notice_hashes {
                Some(range) => Some(MemoryRangeConfigView::spec_from_wire(range)),
                None => None,
            },
        }
    }

    /// Converting to the wire and back changes nothing.
    pub proof fn lemma_round_trip(value: RollupConfigView)
        ensures
            RollupConfigView::spec_from_wire(value.spec_to_wire()) == value,
    {
        if value.rx_buffer is Some {
            MemoryRangeConfigView::lemma_round_trip(value.rx_buffer.unwrap());
        }
        if value.tx_buffer is Some {
            MemoryRangeConfigView::lemma_round_trip(value.tx_buffer.unwrap());
        }
        if value.input_metadata is Some {
            MemoryRangeConfigView::lemma_round_trip(value.input_metadata.unwrap());
        }
        if value.voucher_hashes is Some {
            MemoryRangeConfigView::lemma_round_trip(value.voucher_hashes.unwrap());
        }
        if value.notice_hashes is Some {
            MemoryRangeConfigView::lemma_round_trip(value.notice_hashes.unwrap());
        }
    }
}

impl RollupConfig {
    /// Converts to the wire shape: each range that is present is converted.
    pub fn to_wire(&self) -> (wire: interfaces::RollupConfig)
        ensures
            wire.deep_view() == self.deep_view().spec_to_wire(),
    {
        interfaces::RollupConfig {
            rx_buffer: match &self.rx_buffer {
                Some(range) => Some(range.to_wire()),
                None => None,
            },
            tx_buffer: match &self.tx_buffer {
                Some(range) => Some(range.to_wire()),
                None => None,
            },
            input_metadata: match &self.input_metadata {
                Some(range) => Some(range.to_wire()),
                None => None,
            },
            voucher_hashes: match &self.voucher_hashes {
                Some(range) => Some(range.to_wire()),
                None => None,
            },
            notice_hashes: match &self.notice_hashes {
                Some(range) => Some(range.to_wire()),
                None => None,
            },
        }
    }

    /// Converts from the wire shape: each range that is present is converted.
    pub fn from_wire(wire: &interfaces::RollupConfig) -> (value: Self)
        ensures
            value.deep_view() == RollupConfigView::spec_from_wire(wire.deep_view()),
    {
        RollupConfig {
            rx_buffer: match &wire.rx_buffer {
                Some(range) => Some(MemoryRangeConfig::from_wire(range)),
                None => None,
            },
            tx_buffer: match &wire.tx_buffer {
                Some(range) => Some(MemoryRangeConfig::from_wire(range)),
                None => None,
            },
            input_metadata: match &wire.input_metadata {
                Some(range) => Some(MemoryRangeConfig::from_wire(range)),
                None => None,
            },
            voucher_hashes: match &wire.voucher_hashes {
                Some(range) => Some(MemoryRangeConfig::from_wire(range)),
                None => None,
            },
            notice_hashes: match &wire.notice_hashes {
                Some(range) => Some(MemoryRangeConfig::from_wire(range)),
                None => None,
            },
        }
    }
}

/// The flash drives as the wire holds them.
pub open spec fn spec_flash_drives_to_wire(drives: Seq<MemoryRangeConfigView>) -> Seq<
    interfaces::MemoryRangeConfigView,
> {
    Seq::new(drives.len(), |i: int| drives[i].spec_to_wire())
}

/// The flash drives that a wire list stands for; an absent list is empty.
pub open spec fn spec_flash_drives_from_wire(
    wire: Option<Seq<interfaces::MemoryRangeConfigView>>,
) -> Seq<MemoryRangeConfigView> {
    match wire {
        Some(drives) => Seq::new(
            drives.len(),
            |i: int| MemoryRangeConfigView::spec_from_wire(drives[i]),
        ),
        None => Seq::empty(),
    }
}

fn flash_drives_to_wire(drives: &Vec<MemoryRangeConfig>) -> (wire: Vec<
    interfaces::MemoryRangeConfig,
>)
    ensures
        wire.deep_view() == spec_flash_drives_to_wire(drives.deep_view()),
{
    let mut wire: Vec<interfaces::MemoryRangeConfig> = Vec::new();
    let mut index: usize = 0;
    while index < drives.len()
        invariant
            index <= drives.len(),
            wire.len() == index,
            forall|i: int|
                0 <= i < index ==> (#[trigger] wire[i]).deep_view()
                    == drives[i].deep_view().spec_to_wire(),
        decreases drives.len() - index,
    {
        wire.push(drives[index].to_wire());
        index += 1;
    }
    assert(wire.deep_view() =~= spec_flash_drives_to_wire(drives.deep_view()));
    wire
}

fn flash_drives_from_wire(wire: &Option<Vec<interfaces::MemoryRangeConfig>>) -> (drives: Vec<
    MemoryRangeConfig,
>)
    ensures
        drives.deep_view() == spec_flash_drives_from_wire(wire.deep_view()),
{
    let mut drives: Vec<MemoryRangeConfig> = Vec::new();
    match wire {
        Some(list) => {
            let mut index: usize = 0;
            while index < list.len()
                invariant
                    index <= list.len(),
                    drives.len() == index,
                    forall|i: int|
                        0 <= i < index ==> (#[trigger] drives[i]).deep_view()
                            == MemoryRangeConfigView::spec_from_wire(list[i].deep_view()),
                decreases list.len() - index,
            {
                drives.push(MemoryRangeConfig::from_wire(&list[index]));
                index += 1;
            }
            assert(drives.deep_view() =~= spec_flash_drives_from_wire(wire.deep_view()));
        },
        None => {
            assert(drives.deep_view() =~= spec_flash_drives_from_wire(wire.deep_view()));
        },
    }
    drives
}

/// The full initial state of a machine.
#[derive(Debug, Clone, PartialEq)]
pub struct MachineConfig {
    pub processor: ProcessorConfig,
    pub ram: RamConfig,
    pub rom: RomConfig,
    pub flash_drives: Vec<MemoryRangeConfig>,
    pub clint: interfaces::CLINTConfig,
    pub htif: interfaces::HTIFConfig,
    pub rollup: RollupConfig,
    pub tlb: TlbConfig,
    pub uarch: UarchConfig,
}

/// The mathematical value of a [`MachineConfig`].
pub struct MachineConfigView {
    pub processor: ProcessorConfigView,
    pub ram: RamConfigView,
    pub rom: RomConfigView,
    pub flash_drives: Seq<MemoryRangeConfigView>,
    pub clint: interfaces::CLINTConfig,
    pub htif: interfaces::HTIFConfig,
    pub rollup: RollupConfigView,
    pub tlb: TlbConfigView,
    pub uarch: UarchConfigView,
}

impl DeepView for MachineConfig {
    type V = MachineConfigView;

    open spec fn deep_view(&self) -> MachineConfigView {
        MachineConfigView {
            processor: self.processor.deep_view(),
            ram: self.ram.deep_view(),
            rom: self.rom.deep_view(),
            flash_drives: self.flash_drives.deep_view(),
            clint: self.clint,
            htif: self.htif,
            rollup: self.rollup.deep_view(),
            tlb: self.tlb.deep_view(),
            uarch: self.uarch.deep_view(),
        }
    }
}

impl MachineConfigView {
    /// The value in which every field is absent, zero or empty.
    pub open spec fn default_value() -> MachineConfigView {
        MachineConfigView {
            processor: ProcessorConfigView::default_value(),
            ram: RamConfigView::default_value(),
            rom: RomConfigView::default_value(),
            flash_drives: Seq::empty(),
            clint: interfaces::CLINTConfig::default_value(),
            htif: interfaces::HTIFConfig::default_value(),
            rollup: RollupConfigView::default_value(),
            tlb: TlbConfigView::default_value(),
            uarch: UarchConfigView::default_value(),
        }
    }
}

impl Default for MachineConfig {
    fn default() -> (value: Self)
        ensures
            value.deep_view() == MachineConfigView::default_value(),
    {
        let value = MachineConfig {
            processor: ProcessorConfig::default(),
            ram: RamConfig::default(),
            rom: RomConfig::default(),
            flash_drives: Vec::new(),
            clint: interfaces::CLINTConfig::default(),
            htif: interfaces::HTIFConfig::default(),
            rollup: RollupConfig::default(),
            tlb: TlbConfig::default(),
            uarch: UarchConfig::default(),
        };
        assert(value.flash_drives.deep_view() =~= Seq::empty());
        value
    }
}

impl MachineConfigView {
    /// The register files of the processor hold exactly 32 values each, as
    /// in every [`MachineConfig`].
    pub open spec fn well_formed(self) -> bool {
        self.processor.well_formed()
    }

    /// What a wire configuration without any field stands for: the processor
    /// in its starting state, everything else zero or empty.
    pub open spec fn spec_initial() -> MachineConfigView {
        MachineConfigView {
            processor: ProcessorConfigView::spec_new(),
            ..MachineConfigView::default_value()
        }
    }
}

impl MachineConfigView {
    /// The wire shape of this value: every field is present.
    pub open spec fn spec_to_wire(self) -> interfaces::MachineConfigView {
        interfaces::MachineConfigView {
            processor: Some(self.processor.spec_to_wire()),
            ram: Some(self.ram.spec_to_wire()),
            rom: Some(self.rom.spec_to_wire()),
            flash_drive: Some(spec_flash_drives_to_wire(self.flash_drives)),
            clint: Some(self.clint),
            htif: Some(self.htif),
            rollup: Some(self.rollup.spec_to_wire()),
            tlb: Some(self.tlb.spec_to_wire()),
            uarch: Some(self.uarch.spec_to_wire()),
        }
    }

    /// The value that a wire shape stands for: an absent field resolves to
    /// its default.
    pub open spec fn spec_from_wire(wire: interfaces::MachineConfigView) -> MachineConfigView {
        MachineConfigView {
            processor: match wire.processor {
                Some(present) => ProcessorConfigView::spec_from_wire(present),
                None => ProcessorConfigView::spec_new(),
            },
            ram: match wire.ram {
                Some(present) => RamConfigView::spec_from_wire(present),
                None => RamConfigView::default_value(),
            },
            rom: match wire.rom {
                Some(present) => RomConfigView::spec_from_wire(present),
                None => RomConfigView::default_value(),
            },
            flash_drives: spec_flash_drives_from_wire(wire.flash_drive),
            clint: match wire.clint {
                Some(present) => present,
                None => interfaces::CLINTConfig::default_value(),
            },
            htif: match wire.htif {
                Some(present) => present,
                None => interfaces::HTIFConfig::default_value(),
            },
            rollup: match wire.rollup {
                Some(present) => RollupConfigView::spec_from_wire(present),
                None => RollupConfigView::default_value(),
            },
            tlb: match wire.tlb {
                Some(present) => TlbConfigView::spec_from_wire(present),
                None => TlbConfigView::default_value(),
            },
            uarch: match wire.uarch {
                Some(present) => UarchConfigView::spec_from_wire(present),
                None => UarchConfigView::default_value(),
            },
        }
    }

    /// Converting a configuration to the wire and back changes nothing: every
    /// field comes back as it was.
    pub proof fn lemma_round_trip(value: MachineConfigView)
        requires
            value.well_formed(),
        ensures
            MachineConfigView::spec_from_wire(value.spec_to_wire()) == value,
    {
        ProcessorConfigView::lemma_round_trip(value.processor);
        RamConfigView::lemma_round_trip(value.ram);
        RomConfigView::lemma_round_trip(value.rom);
        assert(spec_flash_drives_from_wire(Some(spec_flash_drives_to_wire(value.flash_drives)))
            =~= value.flash_drives) by {
            assert forall|i: int| 0 <= i < value.flash_drives.len() implies
                MemoryRangeConfigView::spec_from_wire(
                #[trigger] value.flash_drives[i].spec_to_wire(),
            ) == value.flash_drives[i] by {
                MemoryRangeConfigView::lemma_round_trip(value.flash_drives[i]);
            }
        }
        RollupConfigView::lemma_round_trip(value.rollup);
        TlbConfigView::lemma_round_trip(value.tlb);
        UarchConfigView::lemma_round_trip(value.uarch);
    }

    /// Each field that a wire configuration leaves out takes its default: the
    /// processor its starting state, every other part zero, empty text or the
    /// empty list. A wire configuration that leaves out everything stands for
    /// the initial configuration.
    pub proof fn lemma_absent_fields_take_defaults(wire: interfaces::MachineConfigView)
        ensures
            wire.processor is None ==> MachineConfigView::spec_from_wire(wire).processor
                == ProcessorConfigView::spec_new(),
            wire.ram is None ==> MachineConfigView::spec_from_wire(wire).ram
                == RamConfigView::default_value(),
            wire.rom is None ==> MachineConfigView::spec_from_wire(wire).rom
                == RomConfigView::default_value(),
            wire.flash_drive is None ==> MachineConfigView::spec_from_wire(wire).flash_drives
                == Seq::<MemoryRangeConfigView>::empty(),
            wire.clint is None ==> MachineConfigView::spec_from_wire(wire).clint
                == interfaces::CLINTConfig::default_value(),
            wire.htif is None ==> MachineConfigView::spec_from_wire(wire).htif
                == interfaces::HTIFConfig::default_value(),
            wire.rollup is None ==> MachineConfigView::spec_from_wire(wire).rollup
                == RollupConfigView::default_value(),
            wire.tlb is None ==> MachineConfigView::spec_from_wire(wire).tlb
                == TlbConfigView::default_value(),
            wire.uarch is None ==> MachineConfigView::spec_from_wire(wire).uarch
                == UarchConfigView::default_value(),
            MachineConfigView::spec_from_wire(interfaces::MachineConfigView::default_value())
                == MachineConfigView::spec_initial(),
    {
    }
}

impl MachineConfig {
    /// Converts to the wire shape, in which every field is present.
    ///
    /// The result converts back to this configuration.
    pub fn to_wire(&self) -> (wire: interfaces::MachineConfig)
        ensures
            wire.deep_view() == self.deep_view().spec_to_wire(),
            wire.deep_view().registers_complete(),
            MachineConfigView::spec_from_wire(wire.deep_view()) == self.deep_view(),
    {
        proof {
            MachineConfigView::lemma_round_trip(self.deep_view());
        }
        interfaces::MachineConfig {
            processor: Some(self.processor.to_wire()),
            ram: Some(self.ram.to_wire()),
            rom: Some(self.rom.to_wire()),
            flash_drive: Some(flash_drives_to_wire(&self.flash_drives)),
            clint: Some(self.clint),
            htif: Some(self.htif),
            rollup: Some(self.rollup.to_wire()),
            tlb: Some(self.tlb.to_wire()),
            uarch: Some(self.uarch.to_wire()),
        }
    }

    /// Converts from the wire shape; an absent field resolves to its default.
    ///
    /// The register files of the processor, where present, must hold at least
    /// 32 values each.
    pub fn from_wire(wire: &interfaces::MachineConfig) -> (value: Self)
        requires
            wire.deep_view().registers_complete(),
        ensures
            value.deep_view() == MachineConfigView::spec_from_wire(wire.deep_view()),
    {
        MachineConfig {
            processor: match &wire.processor {
                Some(present) => ProcessorConfig::from_wire(present),
                None => ProcessorConfig::new(),
            },
            ram: match &wire.ram {
                Some(present) => RamConfig::from_wire(present),
                None => RamConfig::new(),
            },
            rom: match &wire.rom {
                Some(present) => RomConfig::from_wire(present),
                None => RomConfig::new(),
            },
            flash_drives: flash_drives_from_wire(&wire.flash_drive),
            clint: match wire.clint {
                Some(present) => present,
                None => interfaces::CLINTConfig::default(),
            },
            htif: match wire.htif {
                Some(present) => present,
                None => interfaces::HTIFConfig::default(),
            },
            rollup: match &wire.rollup {
                Some(present) => RollupConfig::from_wire(present),
                None => RollupConfig::new(),
            },
            tlb: match &wire.tlb {
                Some(present) => TlbConfig::from_wire(present),
                None => TlbConfig::new(),
            },
            uarch: match &wire.uarch {
                Some(present) => UarchConfig::from_wire(present),
                None => UarchConfig::new(),
            },
        }
    }
}

/// Concurrency hints.
#[derive(Debug, Clone, Copy, PartialEq)]
pub struct ConcurrencyConfig {
    /// The number of threads that update the Merkle tree.
    pub update_merkle_tree: u64,
}

impl DeepView for ConcurrencyConfig {
    type V = ConcurrencyConfig;

    open spec fn deep_view(&self) -> ConcurrencyConfig {
        *self
    }
}

impl ConcurrencyConfig {
    /// The value in which every field is absent, zero or empty.
    pub open spec fn default_value() -> ConcurrencyConfig {
        ConcurrencyConfig {
            update_merkle_tree: 0,
        }
    }
}

impl Default for ConcurrencyConfig {
    fn default() -> (value: Self)
        ensures
            value == ConcurrencyConfig::default_value(),
    {
        ConcurrencyConfig {
            update_merkle_tree: 0,
        }
    }
}

impl ConcurrencyConfig {
    /// The wire shape of this value: every field is present.
    pub open spec fn spec_to_wire(self) -> interfaces::ConcurrencyConfig {
        interfaces::ConcurrencyConfig {
            update_merkle_tree: Some(self.update_merkle_tree),
        }
    }

    /// The value that a wire shape stands for: an absent field resolves to
    /// its default.
    pub open spec fn spec_from_wire(wire: interfaces::ConcurrencyConfig) -> ConcurrencyConfig {
        ConcurrencyConfig {
            update_merkle_tree: wire.update_merkle_tree.unwrap_or(0),
        }
    }

    /// Converting to the wire and back changes nothing.
    pub proof fn lemma_round_trip(value: ConcurrencyConfig)
        ensures
            ConcurrencyConfig::spec_from_wire(value.spec_to_wire()) == value,
    {
    }
}

impl ConcurrencyConfig {
    /// Converts to the wire shape, in which every field is present.
    pub fn to_wire(&self) -> (wire: interfaces::ConcurrencyConfig)
        ensures
            wire == self.spec_to_wire(),
    {
        interfaces::ConcurrencyConfig {
            update_merkle_tree: Some(self.update_merkle_tree),
        }
    }

    /// Converts from the wire shape; an absent field resolves to its default.
    pub fn from_wire(wire: &interfaces::ConcurrencyConfig) -> (value: Self)
        ensures
            value == ConcurrencyConfig::spec_from_wire(*wire),
    {
        ConcurrencyConfig {
            update_merkle_tree: wire.update_merkle_tree.unwrap_or(0),
        }
    }
}

/// Toggles that apply while a machine runs.
#[derive(Debug, Clone, Copy, PartialEq)]
pub struct MachineRuntimeConfig {
    pub concurrency: ConcurrencyConfig,
    pub htif: interfaces::HTIFRuntimeConfig,
    pub skip_root_hash_check: bool,
    pub skip_version_check: bool,
}

impl DeepView for MachineRuntimeConfig {
    type V = MachineRuntimeConfig;

    open spec fn deep_view(&self) -> MachineRuntimeConfig {
        *self
    }
}

impl MachineRuntimeConfig {
    /// The value in which every field is absent, zero or empty.
    pub open spec fn default_value() -> MachineRuntimeConfig {
        MachineRuntimeConfig {
            concurrency: ConcurrencyConfig::default_value(),
            htif: interfaces::HTIFRuntimeConfig::default_value(),
            skip_root_hash_check: false,
            skip_version_check: false,
        }
    }
}

impl Default for MachineRuntimeConfig {
    fn default() -> (value: Self)
        ensures
            value == MachineRuntimeConfig::default_value(),
    {
        MachineRuntimeConfig {
            concurrency: ConcurrencyConfig::default(),
            htif: interfaces::HTIFRuntimeConfig::default(),
            skip_root_hash_check: false,
            skip_version_check: false,
        }
    }
}

impl MachineRuntimeConfig {
    /// The wire shape of this value: every field is present.
    pub open spec fn spec_to_wire(self) -> interfaces::MachineRuntimeConfig {
        interfaces::MachineRuntimeConfig {
            concurrency: Some(self.concurrency.spec_to_wire()),
            htif: Some(self.htif),
            skip_root_hash_check: Some(self.skip_root_hash_check),
            skip_version_check: Some(self.skip_version_check),
        }
    }

    /// The value that a wire shape stands for: an absent field resolves to
    /// its default.
    pub open spec fn spec_from_wire(
        wire: interfaces::MachineRuntimeConfig,
    ) -> MachineRuntimeConfig {
        MachineRuntimeConfig {
            concurrency: match wire.concurrency {
                Some(present) => ConcurrencyConfig::spec_from_wire(present),
                None => ConcurrencyConfig::default_value(),
            },
            htif: match wire.htif {
                Some(present) => present,
                None => interfaces::HTIFRuntimeConfig::default_value(),
            },
            skip_root_hash_check: wire.skip_root_hash_check.unwrap_or(false),
            skip_version_check: wire.skip_version_check.unwrap_or(false),
        }
    }

    /// Converting to the wire and back changes nothing.
    pub proof fn lemma_round_trip(value: MachineRuntimeConfig)
        ensures
            MachineRuntimeConfig::spec_from_wire(value.spec_to_wire()) == value,
    {
        ConcurrencyConfig::lemma_round_trip(value.concurrency);
    }
}

impl MachineRuntimeConfig {
    /// Converts to the wire shape, in which every field is present.
    pub fn to_wire(&self) -> (wire: interfaces::MachineRuntimeConfig)
        ensures
            wire == self.spec_to_wire(),
    {
        interfaces::MachineRuntimeConfig {
            concurrency: Some(self.concurrency.to_wire()),
            htif: Some(self.htif),
            skip_root_hash_check: Some(self.skip_root_hash_check),
            skip_version_check: Some(self.skip_version_check),
        }
    }

    /// Converts from the wire shape; an absent field resolves to its default.
    pub fn from_wire(wire: &interfaces::MachineRuntimeConfig) -> (value: Self)
        ensures
            value == MachineRuntimeConfig::spec_from_wire(*wire),
    {
        MachineRuntimeConfig {
            concurrency: match &wire.concurrency {
                Some(present) => ConcurrencyConfig::from_wire(present),
                None => ConcurrencyConfig::default(),
            },
            htif: match wire.htif {
                Some(present) => present,
                None => interfaces::HTIFRuntimeConfig::default(),
            },
            skip_root_hash_check: wire.skip_root_hash_check.unwrap_or(false),
            skip_version_check: wire.skip_version_check.unwrap_or(false),
        }
    }
}

} // verus!
