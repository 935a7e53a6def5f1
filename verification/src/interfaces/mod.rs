//! The shapes of the values that travel on the wire.

pub mod config;
pub mod log;
pub mod request;

pub use config::{
    CLINTConfig, ConcurrencyConfig, FRegConfig, FlashDriveConfigs, HTIFConfig, HTIFRuntimeConfig,
    MachineConfig, MachineConfigView, MachineRuntimeConfig, MemoryRangeConfig,
    MemoryRangeConfigView, ProcessorConfig, ProcessorConfigView, RAMConfig, RAMConfigView,
    ROMConfig, ROMConfigView, RollupConfig, RollupConfigView, SemanticVersion,
    SemanticVersionView, TLBConfig, TLBConfigView, UarchConfig, UarchConfigView,
    UarchProcessorConfig, UarchProcessorConfigView, UarchRAMConfig, UarchRAMConfigView,
    UnsignedInteger, XRegConfig, words_view,
};
pub use log::{
    Access, AccessArray, AccessLog, AccessLogType, AccessLogView, AccessType, AccessView,
    Base64Hash, Base64HashArray, Base64String, Bracket, BracketArray, BracketType, BracketView,
    NoteArray, Proof, ProofView, Scalar, ScalarView,
};
pub use request::{Param, ParamView, Request};
