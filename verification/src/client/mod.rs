//! The values a caller works with, and their conversions to and from the wire.

pub mod config;
pub mod conversions;
pub mod log;
pub mod payload;
pub mod requests;
pub mod version;

pub use config::{
    ConcurrencyConfig, MachineConfig, MachineConfigView, MachineRuntimeConfig, MemoryRangeConfig,
    MemoryRangeConfigView, ProcessorConfig, ProcessorConfigView, RamConfig, RamConfigView,
    RollupConfig, RollupConfigView, RomConfig, RomConfigView, TlbConfig, TlbConfigView,
    UarchConfig, UarchConfigView,
};
pub use conversions::{convert_csr_field, convert_f_csr_field, convert_x_csr_field};
pub use log::{
    Access, AccessLog, AccessLogType, AccessLogView, AccessType, AccessView, BracketNote,
    BracketNoteView, BracketType, MerkleTreeProof, MerkleTreeProofView,
};
pub use payload::{decode_payload, decode_root_hash, encode_payload, Malformed, RootHashError};
pub use version::{SemanticVersion, SemanticVersionView};
