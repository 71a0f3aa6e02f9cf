//! Core protocol engine for a family of Bluetooth-audio earbud devices
//! driven over an RFCOMM serial channel.
//!
//! The crate verifies the protocol logic itself: the length-prefixed,
//! CRC-checked packet codec with streaming resynchronisation, the model
//! catalog with serial-number decoding, the capability gating of every
//! typed operation, and the bit-level payload codecs. The asynchronous
//! transport that feeds bytes in and out lives outside this library.

pub mod bluetooth;
pub mod connection;
pub mod error;
pub mod models;
pub mod payloads;
pub mod protocol;
pub mod serial;
pub mod session;
pub mod text;
pub mod types;

pub use bluetooth::BluetoothDevice;
pub use error::EarError;
pub use models::{ModelBase, ModelInfo};
pub use protocol::EarPacket;
pub use session::{CommandRequest, ModelDescriptor};
pub use types::{
    AncLevel, BatteryReading, BatteryStatus, CustomEq, EarFitResult, EarSide, EnhancedBassState,
    EqMode, FirmwareInfo, GestureSlot, InEarState, LatencyState, LedColor, LedColorSet,
    ModelSummary, PersonalizedAncState, SerialIdentity,
};
