//! Decoder for the binary wire format of a host-controller management
//! protocol for short-range radio devices.
//!
//! The crate is a pure decoding layer: it turns `(event id, payload bytes)`
//! pairs into typed values, and builds the flat header of an outbound
//! command frame.  It performs no I/O itself; a transport hands it bytes
//! and takes bytes back.

pub mod address_info;
pub mod appearance;
pub mod class_of_device;
pub mod eir;
pub mod endian;
pub mod error;
pub mod events;
pub mod frame;
pub mod operations;
pub mod pack;
pub mod status;

pub use address_info::{AddressInfo, AddressType, HardwareAddress};
pub use appearance::Appearance;
pub use class_of_device::ClassOfDevice;
pub use operations::OperationId;
pub use status::Status;

pub use error::{Error, HciError, HciErrorKind};
