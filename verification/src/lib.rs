//! Object model of a smart-home accessory: an accessory owns services, a
//! service owns characteristics. Every composition rule of the model
//! (instance identifiers, presence of optional characteristics, order of
//! enumeration and of the wire form) is stated as a contract and proved.

pub mod accessory;
pub mod characteristic;
pub mod error;
pub mod hap_type;
pub mod json;
pub mod pointer;
pub mod service;

pub use crate::error::HapError;
pub use crate::hap_type::HapType;
