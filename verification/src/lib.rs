//! The verified core of a contracts-pallet chain extension that gives ink!
//! contracts access to the assets pallet through the PSP22 interface.
//!
//! The library decides, for each call of the extension, which pallet
//! operation runs on which arguments (decoding the contract's SCALE input),
//! and which bytes go back to the contract once the pallet has answered.

pub mod errors;
pub mod extension;
pub mod request;
pub mod scale;
