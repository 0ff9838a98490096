//! Verified core of the Moonkit consensus and runtime building blocks:
//! the Nimbus slot and velocity rules, the runtime pallets' state machines,
//! the XCM location helpers and the collator's decision logic.

pub mod weights;
pub mod slots;
pub mod async_backing;
pub mod nimbus_async_backing;
pub mod frame;
pub mod maintenance_mode;
pub mod emergency_para_xcm;
pub mod relay_storage_roots;
pub mod scale;
pub mod digest;
pub mod author_inherent;
pub mod xcm;
pub mod location_matcher;
pub mod location_converter;
pub mod xcm_precompile;
pub mod holding;
pub mod dmp_handlers;
pub mod inherents;
pub mod collator;
pub mod collators;
pub mod executive;
