//! Vendor health telemetry for SD and eMMC media: the general command 56
//! descriptor, the order in which the vendor selectors are probed, and the
//! decoders for the 512-byte blocks that the cards return.

pub mod bytes;
pub mod fields;
pub mod mmc_ioc_cmd;
pub mod parsers;
pub mod sequencer;
