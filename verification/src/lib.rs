//! A simulator of NOR flash and a harness that drives a firmware bootloader
//! through upgrades, interrupted upgrades and reverts on it.
//!
//! The flash device (`flash`, `sector`), the areas of a device (`area`,
//! `device`), the test images (`image`), the slot trailers (`trailer`) and
//! the scenarios (`harness`, `upgrade`, `revert`, `faults`, `machine`) are
//! verified; the bootloader itself is not part of this crate.
//!
//! A scenario is a state machine. It hands out the flash together with a
//! boot request, and is resumed with the flash as the boot left it and with
//! what the bootloader reported. `traces` states what a scenario comes to
//! over several boots.

pub mod area;
pub mod device;
pub mod error;
pub mod faults;
pub mod flash;
pub mod harness;
pub mod image;
pub mod machine;
pub mod random;
pub mod revert;
pub mod run;
pub mod sector;
pub mod status;
pub mod traces;
pub mod trailer;
pub mod upgrade;
