//! Setup decisions of a Vulkan renderer: which physical device to use and with
//! which extensions and sample count, which queue families to create, which
//! layers and extensions to enable on the instance, and how held keys turn into
//! camera steps. The Vulkan calls themselves are made by the application, which
//! hands the answers of the driver to these functions as plain values.
pub mod device;
pub mod initialization;
pub mod input;
pub mod memory;
pub mod names;
pub mod vulkan;
