//! The items of `vulkanalia` that the library relies on, each behind a trusted
//! wrapper whose contract restates what the crate's source shows.
use vstd::prelude::*;
use vulkanalia::vk;

use crate::names::text_bytes;

verus! {

/// The packed version number that `vk::make_version` computes: the major
/// version from bit 22, the minor version from bit 12, the patch in the low bits
/// (bits shifted past bit 31 are dropped, as `<<` on `u32` does).
pub open spec fn spec_make_version(major: u32, minor: u32, patch: u32) -> u32 {
    (major << 22u32) | (minor << 12u32) | patch
}

/// Calls `vk::make_version`, whose body in `vulkanalia-sys` is
/// `(major << 22) | (minor << 12) | patch`; the contract states exactly that.
#[verifier::external_body]
pub(crate) fn make_version(major: u32, minor: u32, patch: u32) -> (r: u32)
    ensures
        r == spec_make_version(major, minor, patch),
{
    vk::make_version(major, minor, patch)
}

/// Reads the name of `vk::KHR_SWAPCHAIN_EXTENSION`, which `vulkanalia-sys` builds with
/// `ExtensionName::from_bytes(b"VK_KHR_swapchain")`: the bytes before its terminator are
/// those of `"VK_KHR_swapchain"`.
#[verifier::external_body]
pub(crate) fn khr_swapchain_name() -> (r: Vec<u8>)
    ensures
        r@ == text_bytes("VK_KHR_swapchain"),
{
    vk::KHR_SWAPCHAIN_EXTENSION.name.as_cstr().to_bytes().to_vec()
}

/// Reads the name of `vk::KHR_DEDICATED_ALLOCATION_EXTENSION`, which `vulkanalia-sys` builds with
/// `ExtensionName::from_bytes(b"VK_KHR_dedicated_allocation")`: the bytes before its terminator are
/// those of `"VK_KHR_dedicated_allocation"`.
#[verifier::external_body]
pub(crate) fn khr_dedicated_allocation_name() -> (r: Vec<u8>)
    ensures
        r@ == text_bytes("VK_KHR_dedicated_allocation"),
{
    vk::KHR_DEDICATED_ALLOCATION_EXTENSION.name.as_cstr().to_bytes().to_vec()
}

/// Reads the name of `vk::KHR_BIND_MEMORY2_EXTENSION`, which `vulkanalia-sys` builds with
/// `ExtensionName::from_bytes(b"VK_KHR_bind_memory2")`: the bytes before its terminator are
/// those of `"VK_KHR_bind_memory2"`.
#[verifier::external_body]
pub(crate) fn khr_bind_memory2_name() -> (r: Vec<u8>)
    ensures
        r@ == text_bytes("VK_KHR_bind_memory2"),
{
    vk::KHR_BIND_MEMORY2_EXTENSION.name.as_cstr().to_bytes().to_vec()
}

/// Reads the name of `vk::KHR_MAINTENANCE4_EXTENSION`, which `vulkanalia-sys` builds with
/// `ExtensionName::from_bytes(b"VK_KHR_maintenance4")`: the bytes before its terminator are
/// those of `"VK_KHR_maintenance4"`.
#[verifier::external_body]
pub(crate) fn khr_maintenance4_name() -> (r: Vec<u8>)
    ensures
        r@ == text_bytes("VK_KHR_maintenance4"),
{
    vk::KHR_MAINTENANCE4_EXTENSION.name.as_cstr().to_bytes().to_vec()
}

/// Reads the name of `vk::KHR_MAINTENANCE5_EXTENSION`, which `vulkanalia-sys` builds with
/// `ExtensionName::from_bytes(b"VK_KHR_maintenance5")`: the bytes before its terminator are
/// those of `"VK_KHR_maintenance5"`.
#[verifier::external_body]
pub(crate) fn khr_maintenance5_name() -> (r: Vec<u8>)
    ensures
        r@ == text_bytes("VK_KHR_maintenance5"),
{
    vk::KHR_MAINTENANCE5_EXTENSION.name.as_cstr().to_bytes().to_vec()
}

/// Reads the name of `vk::EXT_MEMORY_BUDGET_EXTENSION`, which `vulkanalia-sys` builds with
/// `ExtensionName::from_bytes(b"VK_EXT_memory_budget")`: the bytes before its terminator are
/// those of `"VK_EXT_memory_budget"`.
#[verifier::external_body]
pub(crate) fn ext_memory_budget_name() -> (r: Vec<u8>)
    ensures
        r@ == text_bytes("VK_EXT_memory_budget"),
{
    vk::EXT_MEMORY_BUDGET_EXTENSION.name.as_cstr().to_bytes().to_vec()
}

/// Reads the name of `vk::KHR_BUFFER_DEVICE_ADDRESS_EXTENSION`, which `vulkanalia-sys` builds with
/// `ExtensionName::from_bytes(b"VK_KHR_buffer_device_address")`: the bytes before its terminator are
/// those of `"VK_KHR_buffer_device_address"`.
#[verifier::external_body]
pub(crate) fn khr_buffer_device_address_name() -> (r: Vec<u8>)
    ensures
        r@ == text_bytes("VK_KHR_buffer_device_address"),
{
    vk::KHR_BUFFER_DEVICE_ADDRESS_EXTENSION.name.as_cstr().to_bytes().to_vec()
}

/// Reads the name of `vk::EXT_MEMORY_PRIORITY_EXTENSION`, which `vulkanalia-sys` builds with
/// `ExtensionName::from_bytes(b"VK_EXT_memory_priority")`: the bytes before its terminator are
/// those of `"VK_EXT_memory_priority"`.
#[verifier::external_body]
pub(crate) fn ext_memory_priority_name() -> (r: Vec<u8>)
    ensures
        r@ == text_bytes("VK_EXT_memory_priority"),
{
    vk::EXT_MEMORY_PRIORITY_EXTENSION.name.as_cstr().to_bytes().to_vec()
}

/// Reads the name of `vk::AMD_DEVICE_COHERENT_MEMORY_EXTENSION`, which `vulkanalia-sys` builds with
/// `ExtensionName::from_bytes(b"VK_AMD_device_coherent_memory")`: the bytes before its terminator are
/// those of `"VK_AMD_device_coherent_memory"`.
#[verifier::external_body]
pub(crate) fn amd_device_coherent_memory_name() -> (r: Vec<u8>)
    ensures
        r@ == text_bytes("VK_AMD_device_coherent_memory"),
{
    vk::AMD_DEVICE_COHERENT_MEMORY_EXTENSION.name.as_cstr().to_bytes().to_vec()
}

/// Reads the name of `vk::KHR_EXTERNAL_MEMORY_WIN32_EXTENSION`, which `vulkanalia-sys` builds with
/// `ExtensionName::from_bytes(b"VK_KHR_external_memory_win32")`: the bytes before its terminator are
/// those of `"VK_KHR_external_memory_win32"`.
#[verifier::external_body]
pub(crate) fn khr_external_memory_win32_name() -> (r: Vec<u8>)
    ensures
        r@ == text_bytes("VK_KHR_external_memory_win32"),
{
    vk::KHR_EXTERNAL_MEMORY_WIN32_EXTENSION.name.as_cstr().to_bytes().to_vec()
}

/// Reads the name of `vk::EXT_DEBUG_UTILS_EXTENSION`, which `vulkanalia-sys` builds with
/// `ExtensionName::from_bytes(b"VK_EXT_debug_utils")`: the bytes before its terminator are
/// those of `"VK_EXT_debug_utils"`.
#[verifier::external_body]
pub(crate) fn ext_debug_utils_name() -> (r: Vec<u8>)
    ensures
        r@ == text_bytes("VK_EXT_debug_utils"),
{
    vk::EXT_DEBUG_UTILS_EXTENSION.name.as_cstr().to_bytes().to_vec()
}

/// Reads the bits of `vk::SampleCountFlags::_1`, which `vulkanalia-sys`
/// declares as `1 << 0` (the bitflags `bits` method returns the value as is).
#[verifier::external_body]
pub(crate) fn sample_count_1_bits() -> (r: u32)
    ensures
        r == 1,
{
    vk::SampleCountFlags::_1.bits()
}

/// Reads the bits of `vk::SampleCountFlags::_2`, which `vulkanalia-sys`
/// declares as `1 << 1` (the bitflags `bits` method returns the value as is).
#[verifier::external_body]
pub(crate) fn sample_count_2_bits() -> (r: u32)
    ensures
        r == 2,
{
    vk::SampleCountFlags::_2.bits()
}

/// Reads the bits of `vk::SampleCountFlags::_4`, which `vulkanalia-sys`
/// declares as `1 << 2` (the bitflags `bits` method returns the value as is).
#[verifier::external_body]
pub(crate) fn sample_count_4_bits() -> (r: u32)
    ensures
        r == 4,
{
    vk::SampleCountFlags::_4.bits()
}

/// Reads the bits of `vk::SampleCountFlags::_8`, which `vulkanalia-sys`
/// declares as `1 << 3` (the bitflags `bits` method returns the value as is).
#[verifier::external_body]
pub(crate) fn sample_count_8_bits() -> (r: u32)
    ensures
        r == 8,
{
    vk::SampleCountFlags::_8.bits()
}

/// Reads the bits of `vk::SampleCountFlags::_16`, which `vulkanalia-sys`
/// declares as `1 << 4` (the bitflags `bits` method returns the value as is).
#[verifier::external_body]
pub(crate) fn sample_count_16_bits() -> (r: u32)
    ensures
        r == 16,
{
    vk::SampleCountFlags::_16.bits()
}

/// Reads the bits of `vk::SampleCountFlags::_32`, which `vulkanalia-sys`
/// declares as `1 << 5` (the bitflags `bits` method returns the value as is).
#[verifier::external_body]
pub(crate) fn sample_count_32_bits() -> (r: u32)
    ensures
        r == 32,
{
    vk::SampleCountFlags::_32.bits()
}

/// Reads the bits of `vk::SampleCountFlags::_64`, which `vulkanalia-sys`
/// declares as `1 << 6` (the bitflags `bits` method returns the value as is).
#[verifier::external_body]
pub(crate) fn sample_count_64_bits() -> (r: u32)
    ensures
        r == 64,
{
    vk::SampleCountFlags::_64.bits()
}
} // verus!
