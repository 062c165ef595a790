//! Choosing the physical device: the suitability check, the first suitable
//! device, its largest sample count and its device extensions, and the queue
//! families to create queues from.
use vstd::prelude::*;

use crate::names::{
    contains_all, filter_present, lemma_filter_keeps_distinct, lemma_text_bytes_injective, names_of,
    spec_filter_present, text_bytes,
};
use crate::vulkan::{
    amd_device_coherent_memory_name, ext_memory_budget_name, ext_memory_priority_name,
    khr_bind_memory2_name, khr_buffer_device_address_name, khr_dedicated_allocation_name,
    khr_external_memory_win32_name, khr_maintenance4_name, khr_maintenance5_name,
    khr_swapchain_name, sample_count_16_bits, sample_count_1_bits, sample_count_2_bits,
    sample_count_32_bits, sample_count_4_bits, sample_count_64_bits, sample_count_8_bits,
};

verus! {

/// Why a physical device cannot be used, in words.
#[derive(Debug)]
pub struct SuitabilityError(pub &'static str);

/// The indices of the queue families that graphics and presentation use.
pub struct QueueFamilyIndices {
    pub graphics: u32,
    pub present: u32,
}

/// How many surface formats and present modes a device offers for the surface.
pub struct SwapchainSupportCounts {
    pub formats: usize,
    pub present_modes: usize,
}

/// What the driver answered about one physical device.
pub struct DeviceReport {
    /// The queue families found for graphics and presentation; `None` when the
    /// lookup failed.
    pub queue_families: Option<QueueFamilyIndices>,
    /// The names of the device extensions the device offers; `None` when the
    /// query failed.
    pub extensions: Option<Vec<Vec<u8>>>,
    /// The swapchain support for the surface; `None` when the query failed.
    pub swapchain_support: Option<SwapchainSupportCounts>,
    /// Whether the device features include sampler anisotropy.
    pub sampler_anisotropy: bool,
    /// Whether the device type is a discrete GPU.
    pub discrete_gpu: bool,
    /// The framebuffer color sample count flags of the device limits.
    pub framebuffer_color_sample_counts: u32,
    /// The framebuffer depth sample count flags of the device limits.
    pub framebuffer_depth_sample_counts: u32,
}

/// Why the check of a physical device failed.
#[derive(Debug)]
pub enum DeviceCheckError {
    /// No queue families for graphics and presentation were found.
    MissingQueueFamilies,
    /// The query of the device extensions failed.
    ExtensionQueryFailed,
    /// The query of the swapchain support failed.
    SwapchainQueryFailed,
    /// The device answered, and falls short for the stated reason.
    Unsuitable(SuitabilityError),
}

/// The device extensions the extension check of a device is handed.
pub open spec fn spec_required_device_extensions() -> Seq<Seq<u8>> {
    seq![text_bytes("VK_KHR_swapchain")]
}

/// The names of the device extensions the extension check of a device is handed.
pub fn required_device_extensions() -> (r: Vec<Vec<u8>>)
    ensures
        names_of(r@) == spec_required_device_extensions(),
{
    let mut r: Vec<Vec<u8>> = Vec::new();
    r.push(khr_swapchain_name());
    assert(names_of(r@) =~= spec_required_device_extensions());
    r
}

/// The extension check as it stands: every name of the device's own list is
/// looked up in that same list, so the check passes whatever `required` holds.
#[allow(unused_variables)]
pub fn check_physical_device_extensions(available: &Vec<Vec<u8>>, required: &Vec<Vec<u8>>) -> (r:
    Result<(), SuitabilityError>)
    ensures
        r is Ok,
{
    if contains_all(available, available) {
        Ok(())
    } else {
        proof {
            assert forall|i: int| 0 <= i < available@.len() implies names_of(
                available@,
            ).contains(#[trigger] available@[i]@) by {
                assert(names_of(available@)[i] == available@[i]@);
            }
        }
        Err(SuitabilityError("Missing required device extensions."))
    }
}

/// The outcome of checking a device, in the order the checks are made: queue
/// families, extensions, swapchain support (its query, then formats and present
/// modes), sampler anisotropy, and last the device type.
pub open spec fn spec_check_physical_device(report: DeviceReport) -> Result<(), DeviceCheckError> {
    match report.queue_families {
        None => Err(DeviceCheckError::MissingQueueFamilies),
        Some(_) => match report.extensions {
            None => Err(DeviceCheckError::ExtensionQueryFailed),
            Some(_) => match report.swapchain_support {
                None => Err(DeviceCheckError::SwapchainQueryFailed),
                Some(support) => if support.formats == 0 || support.present_modes == 0 {
                    Err(
                        DeviceCheckError::Unsuitable(
                            SuitabilityError("Insufficient swapchain support."),
                        ),
                    )
                } else if !report.sampler_anisotropy {
                    Err(DeviceCheckError::Unsuitable(SuitabilityError("No sampler anisotropy.")))
                } else if !report.discrete_gpu {
                    Err(DeviceCheckError::Unsuitable(SuitabilityError("Is not a DISCRETE_GPU")))
                } else {
                    Ok(())
                },
            },
        },
    }
}

/// Checks whether a physical device can be used.
pub fn check_physical_device(report: &DeviceReport) -> (r: Result<(), DeviceCheckError>)
    ensures
        r == spec_check_physical_device(*report),
{
    if report.queue_families.is_none() {
        return Err(DeviceCheckError::MissingQueueFamilies);
    }
    match &report.extensions {
        None => {
            return Err(DeviceCheckError::ExtensionQueryFailed);
        },
        Some(available) => {
            let required = required_device_extensions();
            match check_physical_device_extensions(available, &required) {
                Ok(()) => {},
                Err(e) => {
                    return Err(DeviceCheckError::Unsuitable(e));
                },
            }
        },
    }
    match &report.swapchain_support {
        None => Err(DeviceCheckError::SwapchainQueryFailed),
        Some(support) => {
            if support.formats == 0 || support.present_modes == 0 {
                Err(
                    DeviceCheckError::Unsuitable(
                        SuitabilityError("Insufficient swapchain support."),
                    ),
                )
            } else if !report.sampler_anisotropy {
                Err(DeviceCheckError::Unsuitable(SuitabilityError("No sampler anisotropy.")))
            } else if !report.discrete_gpu {
                Err(DeviceCheckError::Unsuitable(SuitabilityError("Is not a DISCRETE_GPU")))
            } else {
                Ok(())
            }
        },
    }
}

/// Whether a sample count flag set holds every bit of `flag`.
pub open spec fn flags_contain(flags: u32, flag: u32) -> bool {
    flags & flag == flag
}

/// The largest sample count, from 64 down to 2, that both the color and the
/// depth sample count flags hold; 1 where none of them is held by both.
pub open spec fn spec_max_msaa_samples(color: u32, depth: u32) -> u32 {
    let counts = color & depth;
    if flags_contain(counts, 64) {
        64
    } else if flags_contain(counts, 32) {
        32
    } else if flags_contain(counts, 16) {
        16
    } else if flags_contain(counts, 8) {
        8
    } else if flags_contain(counts, 4) {
        4
    } else if flags_contain(counts, 2) {
        2
    } else {
        1
    }
}

/// The largest sample count that both the framebuffer color and depth sample
/// count flags support.
pub fn get_max_msaa_samples(color: u32, depth: u32) -> (r: u32)
    ensures
        r == spec_max_msaa_samples(color, depth),
{
    let counts = color & depth;
    let candidates = [
        sample_count_64_bits(),
        sample_count_32_bits(),
        sample_count_16_bits(),
        sample_count_8_bits(),
        sample_count_4_bits(),
        sample_count_2_bits(),
    ];
    let mut i: usize = 0;
    while i < 6
        invariant
            i <= 6,
            counts == color & depth,
            candidates@ == seq![64u32, 32, 16, 8, 4, 2],
            forall|j: int| 0 <= j < i ==> !flags_contain(counts, #[trigger] candidates@[j]),
        decreases 6 - i,
    {
        let c = candidates[i];
        if counts & c == c {
            return c;
        }
        i = i + 1;
    }
    sample_count_1_bits()
}

/// The device extensions that are enabled wherever the chosen device offers them.
pub open spec fn spec_optional_device_extensions() -> Seq<Seq<u8>> {
    seq![
        text_bytes("VK_KHR_swapchain"),
        text_bytes("VK_KHR_dedicated_allocation"),
        text_bytes("VK_KHR_bind_memory2"),
        text_bytes("VK_KHR_maintenance4"),
        text_bytes("VK_KHR_maintenance5"),
        text_bytes("VK_EXT_memory_budget"),
        text_bytes("VK_KHR_buffer_device_address"),
        text_bytes("VK_EXT_memory_priority"),
        text_bytes("VK_AMD_device_coherent_memory"),
        text_bytes("VK_KHR_external_memory_win32"),
    ]
}

/// The names of the device extensions that are enabled wherever offered.
pub fn optional_device_extensions() -> (r: Vec<Vec<u8>>)
    ensures
        names_of(r@) == spec_optional_device_extensions(),
{
    let mut r: Vec<Vec<u8>> = Vec::new();
    r.push(khr_swapchain_name());
    r.push(khr_dedicated_allocation_name());
    r.push(khr_bind_memory2_name());
    r.push(khr_maintenance4_name());
    r.push(khr_maintenance5_name());
    r.push(ext_memory_budget_name());
    r.push(khr_buffer_device_address_name());
    r.push(ext_memory_priority_name());
    r.push(amd_device_coherent_memory_name());
    r.push(khr_external_memory_win32_name());
    assert(names_of(r@) =~= spec_optional_device_extensions());
    r
}

/// The device extensions to enable on a device that offers `compatible`: the
/// optional extensions it offers, in the order of the optional list.
pub open spec fn spec_select_device_extensions(compatible: Seq<Seq<u8>>) -> Seq<Seq<u8>> {
    spec_filter_present(spec_optional_device_extensions(), compatible)
}

/// The device extensions to enable on a device that offers `compatible`.
pub fn select_device_extensions(compatible: &Vec<Vec<u8>>) -> (r: Vec<Vec<u8>>)
    ensures
        names_of(r@) == spec_select_device_extensions(names_of(compatible@)),
{
    let optional = optional_device_extensions();
    filter_present(&optional, compatible)
}

/// The queue families to create queues from: graphics and present, once each.
pub open spec fn spec_unique_queue_families(indices: QueueFamilyIndices) -> Seq<u32> {
    if indices.graphics == indices.present {
        seq![indices.graphics]
    } else {
        seq![indices.graphics, indices.present]
    }
}

/// The distinct queue family indices among graphics and present.
pub fn unique_queue_families(indices: &QueueFamilyIndices) -> (r: Vec<u32>)
    ensures
        r@ == spec_unique_queue_families(*indices),
{
    let mut r: Vec<u32> = Vec::new();
    r.push(indices.graphics);
    if indices.present != indices.graphics {
        r.push(indices.present);
    }
    r
}

/// Whether the device at `i` passes the check.
pub open spec fn is_suitable(reports: Seq<DeviceReport>, i: int) -> bool {
    spec_check_physical_device(reports[i]) is Ok
}

/// Whether some device of `reports` passes the check.
pub open spec fn any_suitable(reports: Seq<DeviceReport>) -> bool {
    exists|i: int| 0 <= i < reports.len() && #[trigger] is_suitable(reports, i)
}

/// Whether some device passes the check.
pub fn has_suitable_device(reports: &Vec<DeviceReport>) -> (r: bool)
    ensures
        r == any_suitable(reports@),
{
    let mut i: usize = 0;
    while i < reports.len()
        invariant
            i <= reports.len(),
            forall|j: int| 0 <= j < i ==> !#[trigger] is_suitable(reports@, j),
        decreases reports.len() - i,
    {
        if check_physical_device(&reports[i]).is_ok() {
            assert(is_suitable(reports@, i as int));
            return true;
        }
        i = i + 1;
    }
    false
}

/// The physical device chosen, with the sample count and the device extensions
/// to use it with.
pub struct PickedDevice {
    /// The position of the device among those the driver listed.
    pub index: usize,
    /// The largest sample count of the device (see `get_max_msaa_samples`).
    pub msaa_samples: u32,
    /// The device extensions to enable.
    pub device_extensions: Vec<Vec<u8>>,
}

/// Picks the first device that passes the check, its largest sample count, and
/// the optional device extensions it offers. The caller makes sure that some
/// device passes (`has_suitable_device`).
pub fn pick_physical_device(reports: &Vec<DeviceReport>) -> (picked: PickedDevice)
    requires
        any_suitable(reports@),
    ensures
        picked.index < reports@.len(),
        is_suitable(reports@, picked.index as int),
        forall|j: int| 0 <= j < picked.index ==> !#[trigger] is_suitable(reports@, j),
        picked.msaa_samples == spec_max_msaa_samples(
            reports@[picked.index as int].framebuffer_color_sample_counts,
            reports@[picked.index as int].framebuffer_depth_sample_counts,
        ),
        names_of(picked.device_extensions@) == spec_select_device_extensions(
            names_of(reports@[picked.index as int].extensions.unwrap()@),
        ),
{
    let mut i: usize = 0;
    while i < reports.len()
        invariant
            i <= reports.len(),
            any_suitable(reports@),
            forall|j: int| 0 <= j < i ==> !#[trigger] is_suitable(reports@, j),
        decreases reports.len() - i,
    {
        let report = &reports[i];
        if check_physical_device(report).is_ok() {
            assert(is_suitable(reports@, i as int));
            let msaa_samples = get_max_msaa_samples(
                report.framebuffer_color_sample_counts,
                report.framebuffer_depth_sample_counts,
            );
            let device_extensions = match &report.extensions {
                Some(compatible) => select_device_extensions(compatible),
                None => Vec::new(),
            };
            return PickedDevice { index: i, msaa_samples, device_extensions };
        }
        i = i + 1;
    }
    proof {
        let k = choose|k: int| 0 <= k < reports@.len() && #[trigger] is_suitable(reports@, k);
        assert(!is_suitable(reports@, k));
    }
    PickedDevice { index: 0, msaa_samples: 1, device_extensions: Vec::new() }
}

/// The sample counts a device can report: 1, 2, 4, 8, 16, 32 and 64.
pub open spec fn is_sample_count(c: u32) -> bool {
    c == 1 || c == 2 || c == 4 || c == 8 || c == 16 || c == 32 || c == 64
}

/// For a single-bit flag, the common flags of color and depth hold it exactly
/// when both hold it.
proof fn lemma_common_flags_contain(color: u32, depth: u32, c: u32)
    requires
        is_sample_count(c),
    ensures
        flags_contain(color & depth, c) <==> flags_contain(color, c) && flags_contain(depth, c),
{
    if c == 1 {
        assert((color & depth) & 1 == 1 <==> color & 1 == 1 && depth & 1 == 1) by (bit_vector);
    } else if c == 2 {
        assert((color & depth) & 2 == 2 <==> color & 2 == 2 && depth & 2 == 2) by (bit_vector);
    } else if c == 4 {
        assert((color & depth) & 4 == 4 <==> color & 4 == 4 && depth & 4 == 4) by (bit_vector);
    } else if c == 8 {
        assert((color & depth) & 8 == 8 <==> color & 8 == 8 && depth & 8 == 8) by (bit_vector);
    } else if c == 16 {
        assert((color & depth) & 16 == 16 <==> color & 16 == 16 && depth & 16 == 16)
            by (bit_vector);
    } else if c == 32 {
        assert((color & depth) & 32 == 32 <==> color & 32 == 32 && depth & 32 == 32)
            by (bit_vector);
    } else {
        assert((color & depth) & 64 == 64 <==> color & 64 == 64 && depth & 64 == 64)
            by (bit_vector);
    }
}

/// The chosen sample count is a sample count; unless it is 1, both the color and
/// the depth flags support it; and no larger sample count is supported by both.
pub proof fn lemma_max_msaa_samples_is_largest_supported(color: u32, depth: u32)
    ensures
        is_sample_count(spec_max_msaa_samples(color, depth)),
        spec_max_msaa_samples(color, depth) == 1 || (flags_contain(
            color,
            spec_max_msaa_samples(color, depth),
        ) && flags_contain(depth, spec_max_msaa_samples(color, depth))),
        forall|c: u32|
            is_sample_count(c) && c > spec_max_msaa_samples(color, depth) ==> !(#[trigger] flags_contain(
                color,
                c,
            ) && flags_contain(depth, c)),
{
    let r = spec_max_msaa_samples(color, depth);
    if r != 1 {
        lemma_common_flags_contain(color, depth, r);
    }
    assert forall|c: u32|
        is_sample_count(c) && c > r implies !(#[trigger] flags_contain(color, c) && flags_contain(
            depth,
            c,
        )) by {
        lemma_common_flags_contain(color, depth, c);
    }
}

/// The chosen sample count does not depend on which of the two flag sets is the
/// color one and which the depth one.
pub proof fn lemma_max_msaa_samples_symmetric(color: u32, depth: u32)
    ensures
        spec_max_msaa_samples(color, depth) == spec_max_msaa_samples(depth, color),
{
    assert(color & depth == depth & color) by (bit_vector);
}

/// A device passes the check exactly when its queue families and both queries
/// are there, it offers at least one surface format and one present mode, and it
/// is a discrete GPU with sampler anisotropy.
pub proof fn lemma_suitable_device_meets_every_requirement(report: DeviceReport)
    ensures
        spec_check_physical_device(report) is Ok <==> {
            &&& report.queue_families is Some
            &&& report.extensions is Some
            &&& report.swapchain_support matches Some(support) && support.formats > 0
                && support.present_modes > 0
            &&& report.sampler_anisotropy
            &&& report.discrete_gpu
        },
{
}

/// The device extensions enabled on a device are exactly the optional
/// extensions that it offers.
pub proof fn lemma_selected_extensions_are_offered_and_optional(compatible: Seq<Seq<u8>>)
    ensures
        forall|n: Seq<u8>|
            #[trigger] spec_select_device_extensions(compatible).contains(n) <==> (
            spec_optional_device_extensions().contains(n) && compatible.contains(n)),
{
    broadcast use vstd::seq_lib::group_filter_ensures;

    let optional = spec_optional_device_extensions();
    let pred = |n: Seq<u8>| compatible.contains(n);
    assert forall|n: Seq<u8>|
        #[trigger] spec_select_device_extensions(compatible).contains(n) <==> (optional.contains(n)
            && compatible.contains(n)) by {
        if spec_select_device_extensions(compatible).contains(n) {
            let k = choose|k: int|
                0 <= k < optional.filter(pred).len() && optional.filter(pred)[k] == n;
            assert(pred(optional.filter(pred)[k]));
            optional.lemma_filter_contains_rev(pred, n);
        }
        if optional.contains(n) && compatible.contains(n) {
            let k = choose|k: int| 0 <= k < optional.len() && optional[k] == n;
            optional.lemma_filter_contains(pred, k);
        }
    }
}

/// The queue families to create queues from hold graphics and present and
/// nothing else, each once.
pub proof fn lemma_unique_queue_families_distinct(indices: QueueFamilyIndices)
    ensures
        spec_unique_queue_families(indices).no_duplicates(),
        forall|q: u32|
            #[trigger] spec_unique_queue_families(indices).contains(q) <==> (q == indices.graphics
                || q == indices.present),
{
    let r = spec_unique_queue_families(indices);
    assert forall|q: u32| #[trigger] r.contains(q) <==> (q == indices.graphics || q
        == indices.present) by {
        if q == indices.graphics {
            assert(r[0] == q);
        }
        if q == indices.present {
            assert(r[r.len() - 1] == q);
        }
    }
}

/// The optional device extensions are ten different names.
proof fn lemma_optional_device_extensions_distinct()
    ensures
        spec_optional_device_extensions().no_duplicates(),
{
    let texts: Seq<&str> = seq![
        "VK_KHR_swapchain",
        "VK_KHR_dedicated_allocation",
        "VK_KHR_bind_memory2",
        "VK_KHR_maintenance4",
        "VK_KHR_maintenance5",
        "VK_EXT_memory_budget",
        "VK_KHR_buffer_device_address",
        "VK_EXT_memory_priority",
        "VK_AMD_device_coherent_memory",
        "VK_KHR_external_memory_win32",
    ];
    let optional = spec_optional_device_extensions();
    assert forall|i: int, j: int| 0 <= i < 10 && 0 <= j < 10 && i != j implies texts[i]@
        != texts[j]@ by {
        reveal_strlit("VK_KHR_swapchain");
        reveal_strlit("VK_KHR_dedicated_allocation");
        reveal_strlit("VK_KHR_bind_memory2");
        reveal_strlit("VK_KHR_maintenance4");
        reveal_strlit("VK_KHR_maintenance5");
        reveal_strlit("VK_EXT_memory_budget");
        reveal_strlit("VK_KHR_buffer_device_address");
        reveal_strlit("VK_EXT_memory_priority");
        reveal_strlit("VK_AMD_device_coherent_memory");
        reveal_strlit("VK_KHR_external_memory_win32");
        assert(texts[2]@[7] != texts[3]@[7]);
        assert(texts[2]@[7] != texts[4]@[7]);
        assert(texts[3]@[18] != texts[4]@[18]);
        assert(texts[6]@[7] != texts[9]@[7]);
    }
    assert forall|i: int, j: int|
        0 <= i < optional.len() && 0 <= j < optional.len() && i != j implies optional[i]
        != optional[j] by {
        assert(optional[i] == text_bytes(texts[i]));
        assert(optional[j] == text_bytes(texts[j]));
        if optional[i] == optional[j] {
            lemma_text_bytes_injective(texts[i], texts[j]);
        }
    }
}

/// The device extensions enabled on a device are named once each.
pub proof fn lemma_selected_extensions_distinct(compatible: Seq<Seq<u8>>)
    ensures
        spec_select_device_extensions(compatible).no_duplicates(),
{
    lemma_optional_device_extensions_distinct();
    lemma_filter_keeps_distinct(
        spec_optional_device_extensions(),
        |n: Seq<u8>| compatible.contains(n),
    );
}

/// `i` is the first position at which `flags` holds `true`.
pub open spec fn is_first_true(flags: Seq<bool>, i: int) -> bool {
    &&& 0 <= i < flags.len()
    &&& flags[i]
    &&& forall|j: int| 0 <= j < i ==> !#[trigger] flags[j]
}

/// The position of the first `true` in `flags`, if any.
fn first_true(flags: &Vec<bool>) -> (r: Option<u32>)
    requires
        flags@.len() <= u32::MAX,
    ensures
        r is None <==> forall|j: int| 0 <= j < flags@.len() ==> !#[trigger] flags@[j],
        r matches Some(i) ==> is_first_true(flags@, i as int),
{
    let mut i: usize = 0;
    while i < flags.len()
        invariant
            i <= flags@.len() <= u32::MAX,
            forall|j: int| 0 <= j < i ==> !#[trigger] flags@[j],
        decreases flags.len() - i,
    {
        if flags[i] {
            return Some(i as u32);
        }
        i = i + 1;
    }
    None
}

/// Finds the queue families for graphics and presentation: the first family
/// that supports graphics and the first that can present to the surface, given
/// for each family whether it does. `None` where either is missing.
pub fn find_queue_families(graphics_support: &Vec<bool>, present_support: &Vec<bool>) -> (r:
    Option<QueueFamilyIndices>)
    requires
        graphics_support@.len() <= u32::MAX,
        present_support@.len() <= u32::MAX,
    ensures
        r is Some <==> graphics_support@.contains(true) && present_support@.contains(true),
        r matches Some(q) ==> is_first_true(graphics_support@, q.graphics as int) && is_first_true(
            present_support@,
            q.present as int,
        ),
{
    let graphics = first_true(graphics_support);
    let present = first_true(present_support);
    match (graphics, present) {
        (Some(graphics), Some(present)) => Some(QueueFamilyIndices { graphics, present }),
        _ => {
            proof {
                if graphics_support@.contains(true) {
                    let k = choose|k: int|
                        0 <= k < graphics_support@.len() && graphics_support@[k] == true;
                    assert(graphics_support@[k]);
                }
                if present_support@.contains(true) {
                    let k = choose|k: int|
                        0 <= k < present_support@.len() && present_support@[k] == true;
                    assert(present_support@[k]);
                }
            }
            None
        },
    }
}

} // verus!
