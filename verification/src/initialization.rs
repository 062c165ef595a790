//! What the instance is created with: the application description, the layers
//! and the instance extensions, and whether validation can be had at all.
use vstd::prelude::*;

use crate::names::{contains_name, copy_name, names_of, text_bytes};
use crate::vulkan::{ext_debug_utils_name, make_version, spec_make_version};

verus! {

/// How many frames may be in flight at once.
pub const MAX_FRAMES_IN_FLIGHT: usize = 2;

/// The application description handed to the instance. The names end in a NUL
/// byte, as the driver reads them.
pub struct ApplicationInfo {
    pub application_name: &'static str,
    pub application_version: u32,
    pub engine_name: &'static str,
    pub engine_version: u32,
    pub api_version: u32,
}

/// The application description: "Vulkan Tutorial (Rust)" version 1.0.0, no
/// engine (version 1.0.0), Vulkan API version 1.3.216.
pub fn application_info() -> (r: ApplicationInfo)
    ensures
        r.application_name@ == "Vulkan Tutorial (Rust)\0"@,
        r.application_version == spec_make_version(1, 0, 0),
        r.engine_name@ == "No Engine\0"@,
        r.engine_version == spec_make_version(1, 0, 0),
        r.api_version == spec_make_version(1, 3, 216),
{
    ApplicationInfo {
        application_name: "Vulkan Tutorial (Rust)\0",
        application_version: make_version(1, 0, 0),
        engine_name: "No Engine\0",
        engine_version: make_version(1, 0, 0),
        api_version: make_version(1, 3, 216),
    }
}

/// The name of the validation layer.
pub open spec fn spec_validation_layer() -> Seq<u8> {
    text_bytes("VK_LAYER_KHRONOS_validation")
}

/// The name of the validation layer, as bytes.
pub fn validation_layer_name() -> (r: Vec<u8>)
    ensures
        r@ == spec_validation_layer(),
{
    vstd::slice::slice_to_vec("VK_LAYER_KHRONOS_validation".as_bytes())
}

/// Why the instance cannot be created.
#[derive(Debug)]
pub enum InstanceError {
    /// Validation was asked for and the validation layer is not installed.
    ValidationLayerUnsupported,
}

impl InstanceError {
    /// The message this error reads as.
    pub fn message(&self) -> (r: &'static str)
        ensures
            r@ == "Validation layer requested but not supported."@,
    {
        match self {
            InstanceError::ValidationLayerUnsupported => "Validation layer requested but not supported.",
        }
    }
}

/// Fails exactly when validation is asked for and `available_layers` lacks the
/// validation layer.
pub fn check_validation_layer(
    validation_enabled: bool,
    available_layers: &Vec<Vec<u8>>,
    validation_layer: &Vec<u8>,
) -> (r: Result<(), InstanceError>)
    ensures
        r is Err <==> validation_enabled && !names_of(available_layers@).contains(validation_layer@),
{
    if validation_enabled && !contains_name(available_layers, validation_layer) {
        Err(InstanceError::ValidationLayerUnsupported)
    } else {
        Ok(())
    }
}

/// The layers to enable: the validation layer where validation is on, none
/// otherwise.
pub open spec fn spec_enabled_layers(validation_enabled: bool, validation_layer: Seq<u8>) -> Seq<
    Seq<u8>,
> {
    if validation_enabled {
        seq![validation_layer]
    } else {
        seq![]
    }
}

/// The layers to enable on the instance or on a device.
pub fn enabled_layers(validation_enabled: bool, validation_layer: &Vec<u8>) -> (r: Vec<Vec<u8>>)
    ensures
        names_of(r@) == spec_enabled_layers(validation_enabled, validation_layer@),
{
    let mut r: Vec<Vec<u8>> = Vec::new();
    if validation_enabled {
        r.push(copy_name(validation_layer));
    }
    assert(names_of(r@) =~= spec_enabled_layers(validation_enabled, validation_layer@));
    r
}

/// The instance extensions: those the window needs, then the debug utilities
/// extension where validation is on.
pub open spec fn spec_instance_extensions(window_extensions: Seq<Seq<u8>>, validation_enabled: bool) -> Seq<
    Seq<u8>,
> {
    if validation_enabled {
        window_extensions.push(text_bytes("VK_EXT_debug_utils"))
    } else {
        window_extensions
    }
}

/// The instance extensions to enable.
pub fn instance_extensions(window_extensions: &Vec<Vec<u8>>, validation_enabled: bool) -> (r: Vec<
    Vec<u8>,
>)
    ensures
        names_of(r@) == spec_instance_extensions(names_of(window_extensions@), validation_enabled),
        names_of(r@) == (if validation_enabled {
            names_of(window_extensions@).push(text_bytes("VK_EXT_debug_utils"))
        } else {
            names_of(window_extensions@)
        }),
        r@.len() == window_extensions@.len() + (if validation_enabled { 1int } else { 0int }),
        forall|i: int| 0 <= i < window_extensions@.len() ==> #[trigger] r@[i]@ == window_extensions@[i]@,
        validation_enabled ==> r@[window_extensions@.len() as int]@ == text_bytes("VK_EXT_debug_utils"),
{
    let mut r: Vec<Vec<u8>> = Vec::new();
    let mut i: usize = 0;
    while i < window_extensions.len()
        invariant
            i <= window_extensions.len(),
            names_of(r@) == names_of(window_extensions@).take(i as int),
        decreases window_extensions.len() - i,
    {
        let ghost before = r@;
        r.push(copy_name(&window_extensions[i]));
        assert(names_of(r@) =~= names_of(before).push(window_extensions@[i as int]@));
        assert(names_of(r@) =~= names_of(window_extensions@).take(i + 1));
        i = i + 1;
    }
    assert(names_of(window_extensions@).take(i as int) =~= names_of(window_extensions@));
    if validation_enabled {
        r.push(ext_debug_utils_name());
        assert(names_of(r@) =~= names_of(window_extensions@).push(text_bytes("VK_EXT_debug_utils")));
    }
    proof {
        lemma_instance_extensions_keep_window_extensions(names_of(window_extensions@), validation_enabled);
        assert forall|i: int| 0 <= i < r@.len() implies #[trigger] r@[i]@ == names_of(r@)[i] by {}
    }
    r
}

/// Everything the instance is created with.
pub struct InstancePlan {
    pub application: ApplicationInfo,
    /// The name of the validation layer, kept for the logical device.
    pub validation_layer: Vec<u8>,
    pub layers: Vec<Vec<u8>>,
    pub extensions: Vec<Vec<u8>>,
}

/// Decides what the instance is created with, given whether validation is on,
/// the layers the loader offers and the extensions the window needs.
pub fn plan_instance(
    validation_enabled: bool,
    available_layers: &Vec<Vec<u8>>,
    window_extensions: &Vec<Vec<u8>>,
) -> (r: Result<InstancePlan, InstanceError>)
    ensures
        r is Err <==> validation_enabled && !names_of(available_layers@).contains(
            spec_validation_layer(),
        ),
        r matches Ok(plan) ==> {
            &&& plan.application.application_name@ == "Vulkan Tutorial (Rust)\0"@
            &&& plan.application.application_version == spec_make_version(1, 0, 0)
            &&& plan.application.engine_name@ == "No Engine\0"@
            &&& plan.application.engine_version == spec_make_version(1, 0, 0)
            &&& plan.application.api_version == spec_make_version(1, 3, 216)
            &&& plan.validation_layer@ == spec_validation_layer()
            &&& names_of(plan.layers@) == spec_enabled_layers(
                validation_enabled,
                spec_validation_layer(),
            )
            &&& names_of(plan.extensions@) == spec_instance_extensions(
                names_of(window_extensions@),
                validation_enabled,
            )
        },
{
    let application = application_info();
    let validation_layer = validation_layer_name();
    check_validation_layer(validation_enabled, available_layers, &validation_layer)?;
    let layers = enabled_layers(validation_enabled, &validation_layer);
    let extensions = instance_extensions(window_extensions, validation_enabled);
    Ok(InstancePlan { application, validation_layer, layers, extensions })
}

/// The logical device enables the same layers as the instance: both follow the
/// validation setting and the validation layer that the instance plan keeps.
pub proof fn lemma_device_layers_match_instance(
    validation_enabled: bool,
    instance_layers: Seq<Seq<u8>>,
    kept_validation_layer: Seq<u8>,
)
    requires
        instance_layers == spec_enabled_layers(validation_enabled, spec_validation_layer()),
        kept_validation_layer == spec_validation_layer(),
    ensures
        spec_enabled_layers(validation_enabled, kept_validation_layer) == instance_layers,
{
}

/// The instance extensions keep every extension the window needs, in the
/// window's order, and add the debug utilities extension after them exactly when
/// validation is on, and nothing else.
pub proof fn lemma_instance_extensions_keep_window_extensions(
    window_extensions: Seq<Seq<u8>>,
    validation_enabled: bool,
)
    ensures
        spec_instance_extensions(window_extensions, validation_enabled).len()
            == window_extensions.len() + (if validation_enabled { 1int } else { 0int }),
        forall|i: int|
            0 <= i < window_extensions.len() ==> #[trigger] spec_instance_extensions(
                window_extensions,
                validation_enabled,
            )[i] == window_extensions[i],
        validation_enabled ==> spec_instance_extensions(window_extensions, validation_enabled)[
            window_extensions.len() as int] == text_bytes("VK_EXT_debug_utils"),
{
}

} // verus!
