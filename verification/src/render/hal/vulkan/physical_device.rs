//! The choice of the physical device: which device of a machine can drive the
//! renderer, and through which of its queue families.

use vstd::prelude::*;

verus! {

/// Name of the device extension that provides swapchains.
pub open spec fn swapchain_extension() -> Seq<char> {
    "VK_KHR_swapchain"@
}

/// The name of the swapchain extension, `ash::khr::swapchain::NAME`.
///
/// Trusted: the binding defines the name as the constant `VK_KHR_swapchain`.
#[verifier::external_body]
fn swapchain_extension_name() -> (name: String)
    ensures
        name@ == swapchain_extension(),
{
    ash::khr::swapchain::NAME.to_string_lossy().into_owned()
}

/// Bit of a queue family's capabilities: graphics operations.
pub const QUEUE_GRAPHICS: u32 = 0x1;

/// What a device reports of one of its queue families.
#[derive(Clone, Copy, Debug, PartialEq, Eq, Structural)]
pub struct QueueFamily {
    /// The capabilities of the queues of the family (a bit set).
    pub queue_flags: u32,
    /// Whether the queues of the family can present to the surface.
    pub present_support: bool,
}

impl QueueFamily {
    /// Whether the queues of the family do graphics operations.
    pub open spec fn spec_has_graphics(&self) -> bool {
        self.queue_flags & QUEUE_GRAPHICS == QUEUE_GRAPHICS
    }

    /// Whether the queues of the family do graphics operations.
    #[verifier::when_used_as_spec(spec_has_graphics)]
    pub fn has_graphics(&self) -> (graphics: bool)
        ensures
            graphics == self.spec_has_graphics(),
    {
        self.queue_flags & QUEUE_GRAPHICS == QUEUE_GRAPHICS
    }
}

/// The features of a device that the renderer depends on.
#[derive(Clone, Copy, Debug, PartialEq, Eq, Structural)]
pub struct DeviceFeatures {
    pub sampler_anisotropy: bool,
    pub buffer_device_address: bool,
    pub descriptor_indexing: bool,
    pub dynamic_rendering: bool,
    pub synchronization2: bool,
}

/// What a machine reports of one of its physical devices.
pub struct PhysicalDeviceInfo {
    pub physical_device: u64,
    /// Names of the device extensions that the device offers.
    pub extensions: Vec<String>,
    pub features: DeviceFeatures,
    /// The queue families of the device, by index.
    pub queue_families: Vec<QueueFamily>,
}

/// The device that was chosen, with the queue family for graphics and the
/// one for presenting, which may be the same.
#[derive(Clone, Copy, Debug, PartialEq, Eq, Structural)]
pub struct SelectedPhysicalDevice {
    pub physical_device: u64,
    pub graphics_family_idx: u32,
    pub present_family_idx: u32,
}

/// Whether `name` is among `names`.
pub open spec fn has_name(names: Seq<String>, name: Seq<char>) -> bool {
    exists|i: int| 0 <= i < names.len() && (#[trigger] names[i])@ == name
}

/// Whether a device with the extensions `available` offers every device
/// extension that the renderer needs: the swapchain extension.
pub open spec fn spec_check_required_extensions(available: Seq<String>) -> bool {
    has_name(available, swapchain_extension())
}

/// Whether a device with the features `features` has every feature that the
/// renderer needs.
pub open spec fn spec_check_required_features(features: DeviceFeatures) -> bool {
    &&& features.sampler_anisotropy
    &&& features.buffer_device_address
    &&& features.descriptor_indexing
    &&& features.dynamic_rendering
    &&& features.synchronization2
}

/// Whether `graphics` and `present` are the queue families that the renderer
/// uses of `families`: `graphics` is the first family that does graphics
/// operations, and `present` the first family that can present. One family
/// that does both is both.
pub open spec fn are_queue_families(families: Seq<QueueFamily>, graphics: int, present: int) -> bool {
    &&& 0 <= graphics < families.len()
    &&& families[graphics].spec_has_graphics()
    &&& forall|i: int| 0 <= i < graphics ==> !(#[trigger] families[i]).spec_has_graphics()
    &&& 0 <= present < families.len()
    &&& families[present].present_support
    &&& forall|i: int| 0 <= i < present ==> !(#[trigger] families[i]).present_support
}

/// Whether the renderer finds its queue families among `families`.
pub open spec fn has_queue_families(families: Seq<QueueFamily>) -> bool {
    exists|graphics: int, present: int| are_queue_families(families, graphics, present)
}

/// Whether the renderer can run on `device`.
pub open spec fn is_suitable(device: PhysicalDeviceInfo) -> bool {
    &&& spec_check_required_extensions(device.extensions@)
    &&& spec_check_required_features(device.features)
    &&& has_queue_families(device.queue_families@)
}

/// The names of the device extensions that the renderer needs.
pub fn get_required_device_extensions() -> (names: Vec<String>)
    ensures
        names@.len() == 1,
        names@[0]@ == swapchain_extension(),
{
    let mut names: Vec<String> = Vec::new();
    names.push(swapchain_extension_name());
    names
}

/// Whether `name` is among `names`.
pub fn contains_name(names: &Vec<String>, name: &String) -> (found: bool)
    ensures
        found == has_name(names@, name@),
{
    let mut i: usize = 0;
    while i < names.len()
        invariant
            i <= names@.len(),
            forall|k: int| 0 <= k < i ==> (#[trigger] names@[k])@ != name@,
        decreases names@.len() - i,
    {
        if names[i] == *name {
            return true;
        }
        i += 1;
    }
    false
}

/// Whether a device that offers the extensions `available` offers every
/// device extension that the renderer needs.
pub fn check_required_extensions(available: &Vec<String>) -> (ok: bool)
    ensures
        ok == spec_check_required_extensions(available@),
{
    let required = get_required_device_extensions();
    let mut r: usize = 0;
    while r < required.len()
        invariant
            r <= required@.len(),
            required@.len() == 1,
            required@[0]@ == swapchain_extension(),
            forall|k: int| 0 <= k < r ==> has_name(available@, (#[trigger] required@[k])@),
        decreases required@.len() - r,
    {
        if !contains_name(available, &required[r]) {
            return false;
        }
        r += 1;
    }
    true
}

/// Whether a device with the features `features` has every feature that the
/// renderer needs.
pub fn check_required_features(features: &DeviceFeatures) -> (ok: bool)
    ensures
        ok == spec_check_required_features(*features),
{
    features.sampler_anisotropy && features.buffer_device_address && features.descriptor_indexing
        && features.dynamic_rendering && features.synchronization2
}

/// Finds the queue family for graphics and the one for presenting: the first
/// family that does graphics operations, and the first family that can
/// present, which may be the same one. Without either there is no result.
pub fn find_queue_families(families: &Vec<QueueFamily>) -> (found: Option<(u32, u32)>)
    requires
        families@.len() <= u32::MAX,
    ensures
        match found {
            Some((graphics, present)) => are_queue_families(
                families@,
                graphics as int,
                present as int,
            ),
            None => !has_queue_families(families@),
        },
{
    let mut graphics: Option<u32> = None;
    let mut present: Option<u32> = None;
    let mut idx: usize = 0;
    while idx < families.len()
        invariant
            idx <= families@.len() <= u32::MAX,
            match graphics {
                Some(g) => {
                    &&& (g as int) < idx
                    &&& families@[g as int].spec_has_graphics()
                    &&& forall|i: int| 0 <= i < g ==> !(#[trigger] families@[i]).spec_has_graphics()
                },
                None => forall|i: int| 0 <= i < idx ==> !(#[trigger] families@[i]).spec_has_graphics(),
            },
            match present {
                Some(p) => {
                    &&& (p as int) < idx
                    &&& families@[p as int].present_support
                    &&& forall|i: int| 0 <= i < p ==> !(#[trigger] families@[i]).present_support
                },
                None => forall|i: int| 0 <= i < idx ==> !(#[trigger] families@[i]).present_support,
            },
        decreases families@.len() - idx,
    {
        let family = &families[idx];
        if graphics.is_none() && family.has_graphics() {
            graphics = Some(idx as u32);
        }
        if present.is_none() && family.present_support {
            present = Some(idx as u32);
        }
        idx += 1;
    }
    match (graphics, present) {
        (Some(g), Some(p)) => Some((g, p)),
        _ => None,
    }
}

/// Chooses the physical device: the first of `devices` that offers the
/// extensions and the features that the renderer needs and has a queue
/// family for graphics and one for presenting. Where there is none, there is
/// no result.
pub fn select_physical_device(devices: &Vec<PhysicalDeviceInfo>) -> (selected: Option<
    SelectedPhysicalDevice,
>)
    requires
        forall|i: int|
            0 <= i < devices@.len() ==> (#[trigger] devices@[i]).queue_families@.len() <= u32::MAX,
    ensures
        match selected {
            Some(device) => exists|at: int|
                {
                    &&& 0 <= at < devices@.len()
                    &&& is_suitable(#[trigger] devices@[at])
                    &&& forall|i: int| 0 <= i < at ==> !is_suitable(#[trigger] devices@[i])
                    &&& device.physical_device == devices@[at].physical_device
                    &&& are_queue_families(
                        devices@[at].queue_families@,
                        device.graphics_family_idx as int,
                        device.present_family_idx as int,
                    )
                },
            None => forall|i: int| 0 <= i < devices@.len() ==> !is_suitable(#[trigger] devices@[i]),
        },
{
    let mut at: usize = 0;
    while at < devices.len()
        invariant
            at <= devices@.len(),
            forall|i: int|
                0 <= i < devices@.len() ==> (#[trigger] devices@[i]).queue_families@.len()
                    <= u32::MAX,
            forall|i: int| 0 <= i < at ==> !is_suitable(#[trigger] devices@[i]),
        decreases devices@.len() - at,
    {
        let device = &devices[at];
        if check_required_extensions(&device.extensions) && check_required_features(
            &device.features,
        ) {
            if let Some((graphics_family_idx, present_family_idx)) = find_queue_families(
                &device.queue_families,
            ) {
                return Some(
                    SelectedPhysicalDevice {
                        physical_device: device.physical_device,
                        graphics_family_idx,
                        present_family_idx,
                    },
                );
            }
        }
        at += 1;
    }
    None
}

} // verus!
