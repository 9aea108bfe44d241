use crate::queue_family::{find_queue_families, QueueFamily, QueueFamilyIndices};
use crate::surface::{Capabilities, SupportedPresentModes};
use vstd::prelude::*;

verus! {

/// A set of device extensions, one flag for each extension that is known.
#[derive(Clone, Copy, Debug, PartialEq, Eq, Structural)]
pub struct DeviceExtensions {
    pub khr_swapchain: bool,
    pub khr_display_swapchain: bool,
    pub khr_sampler_mirror_clamp_to_edge: bool,
    pub khr_maintenance1: bool,
    pub khr_get_memory_requirements2: bool,
    pub khr_dedicated_allocation: bool,
    pub khr_incremental_present: bool,
    pub ext_debug_marker: bool,
}

/// What is known of one physical device before a logical device is made.
#[derive(Clone, Debug)]
pub struct PhysicalDeviceInfo {
    /// The device's queue families, in the device's own order.
    pub queue_families: Vec<QueueFamily>,
    /// The extensions that the device supports.
    pub supported_extensions: DeviceExtensions,
    /// What the surface reports for this device.
    pub capabilities: Capabilities,
}

impl DeviceExtensions {
    /// The empty set.
    pub open spec fn empty() -> DeviceExtensions {
        DeviceExtensions {
            khr_swapchain: false,
            khr_display_swapchain: false,
            khr_sampler_mirror_clamp_to_edge: false,
            khr_maintenance1: false,
            khr_get_memory_requirements2: false,
            khr_dedicated_allocation: false,
            khr_incremental_present: false,
            ext_debug_marker: false,
        }
    }

    /// The extensions that are in both sets.
    pub open spec fn common(self, other: DeviceExtensions) -> DeviceExtensions {
        DeviceExtensions {
            khr_swapchain: self.khr_swapchain && other.khr_swapchain,
            khr_display_swapchain: self.khr_display_swapchain && other.khr_display_swapchain,
            khr_sampler_mirror_clamp_to_edge: self.khr_sampler_mirror_clamp_to_edge
                && other.khr_sampler_mirror_clamp_to_edge,
            khr_maintenance1: self.khr_maintenance1 && other.khr_maintenance1,
            khr_get_memory_requirements2: self.khr_get_memory_requirements2
                && other.khr_get_memory_requirements2,
            khr_dedicated_allocation: self.khr_dedicated_allocation
                && other.khr_dedicated_allocation,
            khr_incremental_present: self.khr_incremental_present && other.khr_incremental_present,
            ext_debug_marker: self.ext_debug_marker && other.ext_debug_marker,
        }
    }

    /// Every extension of `self` is also in `other`.
    pub open spec fn subset_of(self, other: DeviceExtensions) -> bool {
        other.common(self) == self
    }

    /// The set without any extension.
    pub fn none() -> (extensions: DeviceExtensions)
        ensures
            extensions == DeviceExtensions::empty(),
    {
        DeviceExtensions {
            khr_swapchain: false,
            khr_display_swapchain: false,
            khr_sampler_mirror_clamp_to_edge: false,
            khr_maintenance1: false,
            khr_get_memory_requirements2: false,
            khr_dedicated_allocation: false,
            khr_incremental_present: false,
            ext_debug_marker: false,
        }
    }

    /// The extensions that are in both sets.
    pub fn intersection(&self, other: &DeviceExtensions) -> (both: DeviceExtensions)
        ensures
            both == self.common(*other),
    {
        DeviceExtensions {
            khr_swapchain: self.khr_swapchain && other.khr_swapchain,
            khr_display_swapchain: self.khr_display_swapchain && other.khr_display_swapchain,
            khr_sampler_mirror_clamp_to_edge: self.khr_sampler_mirror_clamp_to_edge
                && other.khr_sampler_mirror_clamp_to_edge,
            khr_maintenance1: self.khr_maintenance1 && other.khr_maintenance1,
            khr_get_memory_requirements2: self.khr_get_memory_requirements2
                && other.khr_get_memory_requirements2,
            khr_dedicated_allocation: self.khr_dedicated_allocation
                && other.khr_dedicated_allocation,
            khr_incremental_present: self.khr_incremental_present && other.khr_incremental_present,
            ext_debug_marker: self.ext_debug_marker && other.ext_debug_marker,
        }
    }
}

/// The extensions that rendering to a surface needs: the swapchain extension alone.
pub open spec fn required_device_extensions() -> DeviceExtensions {
    DeviceExtensions { khr_swapchain: true, ..DeviceExtensions::empty() }
}

/// Required device extensions.
pub fn device_extensions() -> (extensions: DeviceExtensions)
    ensures
        extensions == required_device_extensions(),
{
    let mut extensions = DeviceExtensions::none();
    extensions.khr_swapchain = true;
    extensions
}

/// Whether a device that supports `available` supports every required extension.
pub fn check_device_extension_support(available: &DeviceExtensions) -> (supported: bool)
    ensures
        supported == required_device_extensions().subset_of(*available),
        supported == available.khr_swapchain,
{
    let required = device_extensions();
    let both = available.intersection(&required);
    both == required
}

/// A layer of this name is among the available ones.
pub open spec fn layer_available(available: Seq<String>, name: Seq<char>) -> bool {
    exists|j: int| 0 <= j < available.len() && (#[trigger] available[j])@ == name
}

/// Every required layer is among the available ones.
pub open spec fn layers_supported(available: Seq<String>, required: Seq<String>) -> bool {
    forall|i: int| 0 <= i < required.len() ==> layer_available(available, (#[trigger] required[i])@)
}

/// Whether `name` is among the layers.
fn has_layer(layers: &[String], name: &String) -> (found: bool)
    ensures
        found == layer_available(layers@, name@),
{
    let mut j: usize = 0;
    while j < layers.len()
        invariant
            j <= layers@.len(),
            forall|k: int| 0 <= k < j ==> (#[trigger] layers@[k])@ != name@,
        decreases layers@.len() - j,
    {
        if layers[j] == *name {
            return true;
        }
        j += 1;
    }
    false
}

/// Whether every required validation layer is among the available layers.
pub fn check_validation_layer_support(available: &[String], required: &[String]) -> (supported:
    bool)
    ensures
        supported == layers_supported(available@, required@),
{
    let mut i: usize = 0;
    while i < required.len()
        invariant
            i <= required@.len(),
            forall|k: int| 0 <= k < i ==> layer_available(available@, (#[trigger] required@[k])@),
        decreases required@.len() - i,
    {
        if !has_layer(available, &required[i]) {
            return false;
        }
        i += 1;
    }
    true
}

impl SupportedPresentModes {
    /// At least one present mode is supported.
    pub open spec fn any(self) -> bool {
        self.immediate || self.mailbox || self.fifo || self.relaxed
    }

    /// Whether at least one present mode is supported.
    pub fn is_any(&self) -> (any: bool)
        ensures
            any == self.any(),
    {
        self.immediate || self.mailbox || self.fifo || self.relaxed
    }
}

impl PhysicalDeviceInfo {
    /// The description is within machine limits: the queue families can be
    /// numbered by `i32`.
    pub open spec fn wf(self) -> bool {
        self.queue_families@.len() <= i32::MAX
    }

    /// A chain can be built on the surface: some format and some present
    /// mode are offered.
    pub open spec fn swap_chain_adequate(self) -> bool {
        self.capabilities.supported_formats@.len() > 0 && self.capabilities.present_modes.any()
    }

    /// The device can render to the surface: it has queue families for
    /// graphics work and for presenting, supports the required extensions and
    /// offers an adequate chain.
    pub open spec fn suitable(self) -> bool {
        &&& QueueFamilyIndices::scanned(
            self.queue_families@,
            self.queue_families@.len(),
        ).complete()
        &&& required_device_extensions().subset_of(self.supported_extensions)
        &&& self.swap_chain_adequate()
    }
}

/// Whether the device can render to the surface.
pub fn is_device_suitable(device: &PhysicalDeviceInfo) -> (suitable: bool)
    requires
        device.wf(),
    ensures
        suitable == device.suitable(),
{
    let indices = find_queue_families(device.queue_families.as_slice());
    let extensions_supported = check_device_extension_support(&device.supported_extensions);
    let swap_chain_adequate = if extensions_supported {
        device.capabilities.supported_formats.len() > 0 && device.capabilities.present_modes.is_any()
    } else {
        false
    };
    indices.is_complete() && extensions_supported && swap_chain_adequate
}

/// The position of the first suitable device, or `None` where no device is suitable.
pub fn pick_physical_device(devices: &[PhysicalDeviceInfo]) -> (picked: Option<usize>)
    requires
        forall|i: int| 0 <= i < devices@.len() ==> (#[trigger] devices@[i]).wf(),
    ensures
        picked matches Some(index) ==> index < devices@.len() && devices@[index as int].suitable()
            && forall|i: int| 0 <= i < index ==> !(#[trigger] devices@[i]).suitable(),
        picked is None ==> forall|i: int|
            0 <= i < devices@.len() ==> !(#[trigger] devices@[i]).suitable(),
{
    let mut i: usize = 0;
    while i < devices.len()
        invariant
            i <= devices@.len(),
            forall|j: int| 0 <= j < devices@.len() ==> (#[trigger] devices@[j]).wf(),
            forall|j: int| 0 <= j < i ==> !(#[trigger] devices@[j]).suitable(),
        decreases devices@.len() - i,
    {
        if is_device_suitable(&devices[i]) {
            return Some(i);
        }
        i += 1;
    }
    None
}

} // verus!
