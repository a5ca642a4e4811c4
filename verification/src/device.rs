//! Choosing a physical device and its queue families, and deciding what the
//! logical device is created with.

use crate::vk::{queue_compute, queue_graphics, queue_supports_compute, queue_supports_graphics};
use vstd::prelude::*;

verus! {

/// What the selection reads of one queue family: its capability bits, and
/// whether the target surface can be presented to from it.
#[derive(Debug, Copy, Clone, PartialEq, Eq)]
pub struct QueueFamily {
    pub queue_flags: u32,
    pub present_support: bool,
}

/// The baseline features that are enabled on the logical device exactly when
/// the physical device reports them.
#[derive(Debug, Copy, Clone, PartialEq, Eq)]
pub struct PhysicalDeviceFeatures {
    pub texture_compression_etc2: bool,
    pub texture_compression_bc: bool,
    pub sampler_anisotropy: bool,
    pub tessellation_shader: bool,
    pub shader_storage_image_extended_formats: bool,
    pub multi_draw_indirect: bool,
    pub multi_viewport: bool,
    pub depth_clamp: bool,
}

/// What the selection reads of one physical device. Queue families stand in
/// the order in which the device enumerates them: the position is the family
/// index.
#[derive(Debug)]
pub struct PhysicalDevice {
    pub queue_families: Vec<QueueFamily>,
    pub features: PhysicalDeviceFeatures,
}

/// Why no logical device came about.
#[derive(Debug, Copy, Clone, PartialEq, Eq)]
pub enum DeviceError {
    /// No device has a queue family that supports graphics and can present
    /// to the surface.
    NoSuitableDevice,
    /// The driver rejected the creation of the logical device, with this
    /// result code.
    DeviceCreation(i32),
}

/// The result of device selection: a device, by its position in the
/// enumeration, and the queue family to use for each kind of work.
#[derive(Debug, Copy, Clone, PartialEq, Eq)]
pub struct PhysicalDeviceChoice {
    pub physical_device: usize,
    pub graphics_queue_idx: u32,
    pub compute_queue_idx: u32,
    pub present_queue_idx: u32,
}

/// A device-level extension that the logical device is created with.
#[derive(Debug, Copy, Clone, PartialEq, Eq)]
pub enum DeviceExtension {
    Swapchain,
    DescriptorIndexing,
}

/// The features enabled on the logical device.
#[derive(Debug, Copy, Clone, PartialEq, Eq)]
pub struct DeviceFeatures {
    pub baseline: PhysicalDeviceFeatures,
    pub robust_image_access: bool,
    pub draw_indirect_count: bool,
    pub shader_sampled_image_array_non_uniform_indexing: bool,
    pub runtime_descriptor_array: bool,
    pub descriptor_binding_variable_descriptor_count: bool,
    pub descriptor_binding_partially_bound: bool,
    pub descriptor_binding_sampled_image_update_after_bind: bool,
    pub descriptor_indexing: bool,
    pub multiview: bool,
    pub multiview_geometry_shader: bool,
    pub multiview_tessellation_shader: bool,
}

/// Everything that is decided before the logical device is created.
#[derive(Debug)]
pub struct DeviceCreateInfo {
    pub choice: PhysicalDeviceChoice,
    /// One queue is requested from each of these families.
    pub queue_families: Vec<u32>,
    pub features: DeviceFeatures,
    pub extensions: Vec<DeviceExtension>,
}

/// The handles that the driver returns for a created logical device.
#[derive(Debug, Copy, Clone, PartialEq, Eq)]
pub struct DeviceHandles {
    pub device: u64,
    pub graphics_queue: u64,
    pub compute_queue: u64,
    pub present_queue: u64,
}

/// A created logical device: the physical device it was created on, the
/// queue family indices it was created with and the queue of each.
#[derive(Debug)]
pub struct ContextDevice {
    pub device: u64,
    pub physical_device: usize,
    pub graphics_queue_idx: u32,
    pub compute_queue_idx: u32,
    pub present_queue_idx: u32,
    pub graphics_queue: u64,
    pub compute_queue: u64,
    pub present_queue: u64,
}

/// Family `f` of device `d` can be selected: it exists, its index can be
/// named to the API, it supports graphics and it can present.
pub open spec fn suitable(devices: Seq<PhysicalDevice>, d: int, f: int) -> bool {
    &&& 0 <= d < devices.len()
    &&& 0 <= f < devices[d].queue_families@.len()
    &&& f <= u32::MAX
    &&& queue_graphics(devices[d].queue_families@[f].queue_flags)
    &&& devices[d].queue_families@[f].present_support
}

/// The order of the search: device by device, and within a device family by
/// family.
pub open spec fn searched_before(d1: int, f1: int, d2: int, f2: int) -> bool {
    d1 < d2 || (d1 == d2 && f1 < f2)
}

/// Family `f` can take compute work beside the graphics family `graphics`.
pub open spec fn separate_compute(families: Seq<QueueFamily>, graphics: u32, f: int) -> bool {
    &&& 0 <= f < families.len()
    &&& f <= u32::MAX
    &&& f != graphics
    &&& queue_compute(families[f].queue_flags)
}

/// The compute family that goes with a graphics family: the highest family
/// that is not the graphics family and supports compute, and the graphics
/// family itself where there is none.
pub open spec fn is_compute_index(families: Seq<QueueFamily>, graphics: u32, compute: u32) -> bool {
    if exists|f: int| separate_compute(families, graphics, f) {
        &&& separate_compute(families, graphics, compute as int)
        &&& forall|f: int| separate_compute(families, graphics, f) ==> f <= compute
    } else {
        compute == graphics
    }
}

/// `choice` is what selection arrives at on `devices`: the first family, in
/// the order of the search, that supports graphics and can present; the
/// compute family that goes with it on its device; and presentation on the
/// graphics family.
pub open spec fn is_selection(devices: Seq<PhysicalDevice>, choice: PhysicalDeviceChoice) -> bool {
    let d = choice.physical_device as int;
    &&& suitable(devices, d, choice.graphics_queue_idx as int)
    &&& forall|d2: int, f2: int|
        suitable(devices, d2, f2) ==> !searched_before(d2, f2, d, choice.graphics_queue_idx as int)
    &&& choice.present_queue_idx == choice.graphics_queue_idx
    &&& is_compute_index(
        devices[d].queue_families@,
        choice.graphics_queue_idx,
        choice.compute_queue_idx,
    )
}

/// The families that a queue is requested from: the graphics family, then
/// the compute family and the present family where they are families of
/// their own. No family stands twice.
pub open spec fn distinct_families(choice: PhysicalDeviceChoice) -> Seq<u32> {
    let g = choice.graphics_queue_idx;
    let c = choice.compute_queue_idx;
    let p = choice.present_queue_idx;
    let with_compute = if c != g {
        seq![g, c]
    } else {
        seq![g]
    };
    if p != g && p != c {
        with_compute.push(p)
    } else {
        with_compute
    }
}

/// The features that every logical device is created with, beside the
/// baseline features `reported` by its physical device.
pub open spec fn required_features(reported: PhysicalDeviceFeatures) -> DeviceFeatures {
    DeviceFeatures {
        baseline: reported,
        robust_image_access: true,
        draw_indirect_count: true,
        shader_sampled_image_array_non_uniform_indexing: true,
        runtime_descriptor_array: true,
        descriptor_binding_variable_descriptor_count: true,
        descriptor_binding_partially_bound: true,
        descriptor_binding_sampled_image_update_after_bind: true,
        descriptor_indexing: true,
        multiview: true,
        multiview_geometry_shader: true,
        multiview_tessellation_shader: true,
    }
}

/// The extensions that every logical device is created with.
pub open spec fn required_extensions() -> Seq<DeviceExtension> {
    seq![DeviceExtension::Swapchain, DeviceExtension::DescriptorIndexing]
}

/// The first family of one device that supports graphics and can present.
fn find_queue_family(families: &Vec<QueueFamily>) -> (found: Option<u32>)
    ensures
        match found {
            Some(f) => {
                &&& f < families@.len()
                &&& queue_graphics(families@[f as int].queue_flags)
                &&& families@[f as int].present_support
                &&& forall|k: int|
                    0 <= k < f ==> !(queue_graphics(families@[k].queue_flags)
                        && families@[k].present_support)
            },
            None => forall|k: int|
                0 <= k < families@.len() && k <= u32::MAX ==> !(queue_graphics(
                    families@[k].queue_flags,
                ) && families@[k].present_support),
        },
{
    let mut idx: usize = 0;
    while idx < families.len() && idx <= u32::MAX as usize
        invariant
            idx <= families@.len(),
            forall|k: int|
                0 <= k < idx ==> !(queue_graphics(families@[k].queue_flags)
                    && families@[k].present_support),
        decreases families@.len() - idx,
    {
        let family = &families[idx];
        if queue_supports_graphics(family.queue_flags) && family.present_support {
            return Some(idx as u32);
        }
        idx += 1;
    }
    None
}

/// Finds the physical device to use and its graphics family.
///
/// Devices are searched in order, and the families of each in order; the
/// first family that supports graphics and can present to the surface wins.
/// A device whose graphics and presentation support lie in different
/// families is passed over.
pub fn find_physical_device(devices: &Vec<PhysicalDevice>) -> (found: Result<
    (usize, u32),
    DeviceError,
>)
    ensures
        match found {
            Ok((d, f)) => {
                &&& suitable(devices@, d as int, f as int)
                &&& forall|d2: int, f2: int|
                    suitable(devices@, d2, f2) ==> !searched_before(d2, f2, d as int, f as int)
            },
            Err(e) => {
                &&& e == DeviceError::NoSuitableDevice
                &&& forall|d2: int, f2: int| !suitable(devices@, d2, f2)
            },
        },
{
    let mut d: usize = 0;
    while d < devices.len()
        invariant
            d <= devices@.len(),
            forall|d2: int, f2: int| 0 <= d2 < d ==> !suitable(devices@, d2, f2),
        decreases devices@.len() - d,
    {
        match find_queue_family(&devices[d].queue_families) {
            Some(f) => {
                return Ok((d, f));
            },
            None => {},
        }
        d += 1;
    }
    Err(DeviceError::NoSuitableDevice)
}

/// Resolves the queue family of each kind of work on the chosen device.
///
/// Graphics work goes to `queue_family_idx`. Compute work goes to the last
/// other family that supports compute, and to the graphics family where the
/// device has none. Presentation shares the graphics family: selection only
/// accepts a family that can do both.
pub fn create_queue_indices(families: &Vec<QueueFamily>, queue_family_idx: u32) -> (indices: (
    u32,
    u32,
    u32,
))
    ensures
        indices.0 == queue_family_idx,
        indices.2 == queue_family_idx,
        is_compute_index(families@, queue_family_idx, indices.1),
{
    let graphics_queue_idx = queue_family_idx;
    let mut compute_queue_idx = graphics_queue_idx;
    let present_queue_idx = graphics_queue_idx;

    let mut idx: usize = 0;
    while idx < families.len() && idx <= u32::MAX as usize
        invariant
            idx <= families@.len(),
            idx <= u32::MAX + 1,
            graphics_queue_idx == queue_family_idx,
            if exists|f: int| f < idx && separate_compute(families@, graphics_queue_idx, f) {
                &&& compute_queue_idx < idx
                &&& separate_compute(families@, graphics_queue_idx, compute_queue_idx as int)
                &&& forall|f: int|
                    f < idx && separate_compute(families@, graphics_queue_idx, f) ==> f
                        <= compute_queue_idx
            } else {
                compute_queue_idx == graphics_queue_idx
            },
        decreases families@.len() - idx,
    {
        if queue_supports_compute(families[idx].queue_flags) && idx != graphics_queue_idx as usize {
            assert(separate_compute(families@, graphics_queue_idx, idx as int));
            compute_queue_idx = idx as u32;
        }
        idx += 1;
    }
    (graphics_queue_idx, compute_queue_idx, present_queue_idx)
}

/// Selects the physical device and the queue family of each kind of work.
///
/// Fails exactly when no device has a family that supports graphics and can
/// present. Nothing is retried.
pub fn select_physical_device(devices: &Vec<PhysicalDevice>) -> (selected: Result<
    PhysicalDeviceChoice,
    DeviceError,
>)
    ensures
        match selected {
            Ok(choice) => is_selection(devices@, choice),
            Err(e) => {
                &&& e == DeviceError::NoSuitableDevice
                &&& forall|d2: int, f2: int| !suitable(devices@, d2, f2)
            },
        },
{
    match find_physical_device(devices) {
        Ok((physical_device, queue_family_idx)) => {
            let (graphics_queue_idx, compute_queue_idx, present_queue_idx) = create_queue_indices(
                &devices[physical_device].queue_families,
                queue_family_idx,
            );
            Ok(
                PhysicalDeviceChoice {
                    physical_device,
                    graphics_queue_idx,
                    compute_queue_idx,
                    present_queue_idx,
                },
            )
        },
        Err(e) => Err(e),
    }
}

impl PhysicalDeviceChoice {
    /// The families that one queue each is requested from when the logical
    /// device is created: between one and three, none of them twice.
    pub fn queue_families(&self) -> (families: Vec<u32>)
        ensures
            families@ == distinct_families(*self),
    {
        let mut families: Vec<u32> = Vec::new();
        // A graphics queue is mandatory - presentation and compute queues that differ
        // from the graphics queue depend on the device.
        families.push(self.graphics_queue_idx);
        if self.graphics_queue_idx != self.compute_queue_idx {
            families.push(self.compute_queue_idx);
        }
        if self.graphics_queue_idx != self.present_queue_idx && self.compute_queue_idx
            != self.present_queue_idx {
            families.push(self.present_queue_idx);
        }
        families
    }
}

impl DeviceFeatures {
    /// The feature set of a logical device on a physical device that
    /// reports the baseline features `reported`.
    pub fn new(reported: &PhysicalDeviceFeatures) -> (features: DeviceFeatures)
        ensures
            features == required_features(*reported),
    {
        DeviceFeatures {
            baseline: *reported,
            robust_image_access: true,
            draw_indirect_count: true,
            shader_sampled_image_array_non_uniform_indexing: true,
            runtime_descriptor_array: true,
            descriptor_binding_variable_descriptor_count: true,
            descriptor_binding_partially_bound: true,
            descriptor_binding_sampled_image_update_after_bind: true,
            descriptor_indexing: true,
            multiview: true,
            multiview_geometry_shader: true,
            multiview_tessellation_shader: true,
        }
    }
}

impl DeviceCreateInfo {
    /// Decides what the logical device is created on and with.
    ///
    /// The device and its queue families are selected as
    /// [`select_physical_device`] says. One queue is requested from each
    /// distinct family; the features are the required set together with the
    /// baseline features that the selected device reports; the extensions
    /// are swapchain support and descriptor indexing.
    pub fn new(devices: &Vec<PhysicalDevice>) -> (info: Result<DeviceCreateInfo, DeviceError>)
        ensures
            match info {
                Ok(info) => {
                    &&& is_selection(devices@, info.choice)
                    &&& info.queue_families@ == distinct_families(info.choice)
                    &&& info.features == required_features(
                        devices@[info.choice.physical_device as int].features,
                    )
                    &&& info.extensions@ == required_extensions()
                },
                Err(e) => {
                    &&& e == DeviceError::NoSuitableDevice
                    &&& forall|d2: int, f2: int| !suitable(devices@, d2, f2)
                },
            },
    {
        let choice = match select_physical_device(devices) {
            Ok(choice) => choice,
            Err(e) => {
                return Err(e);
            },
        };
        let queue_families = choice.queue_families();
        let features = DeviceFeatures::new(&devices[choice.physical_device].features);
        let mut extensions: Vec<DeviceExtension> = Vec::new();
        extensions.push(DeviceExtension::Swapchain);
        extensions.push(DeviceExtension::DescriptorIndexing);
        Ok(DeviceCreateInfo { choice, queue_families, features, extensions })
    }
}

impl ContextDevice {
    /// Takes up the outcome of creating the logical device that `info`
    /// describes.
    ///
    /// A rejection by the driver becomes [`DeviceError::DeviceCreation`] with
    /// the driver's result code. Otherwise the device keeps the returned
    /// handles beside the selection it was created from.
    pub fn new(info: &DeviceCreateInfo, created: Result<DeviceHandles, i32>) -> (device: Result<
        ContextDevice,
        DeviceError,
    >)
        ensures
            match created {
                Ok(handles) => device matches Ok(dev) && {
                    &&& dev.device == handles.device
                    &&& dev.graphics_queue == handles.graphics_queue
                    &&& dev.compute_queue == handles.compute_queue
                    &&& dev.present_queue == handles.present_queue
                    &&& dev.physical_device == info.choice.physical_device
                    &&& dev.graphics_queue_idx == info.choice.graphics_queue_idx
                    &&& dev.compute_queue_idx == info.choice.compute_queue_idx
                    &&& dev.present_queue_idx == info.choice.present_queue_idx
                },
                Err(code) => device matches Err(e) && e == DeviceError::DeviceCreation(code),
            },
    {
        match created {
            Ok(handles) => Ok(
                ContextDevice {
                    device: handles.device,
                    physical_device: info.choice.physical_device,
                    graphics_queue_idx: info.choice.graphics_queue_idx,
                    compute_queue_idx: info.choice.compute_queue_idx,
                    present_queue_idx: info.choice.present_queue_idx,
                    graphics_queue: handles.graphics_queue,
                    compute_queue: handles.compute_queue,
                    present_queue: handles.present_queue,
                },
            ),
            Err(code) => Err(DeviceError::DeviceCreation(code)),
        }
    }
}

/// The queue request of any selection names between one and three families,
/// names none of them twice, starts with the graphics family and covers the
/// family of each kind of work.
pub proof fn lemma_distinct_families(choice: PhysicalDeviceChoice)
    ensures
        1 <= distinct_families(choice).len() <= 3,
        distinct_families(choice).no_duplicates(),
        distinct_families(choice)[0] == choice.graphics_queue_idx,
        distinct_families(choice).contains(choice.graphics_queue_idx),
        distinct_families(choice).contains(choice.compute_queue_idx),
        distinct_families(choice).contains(choice.present_queue_idx),
        forall|f: u32|
            distinct_families(choice).contains(f) ==> f == choice.graphics_queue_idx || f
                == choice.compute_queue_idx || f == choice.present_queue_idx,
{
    let families = distinct_families(choice);
    let g = choice.graphics_queue_idx;
    let c = choice.compute_queue_idx;
    let p = choice.present_queue_idx;
    assert(families[0] == g);
    if c != g {
        assert(families[1] == c);
        if p != g && p != c {
            assert(families[2] == p);
        }
    } else if p != g {
        assert(families[1] == p);
    }
}

/// A device whose families share all work leads to a request for one queue.
pub proof fn lemma_shared_family_is_requested_once(choice: PhysicalDeviceChoice)
    requires
        choice.compute_queue_idx == choice.graphics_queue_idx,
        choice.present_queue_idx == choice.graphics_queue_idx,
    ensures
        distinct_families(choice) == seq![choice.graphics_queue_idx],
{
}

/// The compute family of a device is determined by its families and the
/// graphics family: no two indices both answer the description.
pub proof fn lemma_compute_index_unique(
    families: Seq<QueueFamily>,
    graphics: u32,
    first: u32,
    second: u32,
)
    requires
        is_compute_index(families, graphics, first),
        is_compute_index(families, graphics, second),
    ensures
        first == second,
{
}

/// Selection has one answer: two choices that both answer the description
/// are the same choice.
pub proof fn lemma_selection_unique(
    devices: Seq<PhysicalDevice>,
    first: PhysicalDeviceChoice,
    second: PhysicalDeviceChoice,
)
    requires
        is_selection(devices, first),
        is_selection(devices, second),
    ensures
        first == second,
{
    lemma_first_suitable_unique(
        devices,
        first.physical_device as int,
        first.graphics_queue_idx as int,
        second.physical_device as int,
        second.graphics_queue_idx as int,
    );
}

/// A selection never names a separate present family, and names a separate
/// compute family exactly when the device has a family other than the
/// graphics family that supports compute.
pub proof fn lemma_selection_shares_present(
    devices: Seq<PhysicalDevice>,
    choice: PhysicalDeviceChoice,
)
    requires
        is_selection(devices, choice),
    ensures
        choice.present_queue_idx == choice.graphics_queue_idx,
        choice.compute_queue_idx != choice.graphics_queue_idx <==> exists|f: int|
            separate_compute(
                devices[choice.physical_device as int].queue_families@,
                choice.graphics_queue_idx,
                f,
            ),
        1 <= distinct_families(choice).len() <= 2,
{
}

/// The search has one answer: two families that both come first among the
/// suitable ones are the same family of the same device.
pub proof fn lemma_first_suitable_unique(
    devices: Seq<PhysicalDevice>,
    d1: int,
    f1: int,
    d2: int,
    f2: int,
)
    requires
        suitable(devices, d1, f1),
        suitable(devices, d2, f2),
        forall|d: int, f: int| suitable(devices, d, f) ==> !searched_before(d, f, d1, f1),
        forall|d: int, f: int| suitable(devices, d, f) ==> !searched_before(d, f, d2, f2),
    ensures
        d1 == d2,
        f1 == f2,
{
}

} // verus!
