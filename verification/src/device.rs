use crate::driver::swapchain_extension;
use crate::extensions::check_device_extension_support;
use crate::queue_family_indices::{
    has_graphics_family, has_present_family, is_scan_of, lemma_scan_unique, QueueFamily,
    QueueFamilyIndices,
};
use crate::swapchain::SupportDetails;
use vstd::prelude::*;

verus! {

/// What a discrete GPU adds to its score.
pub const DISCRETE_GPU_BONUS: u64 = 1000;

/// What an integrated GPU adds to its score.
pub const INTEGRATED_GPU_BONUS: u64 = 100;

/// The class of a physical device.
#[derive(Clone, Copy, Debug, PartialEq, Eq, Structural)]
pub enum DeviceType {
    DiscreteGpu,
    IntegratedGpu,
    Other,
}

/// What the selection reads of one physical device, for one surface.
#[derive(Clone, Debug)]
pub struct PhysicalDeviceInfo {
    pub device_type: DeviceType,
    /// The largest side of a 2D image that the device takes.
    pub max_image_dimension2_d: u32,
    pub queue_families: Vec<QueueFamily>,
    /// The names of the device's extensions.
    pub extensions: Vec<String>,
    /// What the surface offers with this device; empty for a device
    /// without the swapchain extension, of which it cannot be asked.
    pub swapchain_support: SupportDetails,
}

/// The device that was selected, with the queue families to use on it.
#[derive(Clone, Copy, Debug, PartialEq, Eq, Structural)]
pub struct SelectedDevice {
    /// The device's place in the enumeration.
    pub index: usize,
    pub score: u64,
    pub queue_family_indices: QueueFamilyIndices,
}

impl DeviceType {
    /// What the class adds to a device's score.
    pub open spec fn bonus(self) -> nat {
        match self {
            DeviceType::DiscreteGpu => DISCRETE_GPU_BONUS as nat,
            DeviceType::IntegratedGpu => INTEGRATED_GPU_BONUS as nat,
            DeviceType::Other => 0,
        }
    }
}

impl PhysicalDeviceInfo {
    /// The device can draw and present to the surface: it has a queue
    /// family for each, the swapchain extension, and the surface offers
    /// at least one format and one present mode.
    pub open spec fn is_suitable(&self) -> bool {
        &&& has_graphics_family(self.queue_families@)
        &&& has_present_family(self.queue_families@)
        &&& self.extensions.deep_view().contains(swapchain_extension())
        &&& self.swapchain_support.formats@.len() > 0
        &&& self.swapchain_support.present_modes@.len() > 0
    }

    /// Zero for a device that is not suitable; for one that is, the bonus
    /// of its class and the largest image side it takes, added.
    pub open spec fn score(&self) -> nat {
        if self.is_suitable() {
            self.device_type.bonus() + self.max_image_dimension2_d as nat
        } else {
            0
        }
    }
}

/// The device at `index` has the highest score of all, a score above
/// zero, and no device before it has as high a score.
pub open spec fn is_best_device(devices: Seq<PhysicalDeviceInfo>, index: int) -> bool {
    &&& 0 <= index < devices.len()
    &&& devices[index].score() > 0
    &&& forall|j: int| 0 <= j < devices.len() ==> (#[trigger] devices[j]).score() <= devices[index].score()
    &&& forall|j: int| 0 <= j < index ==> (#[trigger] devices[j]).score() < devices[index].score()
}

/// `selected` names the best device, with its score and with the queue
/// families that a scan of its families finds.
pub open spec fn is_selection_of(devices: Seq<PhysicalDeviceInfo>, selected: SelectedDevice) -> bool {
    &&& is_best_device(devices, selected.index as int)
    &&& selected.score == devices[selected.index as int].score()
    &&& selected.queue_family_indices.is_complete()
    &&& is_scan_of(devices[selected.index as int].queue_families@, selected.queue_family_indices)
}

/// No device scores above zero.
pub open spec fn none_scores(devices: Seq<PhysicalDeviceInfo>) -> bool {
    forall|j: int| 0 <= j < devices.len() ==> (#[trigger] devices[j]).score() == 0
}

/// Rates one device. A device that is not suitable rates zero and gets
/// no queue families.
pub fn rate_physical_device(device: &PhysicalDeviceInfo) -> (r: (u64, Option<QueueFamilyIndices>))
    requires
        device.queue_families@.len() <= u32::MAX,
    ensures
        r.0 == device.score(),
        r.1 is Some <==> device.is_suitable(),
        r.1 is Some ==> is_scan_of(device.queue_families@, r.1->Some_0) && r.1->Some_0.is_complete(),
{
    let indices = QueueFamilyIndices::find_queue_families(&device.queue_families);
    if !indices.is_complete() {
        return (0, None);
    }
    let device_extension_support = check_device_extension_support(&device.extensions);
    if !device_extension_support {
        return (0, None);
    }
    if !device.swapchain_support.is_adequate() {
        return (0, None);
    }
    let mut score: u64 = 0;
    match device.device_type {
        DeviceType::DiscreteGpu => {
            score += DISCRETE_GPU_BONUS;
        },
        DeviceType::IntegratedGpu => {
            score += INTEGRATED_GPU_BONUS;
        },
        DeviceType::Other => {},
    }
    score += device.max_image_dimension2_d as u64;
    (score, Some(indices))
}

/// The device with the highest score, the first of them where several
/// have it; none exactly when no device scores above zero.
fn best_device(devices: &Vec<PhysicalDeviceInfo>) -> (r: Option<SelectedDevice>)
    requires
        forall|j: int|
            0 <= j < devices@.len() ==> (#[trigger] devices@[j]).queue_families@.len() <= u32::MAX,
    ensures
        r is None <==> none_scores(devices@),
        r is Some ==> is_selection_of(devices@, r->Some_0),
{
    let mut best: Option<SelectedDevice> = None;
    let mut max_score: u64 = 0;
    let mut idx: usize = 0;
    while idx < devices.len()
        invariant
            idx <= devices@.len(),
            forall|j: int|
                0 <= j < devices@.len() ==> (#[trigger] devices@[j]).queue_families@.len()
                    <= u32::MAX,
            forall|j: int| 0 <= j < idx ==> (#[trigger] devices@[j]).score() <= max_score,
            best is None <==> max_score == 0,
            best is Some ==> {
                let selected = best->Some_0;
                &&& selected.index < idx
                &&& selected.score == max_score
                &&& max_score == devices@[selected.index as int].score()
                &&& forall|j: int|
                    0 <= j < selected.index ==> (#[trigger] devices@[j]).score() < max_score
                &&& selected.queue_family_indices.is_complete()
                &&& is_scan_of(
                    devices@[selected.index as int].queue_families@,
                    selected.queue_family_indices,
                )
            },
        decreases devices@.len() - idx,
    {
        let (score, indices) = rate_physical_device(&devices[idx]);
        if score > max_score {
            if let Some(queue_family_indices) = indices {
                max_score = score;
                best = Some(SelectedDevice { index: idx, score, queue_family_indices });
            }
        }
        idx += 1;
    }
    best
}

/// Whether a device can be selected: whether some device scores above zero.
pub fn any_device_scores(devices: &Vec<PhysicalDeviceInfo>) -> (r: bool)
    requires
        forall|j: int|
            0 <= j < devices@.len() ==> (#[trigger] devices@[j]).queue_families@.len() <= u32::MAX,
    ensures
        r == !none_scores(devices@),
{
    best_device(devices).is_some()
}

/// Selects the device with the highest score, the first of them where
/// several have it. It never selects a device that scores zero: where no
/// device scores above zero there is nothing to select, and the caller
/// has to find that out before, with `any_device_scores`.
pub fn select_physical_device(devices: &Vec<PhysicalDeviceInfo>) -> (r: SelectedDevice)
    requires
        forall|j: int|
            0 <= j < devices@.len() ==> (#[trigger] devices@[j]).queue_families@.len() <= u32::MAX,
        !none_scores(devices@),
    ensures
        is_selection_of(devices@, r),
        devices@[r.index as int].score() > 0,
{
    best_device(devices).unwrap()
}

/// Whenever some device scores above zero, a device is selected, and it
/// is one that scores above zero and as high as any.
pub proof fn lemma_best_device_exists(devices: Seq<PhysicalDeviceInfo>) -> (index: int)
    requires
        !none_scores(devices),
    ensures
        is_best_device(devices, index),
    decreases devices.len(),
{
    let last = devices.len() - 1;
    let front = devices.drop_last();
    assert(forall|j: int| 0 <= j < front.len() ==> front[j] == devices[j]);
    if none_scores(front) {
        last
    } else {
        let before = lemma_best_device_exists(front);
        if devices[last].score() > devices[before].score() {
            last
        } else {
            before
        }
    }
}

/// The selection is determined: the device, its score and its queue
/// families are the same whenever the devices are.
pub proof fn lemma_selection_determined(
    devices: Seq<PhysicalDeviceInfo>,
    first: SelectedDevice,
    second: SelectedDevice,
)
    requires
        is_selection_of(devices, first),
        is_selection_of(devices, second),
    ensures
        first == second,
{
    lemma_best_device_unique(devices, first.index as int, second.index as int);
    lemma_scan_unique(
        devices[first.index as int].queue_families@,
        first.queue_family_indices,
        second.queue_family_indices,
    );
}

/// Only one device is the best.
pub proof fn lemma_best_device_unique(devices: Seq<PhysicalDeviceInfo>, first: int, second: int)
    requires
        is_best_device(devices, first),
        is_best_device(devices, second),
    ensures
        first == second,
{
}

} // verus!
