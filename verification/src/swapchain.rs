use crate::queue_family_indices::QueueFamilyIndices;
use vstd::prelude::*;

verus! {

/// Raw value of the 8-bit BGRA sRGB image format.
pub const FORMAT_B8G8R8A8_SRGB: i32 = 50;

/// Raw value of the sRGB non-linear color space.
pub const COLOR_SPACE_SRGB_NONLINEAR: i32 = 0;

/// Raw value of the mailbox (low-latency triple buffering) present mode.
pub const PRESENT_MODE_MAILBOX: i32 = 1;

/// Raw value of the first-in first-out present mode, which every surface offers.
pub const PRESENT_MODE_FIFO: i32 = 2;

/// Width by which a surface says that its current extent is not defined.
pub const UNDEFINED_EXTENT: u32 = 0xFFFF_FFFF;

/// Image usage bit: the images are drawn to as color attachments.
pub const IMAGE_USAGE_COLOR_ATTACHMENT: u32 = 0x10;

/// Composite alpha bit: the window is opaque.
pub const COMPOSITE_ALPHA_OPAQUE: u32 = 0x1;

/// A surface format: an image format with a color space, both as raw values.
#[derive(Clone, Copy, Debug, PartialEq, Eq, Structural)]
pub struct SurfaceFormat {
    pub format: i32,
    pub color_space: i32,
}

/// A width and a height in pixels.
#[derive(Clone, Copy, Debug, PartialEq, Eq, Structural)]
pub struct Extent2D {
    pub width: u32,
    pub height: u32,
}

/// What a surface reports of the swapchains it can carry.
#[derive(Clone, Copy, Debug, PartialEq, Eq, Structural)]
pub struct SurfaceCapabilities {
    pub min_image_count: u32,
    /// Zero when the number of images is not bounded.
    pub max_image_count: u32,
    pub current_extent: Extent2D,
    pub min_image_extent: Extent2D,
    pub max_image_extent: Extent2D,
    /// The bit of the transform that the surface applies at present.
    pub current_transform: u32,
}

/// The capabilities, formats and present modes of one device on one surface.
#[derive(Clone, Debug)]
pub struct SupportDetails {
    pub capabilities: SurfaceCapabilities,
    pub formats: Vec<SurfaceFormat>,
    pub present_modes: Vec<i32>,
}

/// The format, present mode and extent picked for a swapchain.
#[derive(Clone, Copy, Debug, PartialEq, Eq, Structural)]
pub struct SwapchainProperties {
    pub surface_format: SurfaceFormat,
    pub present_mode: i32,
    pub extent: Extent2D,
}

/// How the swapchain images are shared between queue families.
#[derive(Clone, Copy, Debug, PartialEq, Eq, Structural)]
pub enum SharingMode {
    Exclusive,
    Concurrent,
}

/// Everything that is decided before a swapchain is created.
#[derive(Clone, Debug)]
pub struct SwapchainPlan {
    pub properties: SwapchainProperties,
    pub image_count: u32,
    pub image_array_layers: u32,
    pub image_usage: u32,
    pub sharing_mode: SharingMode,
    /// The families that share the images: empty when the sharing is exclusive.
    pub queue_family_indices: Vec<u32>,
    pub pre_transform: u32,
    pub composite_alpha: u32,
    /// Pixels that are hidden need not be drawn.
    pub clipped: bool,
    /// The swapchain that this one replaces, as a hint; none at the start.
    pub old_swapchain: Option<u64>,
}

/// The surface format that is taken whenever the surface offers it.
pub open spec fn preferred_surface_format() -> SurfaceFormat {
    SurfaceFormat { format: FORMAT_B8G8R8A8_SRGB, color_space: COLOR_SPACE_SRGB_NONLINEAR }
}

/// The preferred format where it is offered, else the first one offered.
pub open spec fn ideal_surface_format(formats: Seq<SurfaceFormat>) -> SurfaceFormat
    recommends
        formats.len() > 0,
{
    if formats.contains(preferred_surface_format()) {
        preferred_surface_format()
    } else {
        formats[0]
    }
}

/// Mailbox where it is offered, else first-in first-out.
pub open spec fn ideal_present_mode(modes: Seq<i32>) -> i32 {
    if modes.contains(PRESENT_MODE_MAILBOX) {
        PRESENT_MODE_MAILBOX
    } else {
        PRESENT_MODE_FIFO
    }
}

/// `value`, moved into `[low, high]`.
pub open spec fn clamped(value: u32, low: u32, high: u32) -> u32
    recommends
        low <= high,
{
    if value < low {
        low
    } else if value > high {
        high
    } else {
        value
    }
}

impl Extent2D {
    /// Both sides lie between the sides of `low` and of `high`.
    pub open spec fn within(self, low: Extent2D, high: Extent2D) -> bool {
        &&& low.width <= self.width <= high.width
        &&& low.height <= self.height <= high.height
    }

    /// The extent covers no pixel.
    pub open spec fn spec_is_empty(self) -> bool {
        self.width == 0 || self.height == 0
    }

    /// The extent covers no pixel, as that of a minimized window.
    #[verifier::when_used_as_spec(spec_is_empty)]
    pub fn is_empty(self) -> (r: bool)
        ensures
            r == self.spec_is_empty(),
    {
        self.width == 0 || self.height == 0
    }
}

impl SurfaceCapabilities {
    /// The surface dictates the extent of its swapchains.
    pub open spec fn has_current_extent(self) -> bool {
        self.current_extent.width != UNDEFINED_EXTENT
    }

    /// The smallest extent is no larger than the largest.
    pub open spec fn bounds_ordered(self) -> bool {
        &&& self.min_image_extent.width <= self.max_image_extent.width
        &&& self.min_image_extent.height <= self.max_image_extent.height
    }

    /// The bounds are ordered, and a current extent, where there is one,
    /// lies within them.
    pub open spec fn consistent(self) -> bool {
        &&& self.bounds_ordered()
        &&& self.has_current_extent() ==> self.current_extent.within(
            self.min_image_extent,
            self.max_image_extent,
        )
    }

    /// The extent of a swapchain for a window of the given size: the
    /// current extent of the surface where it has one, else the window's
    /// size moved into the bounds.
    pub open spec fn ideal_extent(self, window_size: Extent2D) -> Extent2D {
        if self.has_current_extent() {
            self.current_extent
        } else {
            Extent2D {
                width: clamped(
                    window_size.width,
                    self.min_image_extent.width,
                    self.max_image_extent.width,
                ),
                height: clamped(
                    window_size.height,
                    self.min_image_extent.height,
                    self.max_image_extent.height,
                ),
            }
        }
    }

    /// One image more than the least the surface needs, but no more than
    /// the most it allows, where it names a most.
    pub open spec fn ideal_image_count(self) -> int {
        if self.max_image_count != 0 && self.min_image_count + 1 > self.max_image_count {
            self.max_image_count as int
        } else {
            self.min_image_count + 1
        }
    }

    /// The number of images to ask for.
    pub fn image_count(&self) -> (r: u32)
        requires
            self.max_image_count == 0 ==> self.min_image_count < u32::MAX,
        ensures
            r == self.ideal_image_count(),
    {
        if self.max_image_count != 0 && self.min_image_count >= self.max_image_count {
            self.max_image_count
        } else {
            self.min_image_count + 1
        }
    }
}

fn clamp(value: u32, low: u32, high: u32) -> (r: u32)
    ensures
        r == clamped(value, low, high),
{
    if value < low {
        low
    } else if value > high {
        high
    } else {
        value
    }
}

impl SupportDetails {
    /// Puts together what was asked of the surface.
    pub fn new(
        capabilities: SurfaceCapabilities,
        formats: Vec<SurfaceFormat>,
        present_modes: Vec<i32>,
    ) -> (r: Self)
        ensures
            r.capabilities == capabilities,
            r.formats == formats,
            r.present_modes == present_modes,
    {
        Self { capabilities, formats, present_modes }
    }

    /// A swapchain can be made: there is a format and a present mode.
    pub open spec fn spec_is_adequate(&self) -> bool {
        self.formats@.len() > 0 && self.present_modes@.len() > 0
    }

    /// A swapchain can be made: there is a format and a present mode.
    #[verifier::when_used_as_spec(spec_is_adequate)]
    pub fn is_adequate(&self) -> (r: bool)
        ensures
            r == self.spec_is_adequate(),
    {
        self.formats.len() > 0 && self.present_modes.len() > 0
    }

    /// The properties that `get_ideal_swapchain_properties` picks.
    pub open spec fn ideal_properties(&self, window_size: Extent2D) -> SwapchainProperties {
        SwapchainProperties {
            surface_format: ideal_surface_format(self.formats@),
            present_mode: ideal_present_mode(self.present_modes@),
            extent: self.capabilities.ideal_extent(window_size),
        }
    }

    /// Picks format, present mode and extent for a window of the given size.
    pub fn get_ideal_swapchain_properties(&self, window_size: &Extent2D) -> (r:
        SwapchainProperties)
        requires
            self.formats@.len() > 0,
            !self.capabilities.has_current_extent() ==> self.capabilities.bounds_ordered(),
        ensures
            r == self.ideal_properties(*window_size),
            self.capabilities.has_current_extent() ==> r.extent == self.capabilities.current_extent,
            self.capabilities.consistent() ==> r.extent.within(
                self.capabilities.min_image_extent,
                self.capabilities.max_image_extent,
            ),
    {
        let surface_format = Self::choose_swapchain_surface_format(&self.formats);
        let present_mode = Self::choose_swapchain_present_mode(&self.present_modes);
        let extent = Self::choose_swapchain_extent(self.capabilities, window_size);
        SwapchainProperties { surface_format, present_mode, extent }
    }

    /// The preferred surface format where it is offered, else the first.
    pub fn choose_swapchain_surface_format(available_formats: &Vec<SurfaceFormat>) -> (r:
        SurfaceFormat)
        requires
            available_formats@.len() > 0,
        ensures
            r == ideal_surface_format(available_formats@),
    {
        let mut i: usize = 0;
        while i < available_formats.len()
            invariant
                i <= available_formats@.len(),
                forall|j: int| 0 <= j < i ==> available_formats@[j] != preferred_surface_format(),
            decreases available_formats@.len() - i,
        {
            let format = available_formats[i];
            if format.format == FORMAT_B8G8R8A8_SRGB && format.color_space
                == COLOR_SPACE_SRGB_NONLINEAR {
                return format;
            }
            i += 1;
        }
        available_formats[0]
    }

    /// Mailbox where it is offered, else first-in first-out.
    pub fn choose_swapchain_present_mode(available_present_modes: &Vec<i32>) -> (r: i32)
        ensures
            r == ideal_present_mode(available_present_modes@),
    {
        let mut i: usize = 0;
        while i < available_present_modes.len()
            invariant
                i <= available_present_modes@.len(),
                forall|j: int| 0 <= j < i ==> available_present_modes@[j] != PRESENT_MODE_MAILBOX,
            decreases available_present_modes@.len() - i,
        {
            if available_present_modes[i] == PRESENT_MODE_MAILBOX {
                return PRESENT_MODE_MAILBOX;
            }
            i += 1;
        }
        PRESENT_MODE_FIFO
    }

    /// The surface's current extent where it has one, else the window's
    /// size moved into the surface's bounds.
    pub fn choose_swapchain_extent(capabilities: SurfaceCapabilities, window_size: &Extent2D) -> (r:
        Extent2D)
        requires
            !capabilities.has_current_extent() ==> capabilities.bounds_ordered(),
        ensures
            r == capabilities.ideal_extent(*window_size),
            capabilities.has_current_extent() ==> r == capabilities.current_extent,
            capabilities.consistent() ==> r.within(
                capabilities.min_image_extent,
                capabilities.max_image_extent,
            ),
    {
        if capabilities.current_extent.width != UNDEFINED_EXTENT {
            return capabilities.current_extent;
        }
        let min_extent = capabilities.min_image_extent;
        let max_extent = capabilities.max_image_extent;
        let width = clamp(window_size.width, min_extent.width, max_extent.width);
        let height = clamp(window_size.height, min_extent.height, max_extent.height);
        Extent2D { width, height }
    }

    /// Decides how the swapchain is made: its properties, the number of
    /// images, and which queue families share the images. With one family
    /// for drawing and presenting the sharing is exclusive; with two it is
    /// concurrent between the two. The images have one layer and are color
    /// attachments; the surface's transform is kept; the window is opaque
    /// and hidden pixels are left out. `old_swapchain` is handed on.
    pub fn plan_swapchain(
        &self,
        window_size: &Extent2D,
        queue_indices: &QueueFamilyIndices,
        old_swapchain: Option<u64>,
    ) -> (r: SwapchainPlan)
        requires
            self.formats@.len() > 0,
            !self.capabilities.has_current_extent() ==> self.capabilities.bounds_ordered(),
            self.capabilities.max_image_count == 0 ==> self.capabilities.min_image_count
                < u32::MAX,
            queue_indices.is_complete(),
        ensures
            r.properties == self.ideal_properties(*window_size),
            r.image_count == self.capabilities.ideal_image_count(),
            r.image_array_layers == 1,
            r.image_usage == IMAGE_USAGE_COLOR_ATTACHMENT,
            r.sharing_mode == sharing_of(*queue_indices),
            r.queue_family_indices@ == sharing_families(*queue_indices),
            r.pre_transform == self.capabilities.current_transform,
            r.composite_alpha == COMPOSITE_ALPHA_OPAQUE,
            r.clipped,
            r.old_swapchain == old_swapchain,
    {
        let properties = self.get_ideal_swapchain_properties(window_size);
        let image_count = self.capabilities.image_count();
        let graphics_index = queue_indices.graphics_family.unwrap();
        let present_index = queue_indices.present_family.unwrap();
        let mut queue_family_indices: Vec<u32> = Vec::new();
        let sharing_mode = if graphics_index == present_index {
            SharingMode::Exclusive
        } else {
            queue_family_indices.push(graphics_index);
            queue_family_indices.push(present_index);
            SharingMode::Concurrent
        };
        SwapchainPlan {
            properties,
            image_count,
            image_array_layers: 1,
            image_usage: IMAGE_USAGE_COLOR_ATTACHMENT,
            sharing_mode,
            queue_family_indices,
            pre_transform: self.capabilities.current_transform,
            composite_alpha: COMPOSITE_ALPHA_OPAQUE,
            clipped: true,
            old_swapchain,
        }
    }
}

/// One family for drawing and presenting has the images to itself; two share them.
pub open spec fn sharing_of(queue_indices: QueueFamilyIndices) -> SharingMode
    recommends
        queue_indices.is_complete(),
{
    if queue_indices.graphics_family->Some_0 == queue_indices.present_family->Some_0 {
        SharingMode::Exclusive
    } else {
        SharingMode::Concurrent
    }
}

/// The families that share the images: the graphics and the present
/// family where they differ, none where they are one.
pub open spec fn sharing_families(queue_indices: QueueFamilyIndices) -> Seq<u32>
    recommends
        queue_indices.is_complete(),
{
    if queue_indices.graphics_family->Some_0 == queue_indices.present_family->Some_0 {
        Seq::empty()
    } else {
        seq![queue_indices.graphics_family->Some_0, queue_indices.present_family->Some_0]
    }
}

/// Whatever the window's size, the extent picked lies within the bounds
/// that the surface reports, and it is the surface's current extent
/// whenever the surface has one.
pub proof fn lemma_extent_within_bounds(capabilities: SurfaceCapabilities, window_size: Extent2D)
    requires
        capabilities.consistent(),
    ensures
        capabilities.ideal_extent(window_size).within(
            capabilities.min_image_extent,
            capabilities.max_image_extent,
        ),
        capabilities.has_current_extent() ==> capabilities.ideal_extent(window_size)
            == capabilities.current_extent,
{
}

/// The number of images asked for is at least the surface's minimum
/// wherever the surface's own bounds are ordered, and never above a
/// maximum that the surface names.
pub proof fn lemma_image_count_within_bounds(capabilities: SurfaceCapabilities)
    requires
        capabilities.max_image_count != 0 ==> capabilities.min_image_count
            <= capabilities.max_image_count,
    ensures
        capabilities.min_image_count <= capabilities.ideal_image_count(),
        capabilities.max_image_count != 0 ==> capabilities.ideal_image_count()
            <= capabilities.max_image_count,
{
}

/// Making the swapchain twice for the same window size picks the same
/// format, present mode and extent, provided that the surface reports
/// the same formats, present modes and bounds both times, and as its
/// current extent the same again or the extent that was picked first.
pub proof fn lemma_recreation_idempotent(
    first: SupportDetails,
    second: SupportDetails,
    window_size: Extent2D,
)
    requires
        first.formats@ == second.formats@,
        first.present_modes@ == second.present_modes@,
        first.capabilities.min_image_extent == second.capabilities.min_image_extent,
        first.capabilities.max_image_extent == second.capabilities.max_image_extent,
        second.capabilities.current_extent == first.capabilities.current_extent
            || second.capabilities.current_extent == first.ideal_properties(window_size).extent,
    ensures
        first.ideal_properties(window_size) == second.ideal_properties(window_size),
{
}

} // verus!
