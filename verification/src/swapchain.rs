//! The choices made when a swapchain is created, and the state of a swapchain
//! as back buffers are acquired.
use vstd::prelude::*;
use crate::vk_values as vk;

verus! {

/// A surface format: a format and a color space.
#[derive(Clone, Copy, PartialEq, Eq, Structural, Debug)]
pub struct SurfaceFormat {
    pub format: i32,
    pub color_space: i32,
}

/// A width and a height.
#[derive(Clone, Copy, PartialEq, Eq, Structural, Debug)]
pub struct Extent2D {
    pub width: u32,
    pub height: u32,
}

/// What a surface supports.
#[derive(Clone, Copy, PartialEq, Eq, Structural, Debug)]
pub struct SurfaceCapabilities {
    pub min_image_count: u32,
    /// Zero where there is no limit.
    pub max_image_count: u32,
    /// `u32::MAX` in both where the swapchain decides.
    pub current_extent: Extent2D,
    pub min_image_extent: Extent2D,
    pub max_image_extent: Extent2D,
    pub supported_usage_flags: u32,
    pub supported_composite_alpha: u32,
}

/// Why a swapchain could not be made.
#[derive(Clone, Copy, PartialEq, Eq, Structural, Debug)]
pub enum SwapchainError {
    SurfaceLost,
    ZeroExtents,
}

/// The state of a swapchain.
#[derive(Clone, Copy, PartialEq, Eq, Structural, Debug)]
pub enum VkSwapchainState {
    Okay,
    Suboptimal,
    OutOfDate,
    Retired,
}

pub open spec fn min_u32(a: u32, b: u32) -> u32 {
    if a <= b { a } else { b }
}

pub open spec fn max_u32(a: u32, b: u32) -> u32 {
    if a >= b { a } else { b }
}

/// The extent of the swapchain images: the surface's where it has one, else
/// the preferred extent within the surface's limits.
pub open spec fn extent_for(capabilities: SurfaceCapabilities, preferred_width: u32, preferred_height: u32) -> (u32, u32) {
    if capabilities.current_extent.width != u32::MAX && capabilities.current_extent.height != u32::MAX {
        (capabilities.current_extent.width, capabilities.current_extent.height)
    } else {
        (
            min_u32(max_u32(preferred_width, capabilities.min_image_extent.width), capabilities.max_image_extent.width),
            min_u32(
                max_u32(preferred_height, capabilities.min_image_extent.height),
                capabilities.max_image_extent.height,
            ),
        )
    }
}

pub fn pick_extent(capabilities: &SurfaceCapabilities, preferred_width: u32, preferred_height: u32) -> (r: (u32, u32))
    ensures
        r == extent_for(*capabilities, preferred_width, preferred_height),
{
    if capabilities.current_extent.width != u32::MAX && capabilities.current_extent.height != u32::MAX {
        (capabilities.current_extent.width, capabilities.current_extent.height)
    } else {
        let w = if preferred_width >= capabilities.min_image_extent.width {
            preferred_width
        } else {
            capabilities.min_image_extent.width
        };
        let h = if preferred_height >= capabilities.min_image_extent.height {
            preferred_height
        } else {
            capabilities.min_image_extent.height
        };
        (
            if w <= capabilities.max_image_extent.width { w } else { capabilities.max_image_extent.width },
            if h <= capabilities.max_image_extent.height { h } else { capabilities.max_image_extent.height },
        )
    }
}

/// A surface format that the engine renders to: 8 bit BGRA or RGBA in sRGB.
pub open spec fn is_compatible_format(f: SurfaceFormat) -> bool {
    (f.format == vk::FORMAT_B8G8R8A8_UNORM && f.color_space == vk::COLOR_SPACE_SRGB_NONLINEAR) || (f.format
        == vk::FORMAT_R8G8B8A8_UNORM && f.color_space == vk::COLOR_SPACE_SRGB_NONLINEAR)
}

/// The surface leaves the format open: it reports one undefined format.
pub open spec fn format_is_free(formats: Seq<SurfaceFormat>) -> bool {
    formats.len() == 1 && formats[0].format == vk::FORMAT_UNDEFINED
}

/// The index of the first compatible format from `i` on.
pub open spec fn first_compatible_format(formats: Seq<SurfaceFormat>, i: int) -> Option<int>
    decreases formats.len() - i,
{
    if i < 0 || i >= formats.len() {
        None
    } else if is_compatible_format(formats[i]) {
        Some(i)
    } else {
        first_compatible_format(formats, i + 1)
    }
}

/// The surface offers a format the swapchain can use.
pub open spec fn has_usable_format(formats: Seq<SurfaceFormat>) -> bool {
    format_is_free(formats) || first_compatible_format(formats, 0) is Some
}

/// The format of the swapchain: 8 bit BGRA in sRGB where the surface leaves it
/// open, else the first format the engine renders to.
pub open spec fn format_for(formats: Seq<SurfaceFormat>) -> SurfaceFormat {
    if format_is_free(formats) {
        SurfaceFormat { format: vk::FORMAT_B8G8R8A8_UNORM, color_space: vk::COLOR_SPACE_SRGB_NONLINEAR }
    } else {
        formats[first_compatible_format(formats, 0)->0]
    }
}

pub fn pick_format(formats: &Vec<SurfaceFormat>) -> (r: SurfaceFormat)
    requires
        has_usable_format(formats@),
    ensures
        r == format_for(formats@),
        is_compatible_format(r),
{
    if formats.len() == 1 && formats[0].format == vk::FORMAT_UNDEFINED {
        return SurfaceFormat { format: vk::FORMAT_B8G8R8A8_UNORM, color_space: vk::COLOR_SPACE_SRGB_NONLINEAR };
    }
    let mut i: usize = 0;
    while i < formats.len()
        invariant
            i <= formats.len(),
            first_compatible_format(formats@, 0) is Some,
            first_compatible_format(formats@, 0) == first_compatible_format(formats@, i as int),
        decreases formats.len() - i,
    {
        let f = formats[i];
        if (f.format == vk::FORMAT_B8G8R8A8_UNORM && f.color_space == vk::COLOR_SPACE_SRGB_NONLINEAR) || (f.format
            == vk::FORMAT_R8G8B8A8_UNORM && f.color_space == vk::COLOR_SPACE_SRGB_NONLINEAR) {
            return f;
        }
        i = i + 1;
    }
    formats[0]
}

/// The number of swapchain images: one more than the surface's minimum, or the
/// preferred number if higher, within the surface's maximum.
pub open spec fn image_count_for(capabilities: SurfaceCapabilities, preferred: u32) -> u32 {
    let count = max_u32((capabilities.min_image_count + 1) as u32, preferred);
    if capabilities.max_image_count != 0 {
        min_u32(capabilities.max_image_count, count)
    } else {
        count
    }
}

pub fn pick_image_count(capabilities: &SurfaceCapabilities, preferred: u32) -> (r: u32)
    requires
        capabilities.min_image_count < u32::MAX,
    ensures
        r == image_count_for(*capabilities, preferred),
{
    let above_min = capabilities.min_image_count + 1;
    let mut image_count = if above_min >= preferred { above_min } else { preferred };
    if capabilities.max_image_count != 0 {
        image_count = if capabilities.max_image_count <= image_count {
            capabilities.max_image_count
        } else {
            image_count
        };
    }
    image_count
}

/// The present mode of the swapchain: without vsync immediate or else mailbox
/// where the surface offers them, FIFO otherwise.
pub open spec fn present_mode_for(vsync: bool, present_modes: Seq<i32>) -> i32 {
    if !vsync && present_modes.contains(vk::PRESENT_MODE_IMMEDIATE) {
        vk::PRESENT_MODE_IMMEDIATE
    } else if !vsync && present_modes.contains(vk::PRESENT_MODE_MAILBOX) {
        vk::PRESENT_MODE_MAILBOX
    } else {
        vk::PRESENT_MODE_FIFO
    }
}

fn contains_mode(present_modes: &Vec<i32>, mode: i32) -> (r: bool)
    ensures
        r == present_modes@.contains(mode),
{
    let mut i: usize = 0;
    while i < present_modes.len()
        invariant
            i <= present_modes.len(),
            forall|j: int| 0 <= j < i ==> present_modes@[j] != mode,
        decreases present_modes.len() - i,
    {
        if present_modes[i] == mode {
            return true;
        }
        i = i + 1;
    }
    false
}

/// Where the choice falls back to FIFO (vsync, or neither immediate nor
/// mailbox offered), the surface offers FIFO.
pub open spec fn present_mode_available(vsync: bool, present_modes: Seq<i32>) -> bool {
    (vsync || (!present_modes.contains(vk::PRESENT_MODE_IMMEDIATE) && !present_modes.contains(vk::PRESENT_MODE_MAILBOX)))
        ==> present_modes.contains(vk::PRESENT_MODE_FIFO)
}

/// Picks the present mode; where the choice falls back to FIFO, the surface
/// must offer it.
pub fn pick_present_mode(vsync: bool, present_modes: &Vec<i32>) -> (r: i32)
    requires
        present_mode_available(vsync, present_modes@),
    ensures
        r == present_mode_for(vsync, present_modes@),
        present_modes@.contains(r),
{
    if !vsync {
        if contains_mode(present_modes, vk::PRESENT_MODE_IMMEDIATE) {
            return vk::PRESENT_MODE_IMMEDIATE;
        }
        if contains_mode(present_modes, vk::PRESENT_MODE_MAILBOX) {
            return vk::PRESENT_MODE_MAILBOX;
        }
    }
    vk::PRESENT_MODE_FIFO
}

/// How the swapchain is made.
#[derive(Clone, Copy, PartialEq, Eq, Structural, Debug)]
pub struct SwapchainPlan {
    pub present_mode: i32,
    pub format: SurfaceFormat,
    pub width: u32,
    pub height: u32,
    pub image_count: u32,
    pub image_usage: u32,
    pub pre_transform: u32,
    pub composite_alpha: u32,
}

/// The number of images the engine asks for.
pub const PREFERRED_IMAGE_COUNT: u32 = 3u32;

/// The surface can be rendered to and stored into.
pub open spec fn surface_renderable(capabilities: SurfaceCapabilities) -> bool {
    &&& capabilities.supported_usage_flags & vk::IMAGE_USAGE_COLOR_ATTACHMENT == vk::IMAGE_USAGE_COLOR_ATTACHMENT
    &&& capabilities.supported_usage_flags & vk::IMAGE_USAGE_STORAGE == vk::IMAGE_USAGE_STORAGE
}

/// The swapchain for the surface: its present mode, format, extent and image
/// count as chosen above; its images are rendered to, stored into and copied
/// into; no transform; opaque where the surface allows it. A zero extent makes
/// no swapchain.
pub fn plan_swapchain(
    vsync: bool,
    width: u32,
    height: u32,
    present_modes: &Vec<i32>,
    capabilities: &SurfaceCapabilities,
    formats: &Vec<SurfaceFormat>,
) -> (r: Result<SwapchainPlan, SwapchainError>)
    requires
        present_mode_available(vsync, present_modes@),
        has_usable_format(formats@),
        capabilities.min_image_count < u32::MAX,
        extent_for(*capabilities, width, height).0 != 0 && extent_for(*capabilities, width, height).1 != 0
            ==> surface_renderable(*capabilities),
    ensures
        ({
            let (w, h) = extent_for(*capabilities, width, height);
            match r {
                Err(e) => e == SwapchainError::ZeroExtents && (w == 0 || h == 0),
                Ok(plan) => {
                    &&& w != 0 && h != 0
                    &&& plan.present_mode == present_mode_for(vsync, present_modes@)
                    &&& plan.format == format_for(formats@)
                    &&& plan.width == w
                    &&& plan.height == h
                    &&& plan.image_count == image_count_for(*capabilities, PREFERRED_IMAGE_COUNT)
                    &&& plan.image_usage == vk::IMAGE_USAGE_COLOR_ATTACHMENT | vk::IMAGE_USAGE_STORAGE
                        | vk::IMAGE_USAGE_TRANSFER_DST
                    &&& plan.pre_transform == vk::SURFACE_TRANSFORM_IDENTITY
                    &&& plan.composite_alpha == if capabilities.supported_composite_alpha
                        & vk::COMPOSITE_ALPHA_OPAQUE == vk::COMPOSITE_ALPHA_OPAQUE {
                        vk::COMPOSITE_ALPHA_OPAQUE
                    } else {
                        vk::COMPOSITE_ALPHA_INHERIT
                    }
                },
            }
        }),
{
    let present_mode = pick_present_mode(vsync, present_modes);
    let format = pick_format(formats);
    let (w, h) = pick_extent(capabilities, width, height);
    if w == 0 || h == 0 {
        return Err(SwapchainError::ZeroExtents);
    }
    let image_count = pick_image_count(capabilities, PREFERRED_IMAGE_COUNT);
    let composite_alpha = if capabilities.supported_composite_alpha & vk::COMPOSITE_ALPHA_OPAQUE
        == vk::COMPOSITE_ALPHA_OPAQUE {
        vk::COMPOSITE_ALPHA_OPAQUE
    } else {
        vk::COMPOSITE_ALPHA_INHERIT
    };
    Ok(
        SwapchainPlan {
            present_mode,
            format,
            width: w,
            height: h,
            image_count,
            image_usage: vk::IMAGE_USAGE_COLOR_ATTACHMENT | vk::IMAGE_USAGE_STORAGE | vk::IMAGE_USAGE_TRANSFER_DST,
            pre_transform: vk::SURFACE_TRANSFORM_IDENTITY,
            composite_alpha,
        },
    )
}

/// What acquiring a back buffer returned.
#[derive(Clone, Copy, PartialEq, Eq, Structural, Debug)]
pub enum AcquireOutcome {
    Acquired { image: u32, optimal: bool },
    SurfaceLost,
    OutOfDate,
}

/// The bookkeeping of a swapchain between acquiring and presenting images.
#[derive(Clone, Copy, PartialEq, Eq, Structural, Debug)]
pub struct SwapchainStatus {
    pub semaphore_index: u32,
    pub state: VkSwapchainState,
    pub acquired_image: u32,
    pub presented_image: u32,
    pub surface_lost: bool,
}

impl SwapchainStatus {
    /// A new swapchain: nothing acquired or presented yet.
    pub fn new() -> (r: Self)
        ensures
            r == (SwapchainStatus {
                semaphore_index: 0,
                state: VkSwapchainState::Okay,
                acquired_image: 0,
                presented_image: 0,
                surface_lost: false,
            }),
    {
        SwapchainStatus {
            semaphore_index: 0,
            state: VkSwapchainState::Okay,
            acquired_image: 0,
            presented_image: 0,
            surface_lost: false,
        }
    }

    /// The acquire semaphore for the next image: the semaphores are used in
    /// turn.
    pub fn next_acquire_semaphore(&mut self, semaphore_count: usize) -> (r: usize)
        requires
            semaphore_count > 0,
            old(self).semaphore_index < u32::MAX,
        ensures
            r == old(self).semaphore_index as int % semaphore_count as int,
            r < semaphore_count,
            final(self).semaphore_index == old(self).semaphore_index + 1,
            final(self).state == old(self).state,
            final(self).acquired_image == old(self).acquired_image,
            final(self).presented_image == old(self).presented_image,
            final(self).surface_lost == old(self).surface_lost,
    {
        let index = (self.semaphore_index as usize) % semaphore_count;
        self.semaphore_index = self.semaphore_index + 1;
        index
    }

    /// Takes in what acquiring an image returned: an acquired image becomes the
    /// current one; a lost surface retires the swapchain; an outdated
    /// swapchain is marked so.
    pub fn handle_acquire(&mut self, outcome: AcquireOutcome)
        ensures
            final(self).semaphore_index == old(self).semaphore_index,
            final(self).presented_image == old(self).presented_image,
            match outcome {
                AcquireOutcome::Acquired { image, .. } => {
                    &&& final(self).acquired_image == image
                    &&& final(self).state == old(self).state
                    &&& final(self).surface_lost == old(self).surface_lost
                },
                AcquireOutcome::SurfaceLost => {
                    &&& final(self).acquired_image == old(self).acquired_image
                    &&& final(self).state == VkSwapchainState::Retired
                    &&& final(self).surface_lost
                },
                AcquireOutcome::OutOfDate => {
                    &&& final(self).acquired_image == old(self).acquired_image
                    &&& final(self).state == VkSwapchainState::OutOfDate
                    &&& final(self).surface_lost == old(self).surface_lost
                },
            },
    {
        match outcome {
            AcquireOutcome::Acquired { image, .. } => {
                self.acquired_image = image;
            },
            AcquireOutcome::SurfaceLost => {
                self.surface_lost = true;
                self.state = VkSwapchainState::Retired;
            },
            AcquireOutcome::OutOfDate => {
                self.state = VkSwapchainState::OutOfDate;
            },
        }
    }

    pub fn set_presented_image(&mut self, presented_image_index: u32)
        ensures
            *final(self) == (SwapchainStatus { presented_image: presented_image_index, ..*old(self) }),
    {
        self.presented_image = presented_image_index;
    }

    pub fn set_state(&mut self, state: VkSwapchainState)
        ensures
            *final(self) == (SwapchainStatus { state, ..*old(self) }),
    {
        self.state = state;
    }

    pub fn state(&self) -> (r: VkSwapchainState)
        ensures
            r == self.state,
    {
        self.state
    }

    pub fn acquired_image(&self) -> (r: u32)
        ensures
            r == self.acquired_image,
    {
        self.acquired_image
    }

    /// Retires the swapchain for a new one and says which swapchain the new one
    /// replaces: the old one is retired first, so the new one replaces none.
    pub fn retire_for_recreation(&mut self, handle: u64) -> (r: Option<u64>)
        ensures
            *final(self) == (SwapchainStatus { state: VkSwapchainState::Retired, ..*old(self) }),
            r is None,
    {
        self.set_state(VkSwapchainState::Retired);
        if self.state() == VkSwapchainState::Retired {
            None
        } else {
            Some(handle)
        }
    }
}

/// The present mode of the presenter: FIFO, which every surface offers.
pub fn presenter_pick_present_mode(present_modes: &Vec<i32>) -> (r: i32)
    requires
        present_modes@.contains(vk::PRESENT_MODE_FIFO),
    ensures
        r == vk::PRESENT_MODE_FIFO,
{
    vk::PRESENT_MODE_FIFO
}

/// The format of the presenter: 8 bit BGRA in sRGB, which the surface must
/// offer unless it leaves the format open.
pub fn presenter_pick_format(formats: &Vec<SurfaceFormat>) -> (r: SurfaceFormat)
    requires
        format_is_free(formats@) || formats@.contains(
            SurfaceFormat { format: vk::FORMAT_B8G8R8A8_UNORM, color_space: vk::COLOR_SPACE_SRGB_NONLINEAR },
        ),
    ensures
        r == (SurfaceFormat { format: vk::FORMAT_B8G8R8A8_UNORM, color_space: vk::COLOR_SPACE_SRGB_NONLINEAR }),
{
    SurfaceFormat { format: vk::FORMAT_B8G8R8A8_UNORM, color_space: vk::COLOR_SPACE_SRGB_NONLINEAR }
}

/// The extent of the presenter: the surface's, which it must have.
pub fn presenter_pick_swap_extent(capabilities: &SurfaceCapabilities) -> (r: Extent2D)
    requires
        capabilities.current_extent.width != u32::MAX,
    ensures
        r == capabilities.current_extent,
{
    capabilities.current_extent
}

} // verus!
