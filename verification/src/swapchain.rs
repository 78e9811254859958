//! The per-eye swapchains the OpenXR backend renders into: how a swapchain
//! is described at creation, and the acquire/release protocol its image ring
//! follows every frame.

use vstd::prelude::*;
use crate::conversion::Extent2D;

verus! {

/// The Vulkan color format every swapchain is created with, as Vulkan
/// numbers `R8G8B8A8_SRGB`.
pub const COLOR_FORMAT: i64 = 43;

/// The usage bit a swapchain is created with: its images are color
/// attachments, as OpenXR numbers that usage.
pub const USAGE_COLOR_ATTACHMENT: u64 = 1;

/// Everything a swapchain is created with, as plain values.
#[derive(Clone, Copy, PartialEq, Eq, Structural, Debug)]
pub struct SwapchainCreateInfo {
    pub create_flags: u64,
    pub usage_flags: u64,
    pub format: i64,
    pub sample_count: u32,
    pub width: u32,
    pub height: u32,
    pub face_count: u32,
    pub array_size: u32,
    pub mip_count: u32,
}

/// The creation parameters for a swapchain at `resolution`: a single-sampled,
/// single-layer, single-level color target in the fixed color format.
pub fn swapchain_create_info(resolution: Extent2D) -> (r: SwapchainCreateInfo)
    ensures
        r.create_flags == 0,
        r.usage_flags == USAGE_COLOR_ATTACHMENT,
        r.format == COLOR_FORMAT,
        r.sample_count == 1,
        r.width == resolution.width,
        r.height == resolution.height,
        r.face_count == 1,
        r.array_size == 1,
        r.mip_count == 1,
{
    SwapchainCreateInfo {
        create_flags: 0,
        usage_flags: USAGE_COLOR_ATTACHMENT,
        format: COLOR_FORMAT,
        sample_count: 1,
        width: resolution.width,
        height: resolution.height,
        face_count: 1,
        array_size: 1,
        mip_count: 1,
    }
}

/// One eye's swapchain, seen as its image ring: how many images the runtime
/// handed out, which one is currently acquired, and the resolution the ring
/// was created at. The compositor owns the images; the backend may only
/// render into the image it has acquired and not yet released.
pub struct Swapchain {
    resolution: Extent2D,
    image_count: usize,
    acquired: Option<usize>,
}

impl Swapchain {
    /// A swapchain is sound when the acquired image, if any, is one of the
    /// ring's images.
    pub closed spec fn wf(&self) -> bool {
        self.acquired matches Some(i) ==> i < self.image_count
    }

    /// A fresh ring of `image_count` images, none acquired. A runtime hands
    /// out at least one image.
    pub fn new(resolution: Extent2D, image_count: usize) -> (r: Swapchain)
        requires
            image_count >= 1,
        ensures
            r.wf(),
            r.resolution() == resolution,
            r.image_count() == image_count,
            r.acquired_image() is None,
    {
        Swapchain { resolution, image_count, acquired: None }
    }

    pub closed spec fn resolution(&self) -> Extent2D {
        self.resolution
    }

    pub closed spec fn image_count(&self) -> usize {
        self.image_count
    }

    /// The index of the image the backend currently renders into, if any.
    pub closed spec fn acquired_image(&self) -> Option<usize> {
        self.acquired
    }

    /// Records that the runtime handed out image `index`. An image may only
    /// be acquired while none is held, and the runtime only hands out
    /// indices inside the ring.
    pub fn acquire(&mut self, index: usize)
        requires
            old(self).wf(),
            old(self).acquired_image() is None,
            index < old(self).image_count(),
        ensures
            final(self).wf(),
            final(self).acquired_image() == Some(index),
            final(self).image_count() == old(self).image_count(),
            final(self).resolution() == old(self).resolution(),
    {
        self.acquired = Some(index);
    }

    /// Hands the acquired image back to the compositor. Only a held image
    /// can be released.
    pub fn release(&mut self)
        requires
            old(self).wf(),
            old(self).acquired_image() is Some,
        ensures
            final(self).wf(),
            final(self).acquired_image() is None,
            final(self).image_count() == old(self).image_count(),
            final(self).resolution() == old(self).resolution(),
    {
        self.acquired = None;
    }

    /// The index of the image currently held, if any.
    pub fn currently_acquired(&self) -> (r: Option<usize>)
        ensures
            r == self.acquired_image(),
    {
        self.acquired
    }

    /// Whether `index` names an image of the ring: the test the backend runs
    /// on an index the runtime handed out before trusting it.
    pub fn holds_image(&self, index: usize) -> (r: bool)
        ensures
            r == (index < self.image_count()),
    {
        index < self.image_count
    }
}

/// The pair of swapchains of a stereo session, one per eye.
pub struct EyeSwapchains {
    pub left: Swapchain,
    pub right: Swapchain,
}

impl EyeSwapchains {
    pub open spec fn wf(&self) -> bool {
        self.left.wf() && self.right.wf()
    }

    /// Fresh rings for both eyes at the given resolutions and sizes.
    pub fn new(
        left_resolution: Extent2D,
        left_images: usize,
        right_resolution: Extent2D,
        right_images: usize,
    ) -> (r: EyeSwapchains)
        requires
            left_images >= 1,
            right_images >= 1,
        ensures
            r.wf(),
            r.left.resolution() == left_resolution,
            r.left.image_count() == left_images,
            r.left.acquired_image() is None,
            r.right.resolution() == right_resolution,
            r.right.image_count() == right_images,
            r.right.acquired_image() is None,
    {
        EyeSwapchains {
            left: Swapchain::new(left_resolution, left_images),
            right: Swapchain::new(right_resolution, right_images),
        }
    }

    /// Begins a frame: records the image the runtime handed out for each
    /// eye. Both eyes must be free, and each index must lie in its ring.
    pub fn acquire_frame(&mut self, left_index: usize, right_index: usize)
        requires
            old(self).wf(),
            old(self).left.acquired_image() is None,
            old(self).right.acquired_image() is None,
            left_index < old(self).left.image_count(),
            right_index < old(self).right.image_count(),
        ensures
            final(self).wf(),
            final(self).left.acquired_image() == Some(left_index),
            final(self).right.acquired_image() == Some(right_index),
            final(self).left.image_count() == old(self).left.image_count(),
            final(self).right.image_count() == old(self).right.image_count(),
            final(self).left.resolution() == old(self).left.resolution(),
            final(self).right.resolution() == old(self).right.resolution(),
    {
        self.left.acquire(left_index);
        self.right.acquire(right_index);
    }

    /// Ends a frame: hands both eyes' images back to the compositor.
    pub fn release_frame(&mut self)
        requires
            old(self).wf(),
            old(self).left.acquired_image() is Some,
            old(self).right.acquired_image() is Some,
        ensures
            final(self).wf(),
            final(self).left.acquired_image() is None,
            final(self).right.acquired_image() is None,
            final(self).left.image_count() == old(self).left.image_count(),
            final(self).right.image_count() == old(self).right.image_count(),
            final(self).left.resolution() == old(self).left.resolution(),
            final(self).right.resolution() == old(self).right.resolution(),
    {
        self.left.release();
        self.right.release();
    }
}

} // verus!
