//! The presentation chain: how it is configured for a surface and a
//! window, and the view and the framebuffer that each of its images gets.
//!
//! The driver's objects are made by the caller. A [`SwapChain`] says what
//! to make, takes the handles that came back, and keeps count.

use crate::physical_device::{
    chosen_extent, chosen_format, chosen_image_count, chosen_present_mode, extent_limits_ordered,
    QueueFamiliesIndices, SwapChainSupportDetails,
};
use crate::utils::create_image_views;
use crate::vk::{Extent2D, SurfaceFormatKHR, EXTENT_FOLLOWS_WINDOW};
use vstd::prelude::*;

verus! {

/// Who may use the images of the chain.
#[derive(PartialEq, Eq, Structural, Debug, Clone, Copy)]
pub enum SharingMode {
    /// One queue family owns them.
    Exclusive,
    /// The two named queue families use them side by side.
    Concurrent { graphics_family: u32, present_family: u32 },
}

/// What the images of the chain are used for.
#[derive(PartialEq, Eq, Structural, Debug, Clone, Copy)]
pub enum ImageUsage {
    ColorAttachment,
    TransferDst,
}

/// How the window system treats the alpha channel of a presented image.
#[derive(PartialEq, Eq, Structural, Debug, Clone, Copy)]
pub enum CompositeAlpha {
    Opaque,
    PreMultiplied,
    PostMultiplied,
    Inherit,
}

/// The dimensionality of a view.
#[derive(PartialEq, Eq, Structural, Debug, Clone, Copy)]
pub enum ImageViewType {
    Type1D,
    Type2D,
    Type3D,
    Cube,
}

/// Where a channel of a view takes its value from.
#[derive(PartialEq, Eq, Structural, Debug, Clone, Copy)]
pub enum ComponentSwizzle {
    Identity,
    Zero,
    One,
    R,
    G,
    B,
    A,
}

/// The part of an image's data that a view shows.
#[derive(PartialEq, Eq, Structural, Debug, Clone, Copy)]
pub enum ImageAspect {
    Color,
    Depth,
    Stencil,
}

/// Where each channel of a view comes from.
#[derive(PartialEq, Eq, Structural, Debug, Clone, Copy)]
pub struct ComponentMapping {
    pub r: ComponentSwizzle,
    pub g: ComponentSwizzle,
    pub b: ComponentSwizzle,
    pub a: ComponentSwizzle,
}

/// The part of an image that a view shows.
#[derive(PartialEq, Eq, Structural, Debug, Clone, Copy)]
pub struct ImageSubresourceRange {
    pub aspect_mask: ImageAspect,
    pub base_mip_level: u32,
    pub level_count: u32,
    pub base_array_layer: u32,
    pub layer_count: u32,
}

/// A view to be created on an image.
#[derive(PartialEq, Eq, Structural, Debug, Clone, Copy)]
pub struct ImageViewCreateInfo {
    pub image: u64,
    pub view_type: ImageViewType,
    pub format: i32,
    pub components: ComponentMapping,
    pub subresource_range: ImageSubresourceRange,
}

/// A framebuffer to be created: one attachment, in one layer.
#[derive(PartialEq, Eq, Structural, Debug, Clone, Copy)]
pub struct FramebufferCreateInfo {
    pub render_pass: u64,
    pub attachment: u64,
    pub width: u32,
    pub height: u32,
    pub layers: u32,
}

/// The chain to be created.
#[derive(PartialEq, Eq, Structural, Debug, Clone, Copy)]
pub struct SwapchainCreateInfoKHR {
    pub surface: u64,
    pub min_image_count: u32,
    pub image_format: i32,
    pub image_color_space: i32,
    pub image_extent: Extent2D,
    pub image_array_layers: u32,
    pub image_usage: ImageUsage,
    pub image_sharing_mode: SharingMode,
    pub pre_transform: u32,
    pub composite_alpha: CompositeAlpha,
    pub present_mode: i32,
    pub clipped: bool,
}

/// One object of the chain that is to be destroyed.
#[derive(PartialEq, Eq, Structural, Debug, Clone, Copy)]
pub enum ChainObject {
    Framebuffer(u64),
    ImageView(u64),
    Swapchain(u64),
}

/// Exclusive use where one family draws and presents, shared use by both
/// where two do.
pub open spec fn sharing_mode_of(graphics_family: u32, present_family: u32) -> SharingMode {
    if graphics_family != present_family {
        SharingMode::Concurrent { graphics_family, present_family }
    } else {
        SharingMode::Exclusive
    }
}

/// The view that an image of colour format `format` gets: two-dimensional,
/// channels as they are, the colour aspect of its one level and one layer.
pub open spec fn view_of_image(image: u64, format: i32) -> ImageViewCreateInfo {
    ImageViewCreateInfo {
        image,
        view_type: ImageViewType::Type2D,
        format,
        components: ComponentMapping {
            r: ComponentSwizzle::Identity,
            g: ComponentSwizzle::Identity,
            b: ComponentSwizzle::Identity,
            a: ComponentSwizzle::Identity,
        },
        subresource_range: ImageSubresourceRange {
            aspect_mask: ImageAspect::Color,
            base_mip_level: 0,
            level_count: 1,
            base_array_layer: 0,
            layer_count: 1,
        },
    }
}

/// The framebuffer that a view gets in a render pass.
pub open spec fn framebuffer_of_view(view: u64, render_pass: u64, extent: Extent2D)
    -> FramebufferCreateInfo {
    FramebufferCreateInfo {
        render_pass,
        attachment: view,
        width: extent.width,
        height: extent.height,
        layers: 1,
    }
}

/// The presentation chain with the objects that hang on it.
#[derive(Debug)]
pub struct SwapChain {
    /// What the chain is created from.
    pub create_info: SwapchainCreateInfoKHR,
    /// The chain's handle, null until [`SwapChain::attach`].
    pub inner: u64,
    pub images: Vec<u64>,
    pub image_views: Vec<u64>,
    pub surface_format: SurfaceFormatKHR,
    pub extent: Extent2D,
    pub present_mode: i32,
    pub framebuffers: Vec<u64>,
}

impl SwapChain {
    /// What [`SwapChain::new`] asks of its arguments: a format to choose,
    /// both queue families, limits that leave an extent to choose where the
    /// window's size is to be clamped, and an image count that fits 32 bits.
    pub open spec fn can_be_planned(
        details: &SwapChainSupportDetails,
        indices: &QueueFamiliesIndices,
    ) -> bool {
        &&& details.formats@.len() > 0
        &&& indices.is_complete()
        &&& details.surface_capabilities.current_extent.width == EXTENT_FOLLOWS_WINDOW
            ==> extent_limits_ordered(details.surface_capabilities)
        &&& chosen_image_count(details.surface_capabilities) <= u32::MAX
    }

    /// The configuration of the chain for a surface, what the adapter can
    /// do on it, and a window of inner size `window`.
    pub open spec fn planned(
        details: &SwapChainSupportDetails,
        indices: &QueueFamiliesIndices,
        window: Extent2D,
        surface: u64,
    ) -> SwapchainCreateInfoKHR {
        SwapchainCreateInfoKHR {
            surface,
            min_image_count: chosen_image_count(details.surface_capabilities) as u32,
            image_format: chosen_format(details.formats@).format,
            image_color_space: chosen_format(details.formats@).color_space,
            image_extent: chosen_extent(details.surface_capabilities, window),
            image_array_layers: 1,
            image_usage: ImageUsage::ColorAttachment,
            image_sharing_mode: sharing_mode_of(
                indices.graphics_family->0,
                indices.present_family->0,
            ),
            pre_transform: details.surface_capabilities.current_transform,
            composite_alpha: CompositeAlpha::Opaque,
            present_mode: chosen_present_mode(details.present_modes@),
            clipped: true,
        }
    }

    /// Every image has its view, and the framebuffers, once there are any,
    /// are as many.
    pub open spec fn wf(&self) -> bool {
        &&& self.image_views@.len() == self.images@.len()
        &&& self.framebuffers@.len() == 0 || self.framebuffers@.len() == self.image_views@.len()
    }

    /// Images, views and framebuffers are all there.
    pub open spec fn is_complete(&self) -> bool {
        &&& self.wf()
        &&& self.framebuffers@.len() == self.images@.len()
    }

    /// Whether a chain can be configured for what the adapter can do on the
    /// surface and the queue families that were found.
    pub fn plannable(details: &SwapChainSupportDetails, indices: &QueueFamiliesIndices) -> (can:
        bool)
        ensures
            can == Self::can_be_planned(details, indices),
    {
        let capabilities = details.surface_capabilities;
        details.formats.len() > 0 && indices.graphics_family.is_some()
            && indices.present_family.is_some() && (capabilities.current_extent.width != u32::MAX
            || (capabilities.min_image_extent.width <= capabilities.max_image_extent.width
            && capabilities.min_image_extent.height <= capabilities.max_image_extent.height))
            && !(capabilities.max_image_count == 0 && capabilities.min_image_count == u32::MAX)
    }

    /// Whether every image has its view and its framebuffer.
    pub fn has_all_objects(&self) -> (complete: bool)
        ensures
            complete == self.is_complete(),
    {
        self.image_views.len() == self.images.len() && self.framebuffers.len()
            == self.images.len()
    }

    /// Configures the chain. Nothing is created yet: the handle is null and
    /// the chain holds no images.
    pub fn new(
        details: &SwapChainSupportDetails,
        indices: &QueueFamiliesIndices,
        window: Extent2D,
        surface: u64,
    ) -> (chain: Self)
        requires
            Self::can_be_planned(details, indices),
        ensures
            chain.create_info == Self::planned(details, indices, window, surface),
            chain.surface_format == chosen_format(details.formats@),
            chain.extent == chosen_extent(details.surface_capabilities, window),
            chain.present_mode == chosen_present_mode(details.present_modes@),
            chain.inner == 0,
            chain.images@.len() == 0,
            chain.image_views@.len() == 0,
            chain.framebuffers@.len() == 0,
            chain.wf(),
    {
        let surface_format = details.choose_format();
        let present_mode = details.choose_present_mode();
        let extent = details.choose_swap_extent(window);
        let capabilities = details.surface_capabilities;
        let image_count: u32 = if capabilities.max_image_count > 0 && capabilities.min_image_count
            >= capabilities.max_image_count {
            capabilities.max_image_count
        } else {
            capabilities.min_image_count + 1
        };
        let graphics_family: u32 = indices.graphics_family.unwrap();
        let present_family: u32 = indices.present_family.unwrap();
        let image_sharing_mode = if graphics_family != present_family {
            SharingMode::Concurrent { graphics_family, present_family }
        } else {
            SharingMode::Exclusive
        };
        let create_info = SwapchainCreateInfoKHR {
            surface,
            min_image_count: image_count,
            image_format: surface_format.format,
            image_color_space: surface_format.color_space,
            image_extent: extent,
            image_array_layers: 1,
            image_usage: ImageUsage::ColorAttachment,
            image_sharing_mode,
            pre_transform: capabilities.current_transform,
            composite_alpha: CompositeAlpha::Opaque,
            present_mode,
            clipped: true,
        };
        SwapChain {
            create_info,
            inner: 0,
            images: Vec::new(),
            image_views: Vec::new(),
            surface_format,
            present_mode,
            framebuffers: Vec::new(),
            extent,
        }
    }

    /// The views to create on `images`, one for each and in their order.
    pub fn image_view_infos(&self, images: &Vec<u64>) -> (infos: Vec<ImageViewCreateInfo>)
        ensures
            infos@.len() == images@.len(),
            forall|i: int|
                0 <= i < images@.len() ==> #[trigger] infos@[i] == view_of_image(
                    images@[i],
                    self.surface_format.format,
                ),
    {
        create_image_views(images, self.surface_format.format)
    }

    /// Takes over the created chain, its images and the views made on them.
    /// Earlier framebuffers are forgotten: they belonged to other views.
    pub fn attach(&mut self, inner: u64, images: Vec<u64>, image_views: Vec<u64>)
        requires
            image_views@.len() == images@.len(),
        ensures
            final(self).inner == inner,
            final(self).images@ == images@,
            final(self).image_views@ == image_views@,
            final(self).framebuffers@.len() == 0,
            final(self).create_info == old(self).create_info,
            final(self).surface_format == old(self).surface_format,
            final(self).extent == old(self).extent,
            final(self).present_mode == old(self).present_mode,
            final(self).wf(),
    {
        self.inner = inner;
        self.images = images;
        self.image_views = image_views;
        self.framebuffers = Vec::new();
    }

    /// Drops the framebuffers that the chain held and says which to create
    /// in their place: for each view one, in `render_pass`, of the chain's
    /// size.
    pub fn create_framebuffers(&mut self, render_pass: u64) -> (infos: Vec<FramebufferCreateInfo>)
        requires
            old(self).wf(),
        ensures
            infos@.len() == old(self).image_views@.len(),
            infos@.len() == old(self).images@.len(),
            forall|i: int|
                0 <= i < infos@.len() ==> #[trigger] infos@[i] == framebuffer_of_view(
                    old(self).image_views@[i],
                    render_pass,
                    old(self).extent,
                ),
            final(self).framebuffers@.len() == 0,
            final(self).inner == old(self).inner,
            final(self).images@ == old(self).images@,
            final(self).image_views@ == old(self).image_views@,
            final(self).create_info == old(self).create_info,
            final(self).surface_format == old(self).surface_format,
            final(self).extent == old(self).extent,
            final(self).present_mode == old(self).present_mode,
            final(self).wf(),
    {
        self.framebuffers = Vec::new();
        let mut infos: Vec<FramebufferCreateInfo> = Vec::new();
        let mut i: usize = 0;
        while i < self.image_views.len()
            invariant
                0 <= i <= self.image_views@.len(),
                infos@.len() == i,
                forall|j: int|
                    0 <= j < i ==> #[trigger] infos@[j] == framebuffer_of_view(
                        self.image_views@[j],
                        render_pass,
                        self.extent,
                    ),
            decreases self.image_views@.len() - i,
        {
            infos.push(
                FramebufferCreateInfo {
                    render_pass,
                    attachment: self.image_views[i],
                    width: self.extent.width,
                    height: self.extent.height,
                    layers: 1,
                },
            );
            i += 1;
        }
        infos
    }

    /// Takes over the created framebuffers, one for each view.
    pub fn attach_framebuffers(&mut self, framebuffers: Vec<u64>)
        requires
            old(self).wf(),
            framebuffers@.len() == old(self).image_views@.len(),
        ensures
            final(self).framebuffers@ == framebuffers@,
            final(self).inner == old(self).inner,
            final(self).images@ == old(self).images@,
            final(self).image_views@ == old(self).image_views@,
            final(self).create_info == old(self).create_info,
            final(self).surface_format == old(self).surface_format,
            final(self).extent == old(self).extent,
            final(self).present_mode == old(self).present_mode,
            final(self).is_complete(),
    {
        self.framebuffers = framebuffers;
    }

    /// What goes, and in which order, when the chain goes: the
    /// framebuffers, then the views, then the chain itself.
    pub open spec fn teardown(&self) -> Seq<ChainObject> {
        self.framebuffers@.map_values(|handle: u64| ChainObject::Framebuffer(handle))
            + self.image_views@.map_values(|handle: u64| ChainObject::ImageView(handle))
            + seq![ChainObject::Swapchain(self.inner)]
    }

    /// The objects to destroy with the chain, in the order to destroy them.
    pub fn destroy_order(&self) -> (objects: Vec<ChainObject>)
        ensures
            objects@ == self.teardown(),
    {
        let mut objects: Vec<ChainObject> = Vec::new();
        let mut i: usize = 0;
        while i < self.framebuffers.len()
            invariant
                0 <= i <= self.framebuffers@.len(),
                objects@ == self.framebuffers@.take(i as int).map_values(
                    |handle: u64| ChainObject::Framebuffer(handle),
                ),
            decreases self.framebuffers@.len() - i,
        {
            objects.push(ChainObject::Framebuffer(self.framebuffers[i]));
            i += 1;
            assert(objects@ =~= self.framebuffers@.take(i as int).map_values(
                |handle: u64| ChainObject::Framebuffer(handle),
            ));
        }
        assert(self.framebuffers@.take(i as int) =~= self.framebuffers@);
        let ghost first = objects@;
        let mut k: usize = 0;
        while k < self.image_views.len()
            invariant
                0 <= k <= self.image_views@.len(),
                objects@ == first + self.image_views@.take(k as int).map_values(
                    |handle: u64| ChainObject::ImageView(handle),
                ),
            decreases self.image_views@.len() - k,
        {
            objects.push(ChainObject::ImageView(self.image_views[k]));
            k += 1;
            assert(objects@ =~= first + self.image_views@.take(k as int).map_values(
                |handle: u64| ChainObject::ImageView(handle),
            ));
        }
        assert(self.image_views@.take(k as int) =~= self.image_views@);
        objects.push(ChainObject::Swapchain(self.inner));
        assert(objects@ =~= self.teardown());
        objects
    }
}

/// In a chain that is complete, the images, their views and the
/// framebuffers are equally many.
pub proof fn lemma_complete_chain_counts(chain: SwapChain)
    requires
        chain.is_complete(),
    ensures
        chain.framebuffers@.len() == chain.image_views@.len(),
        chain.image_views@.len() == chain.images@.len(),
{
}

} // verus!
