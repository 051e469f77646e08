//! The swapchain: its images, its replacement and its frames.

use crate::commands::Timeline;
use crate::device::Presented;
use crate::effect::Effect;
use crate::error::{failure_of, Error, Failure};
use crate::flags::has_all_u32;
use crate::format::{Format, Uint32x2};
use crate::present::{
    Presentation, RetiredState, RetiredSwapchain, Window, MAX_SWAPCHAIN_IMAGES,
};
use crate::record::ImageBarrier;
use crate::replace::{has_area, Replacement};
use crate::texture::{ImageViewInfo, RenderView};
use crate::vulkan::{
    ACCESS_MEMORY_READ, ACCESS_MEMORY_WRITE, ASPECT_COLOR, COLOR_SPACE_SRGB_NONLINEAR,
    COMPOSITE_ALPHA_INHERIT, COMPOSITE_ALPHA_OPAQUE, COMPOSITE_ALPHA_POST_MULTIPLIED,
    COMPOSITE_ALPHA_PRE_MULTIPLIED, ERROR_OUT_OF_DATE, FORMAT_UNDEFINED, LAYOUT_GENERAL,
    LAYOUT_PRESENT_SRC, LAYOUT_UNDEFINED, STAGE_ALL_COMMANDS, TRANSFORM_IDENTITY,
    USAGE_COLOR_ATTACHMENT, VIEW_TYPE_2D,
};
use std::sync::Arc;
use vstd::prelude::*;

verus! {

/// The most surface formats that are looked at.
pub const MAX_SURFACE_FORMATS: usize = 64;

/// The extent that stands for: as the swapchain decides.
pub const UNDECIDED_EXTENT: u32 = 0xffff_ffff;

/// What a surface can do.
#[derive(Clone, Copy, Debug, PartialEq, Eq, Structural)]
pub struct SurfaceCapabilities {
    pub min_image_count: u32,
    /// The most images, or 0 for no limit.
    pub max_image_count: u32,
    pub current_extent: Uint32x2,
    pub min_image_extent: Uint32x2,
    pub max_image_extent: Uint32x2,
    pub current_transform: u32,
    pub supported_composite_alpha: u32,
    pub supported_usage: u32,
}

/// A format of a surface.
#[derive(Clone, Copy, Debug, PartialEq, Eq, Structural)]
pub struct SurfaceFormat {
    pub format: i32,
    pub color_space: i32,
}

/// The first of the modes that is supported: opaque before premultiplied, before postmultiplied,
/// before inherited.
pub open spec fn composite_alpha(supported: u32) -> Option<u32> {
    if has_all_u32(supported, COMPOSITE_ALPHA_OPAQUE) {
        Some(COMPOSITE_ALPHA_OPAQUE)
    } else if has_all_u32(supported, COMPOSITE_ALPHA_PRE_MULTIPLIED) {
        Some(COMPOSITE_ALPHA_PRE_MULTIPLIED)
    } else if has_all_u32(supported, COMPOSITE_ALPHA_POST_MULTIPLIED) {
        Some(COMPOSITE_ALPHA_POST_MULTIPLIED)
    } else if has_all_u32(supported, COMPOSITE_ALPHA_INHERIT) {
        Some(COMPOSITE_ALPHA_INHERIT)
    } else {
        None
    }
}

/// Whether a surface supports a composite alpha mode.
pub fn has_composite_alpha(supported: u32) -> (r: bool)
    ensures
        r == composite_alpha(supported) is Some,
{
    supported & COMPOSITE_ALPHA_OPAQUE == COMPOSITE_ALPHA_OPAQUE || supported
        & COMPOSITE_ALPHA_PRE_MULTIPLIED == COMPOSITE_ALPHA_PRE_MULTIPLIED || supported
        & COMPOSITE_ALPHA_POST_MULTIPLIED == COMPOSITE_ALPHA_POST_MULTIPLIED || supported
        & COMPOSITE_ALPHA_INHERIT == COMPOSITE_ALPHA_INHERIT
}

/// The composite alpha mode to use. A surface supports at least one.
pub fn choose_composite_alpha(supported: u32) -> (r: u32)
    requires
        composite_alpha(supported) is Some,
    ensures
        Some(r) == composite_alpha(supported),
{
    if supported & COMPOSITE_ALPHA_OPAQUE == COMPOSITE_ALPHA_OPAQUE {
        COMPOSITE_ALPHA_OPAQUE
    } else if supported & COMPOSITE_ALPHA_PRE_MULTIPLIED == COMPOSITE_ALPHA_PRE_MULTIPLIED {
        COMPOSITE_ALPHA_PRE_MULTIPLIED
    } else if supported & COMPOSITE_ALPHA_POST_MULTIPLIED == COMPOSITE_ALPHA_POST_MULTIPLIED {
        COMPOSITE_ALPHA_POST_MULTIPLIED
    } else {
        COMPOSITE_ALPHA_INHERIT
    }
}

/// `value`, or the bound that it is beyond.
pub open spec fn clamped(value: u32, least: u32, most: u32) -> u32 {
    if value < least {
        least
    } else if value > most {
        most
    } else {
        value
    }
}

fn clamp(value: u32, least: u32, most: u32) -> (r: u32)
    requires
        least <= most,
    ensures
        r == clamped(value, least, most),
{
    if value < least {
        least
    } else if value > most {
        most
    } else {
        value
    }
}

impl SurfaceCapabilities {
    /// The surface has an extent of its own.
    pub open spec fn decides(self) -> bool {
        self.current_extent.x != UNDECIDED_EXTENT && self.current_extent.y != UNDECIDED_EXTENT
    }

    /// The extent to draw to can be told: the bounds are in order where they decide.
    pub open spec fn has_extent(self, window: Uint32x2) -> bool {
        ||| self.decides()
        ||| window.x == 0
        ||| window.y == 0
        ||| self.min_image_extent.x <= self.max_image_extent.x && self.min_image_extent.y
            <= self.max_image_extent.y
    }

    /// Whether the extent to draw to can be told.
    pub fn knows_extent(&self, window: Uint32x2) -> (r: bool)
        ensures
            r == self.has_extent(window),
    {
        (self.current_extent.x != UNDECIDED_EXTENT && self.current_extent.y != UNDECIDED_EXTENT)
            || window.x == 0 || window.y == 0 || (self.min_image_extent.x
            <= self.max_image_extent.x && self.min_image_extent.y <= self.max_image_extent.y)
    }

    /// The extent to draw to: that of the surface, or else that of the window within the bounds of
    /// the surface; nothing while the window has no area.
    pub open spec fn extent(self, window: Uint32x2) -> Uint32x2 {
        if self.decides() {
            self.current_extent
        } else if window.x == 0 || window.y == 0 {
            Uint32x2 { x: 0, y: 0 }
        } else {
            Uint32x2 {
                x: clamped(window.x, self.min_image_extent.x, self.max_image_extent.x),
                y: clamped(window.y, self.min_image_extent.y, self.max_image_extent.y),
            }
        }
    }

    /// The extent to draw to.
    pub fn drawable_extent(&self, window: Uint32x2) -> (r: Uint32x2)
        requires
            self.has_extent(window),
        ensures
            r == self.extent(window),
    {
        if self.current_extent.x != UNDECIDED_EXTENT && self.current_extent.y != UNDECIDED_EXTENT {
            return self.current_extent;
        }
        if window.x == 0 || window.y == 0 {
            return Uint32x2 { x: 0, y: 0 };
        }
        Uint32x2 {
            x: clamp(window.x, self.min_image_extent.x, self.max_image_extent.x),
            y: clamp(window.y, self.min_image_extent.y, self.max_image_extent.y),
        }
    }

    /// The number of images to ask for: one for each present context, as far as the surface goes.
    pub open spec fn image_count(self, contexts: u32) -> u32 {
        let wanted = if contexts > self.min_image_count {
            contexts
        } else {
            self.min_image_count
        };
        if self.max_image_count != 0 && wanted > self.max_image_count {
            self.max_image_count
        } else {
            wanted
        }
    }

    /// The number of images to ask for.
    pub fn choose_image_count(&self, contexts: u32) -> (r: u32)
        ensures
            r == self.image_count(contexts),
    {
        let mut count: u32 = contexts;
        if count < self.min_image_count {
            count = self.min_image_count;
        }
        if self.max_image_count != 0 && count > self.max_image_count {
            count = self.max_image_count;
        }
        count
    }
}

/// A swapchain to create. Its images have one layer, are attached as colors in the sRGB color
/// space, and are shown first in, first out.
#[derive(Clone, Copy, Debug, PartialEq, Eq, Structural)]
pub struct SwapchainPlan {
    pub min_image_count: u32,
    pub format: i32,
    pub extent: Uint32x2,
    pub transform: u32,
    pub composite_alpha: u32,
    /// The swapchain that is replaced, or null.
    pub old_swapchain: u64,
}

/// A surface format that serves the wanted one.
pub open spec fn is_wanted(format: SurfaceFormat, wanted: i32) -> bool {
    &&& format.format == wanted || format.format == FORMAT_UNDEFINED
    &&& format.color_space == COLOR_SPACE_SRGB_NONLINEAR
}

/// The formats of a surface serve the wanted one.
pub open spec fn serves(formats: Seq<SurfaceFormat>, wanted: i32) -> bool {
    &&& 0 < formats.len() <= MAX_SURFACE_FORMATS
    &&& exists|i: int| 0 <= i < formats.len() && is_wanted(#[trigger] formats[i], wanted)
}

/// An image of the swapchain, acquired to be drawn to.
#[derive(Clone, Debug)]
pub struct SwapchainFrame {
    pub render_view: Arc<RenderView>,
    pub extent: Uint32x2,
}

/// The swapchain of a window.
#[derive(Debug)]
pub struct Swapchain {
    /// The Vulkan swapchain, or null.
    pub handle: u64,
    pub images: Vec<u64>,
    pub render_views: Vec<RenderView>,
    /// Which images were presented before.
    pub initialized: Vec<bool>,
    /// The acquired image.
    pub image_index: u32,
    pub width: u32,
    pub height: u32,
    pub format: Format,
    pub transform: u32,
    pub composite_alpha: u32,
    /// The context of the acquired image.
    pub present_context: Option<usize>,
    /// The command buffer that makes the acquired image drawable.
    pub transition_commands: Option<u64>,
    pub acquired: bool,
    pub recreate_required: bool,
}

/// The swapchain as a value.
#[verifier::ext_equal]
pub struct SwapchainState {
    pub handle: u64,
    pub images: Seq<u64>,
    pub render_views: Seq<RenderView>,
    pub initialized: Seq<bool>,
    pub image_index: u32,
    pub width: u32,
    pub height: u32,
    pub format: Format,
    pub transform: u32,
    pub composite_alpha: u32,
    pub present_context: Option<usize>,
    pub transition_commands: Option<u64>,
    pub acquired: bool,
    pub recreate_required: bool,
}

impl View for Swapchain {
    type V = SwapchainState;

    open spec fn view(&self) -> SwapchainState {
        SwapchainState {
            handle: self.handle,
            images: self.images@,
            render_views: self.render_views@,
            initialized: self.initialized@,
            image_index: self.image_index,
            width: self.width,
            height: self.height,
            format: self.format,
            transform: self.transform,
            composite_alpha: self.composite_alpha,
            present_context: self.present_context,
            transition_commands: self.transition_commands,
            acquired: self.acquired,
            recreate_required: self.recreate_required,
        }
    }
}

impl SwapchainState {
    /// No swapchain yet, to be of the format.
    pub open spec fn unmade(format: Format) -> Self {
        SwapchainState {
            handle: 0,
            images: Seq::empty(),
            render_views: Seq::empty(),
            initialized: Seq::empty(),
            image_index: 0,
            width: 0,
            height: 0,
            format,
            transform: TRANSFORM_IDENTITY,
            composite_alpha: COMPOSITE_ALPHA_OPAQUE,
            present_context: None,
            transition_commands: None,
            acquired: false,
            recreate_required: false,
        }
    }

    /// A swapchain has images, each with its view. An acquired image is one of them, with a present
    /// context. The area is not empty unless the swapchain must be replaced.
    pub open spec fn wf(self) -> bool {
        &&& self.images.len() == self.render_views.len() == self.initialized.len()
        &&& self.images.len() <= MAX_SWAPCHAIN_IMAGES
        &&& self.handle != 0 <==> self.images.len() > 0
        &&& forall|i: int|
            0 <= i < self.render_views.len() ==> (#[trigger] self.render_views[i]).view != 0
                && self.render_views[i].swapchain_view
        &&& self.acquired ==> {
            &&& self.image_index < self.images.len()
            &&& self.present_context is Some
            &&& self.width != 0
            &&& self.height != 0
        }
        &&& !self.acquired ==> self.present_context is None && self.transition_commands is None
        &&& self.handle != 0 && !self.recreate_required ==> self.width != 0 && self.height != 0
    }

    /// The swapchain fits the presents: it was not given away, and the context of an acquired image
    /// has no present under way.
    pub open spec fn fits(self, window: Window) -> bool {
        &&& self.handle != 0 ==> window.is_fresh(self.handle)
        &&& self.present_context matches Some(index) ==> {
            &&& index < window.contexts.len()
            &&& !window.contexts[index as int].present_pending
        }
    }

    /// No swapchain.
    pub open spec fn emptied(self) -> Self {
        SwapchainState {
            handle: 0,
            images: Seq::empty(),
            render_views: Seq::empty(),
            initialized: Seq::empty(),
            width: 0,
            height: 0,
            ..self
        }
    }

    /// What is given up with the swapchain.
    pub open spec fn as_retired(self) -> RetiredState {
        RetiredState {
            handle: self.handle,
            views: self.render_views.map_values(|view: RenderView| view.view),
        }
    }

    /// The presents after the swapchain was given up.
    pub open spec fn retired_from(self, window: Window, signaled: Seq<bool>) -> Window {
        if self.handle == 0 {
            window
        } else {
            window.retire(self.as_retired(), signaled)
        }
    }

    /// The calls of that.
    pub open spec fn retiring_from(self, window: Window, signaled: Seq<bool>) -> Seq<Effect> {
        if self.handle == 0 {
            seq![]
        } else {
            window.retiring(self.as_retired(), signaled)
        }
    }

    /// Giving up the swapchain keeps the number of present contexts, the recordings under way, and
    /// what was not given away.
    pub proof fn retired_keeps_count(self, window: Window, signaled: Seq<bool>)
        requires
            self.wf(),
            window.wf(),
            self.fits(window),
        ensures
            self.retired_from(window, signaled).wf(),
            self.retired_from(window, signaled).contexts.len() == window.contexts.len(),
            self.retired_from(window, signaled).timeline.active == window.timeline.active,
            self.retired_from(window, signaled).timeline.submitted == window.timeline.submitted,
            self.retired_from(window, signaled).timeline.completed == window.timeline.completed,
    {
        if self.handle != 0 {
            assert(self.as_retired().wf()) by {
                assert forall|k: int| 0 <= k < self.as_retired().views.len() implies #[trigger]
                self.as_retired().views[k] != 0 by {
                    assert(self.render_views[k].view != 0);
                }
            }
            window.retire_is_wf(self.as_retired(), signaled);
        }
    }

    /// The surface has another extent or transform than the swapchain was made for.
    pub open spec fn is_reshaped(
        self,
        capabilities: SurfaceCapabilities,
        window: Uint32x2,
    ) -> bool {
        let extent = capabilities.extent(window);
        ||| extent.x != self.width
        ||| extent.y != self.height
        ||| capabilities.current_transform != self.transform
    }

    /// The surface does not look as the swapchain was made for.
    pub open spec fn is_outdated(
        self,
        capabilities: SurfaceCapabilities,
        window: Uint32x2,
    ) -> bool {
        ||| self.is_reshaped(capabilities, window)
        ||| composite_alpha(capabilities.supported_composite_alpha) != Some(self.composite_alpha)
    }

    /// The surface can be compared with the swapchain. A composite alpha mode is needed only where
    /// nothing else differs.
    pub open spec fn is_comparable(
        self,
        capabilities: SurfaceCapabilities,
        window: Uint32x2,
    ) -> bool {
        &&& capabilities.has_extent(window)
        &&& self.is_reshaped(capabilities, window) || composite_alpha(
            capabilities.supported_composite_alpha,
        ) is Some
    }

    /// The window has no area: the swapchain is kept, to be replaced later.
    pub open spec fn hidden(self) -> Self {
        SwapchainState { width: 0, height: 0, recreate_required: true, ..self }
    }

    /// The swapchain after a look at the extent to draw to: one of another size is to be replaced.
    pub open spec fn measured(self, extent: Uint32x2) -> Self {
        SwapchainState {
            recreate_required: self.recreate_required || (self.handle != 0 && (self.width
                != extent.x || self.height != extent.y)),
            ..self
        }
    }

    /// The transition that the next recording starts with, if any: an acquired image is made
    /// drawable once.
    pub open spec fn first_transition(self) -> Option<ImageBarrier> {
        if self.acquired && self.transition_commands is None {
            Some(self.drawing_barrier())
        } else {
            None
        }
    }

    /// The swapchain after a recording was begun.
    pub open spec fn begun(self, commands: u64) -> Self {
        if self.first_transition() is Some {
            SwapchainState { transition_commands: Some(commands), ..self }
        } else {
            self
        }
    }

    /// A new swapchain cannot be made for the surface.
    pub open spec fn is_refused(
        self,
        capabilities: SurfaceCapabilities,
        formats: Seq<SurfaceFormat>,
        contexts: u32,
    ) -> bool {
        let count = capabilities.image_count(contexts);
        ||| !serves(formats, self.format.spec_vk())
        ||| count == 0
        ||| count > MAX_SWAPCHAIN_IMAGES
    }

    /// The new swapchain for the surface.
    pub open spec fn plan(
        self,
        capabilities: SurfaceCapabilities,
        extent: Uint32x2,
        contexts: u32,
    ) -> SwapchainPlan {
        SwapchainPlan {
            min_image_count: capabilities.image_count(contexts),
            format: self.format.spec_vk(),
            extent,
            transform: capabilities.current_transform,
            composite_alpha: composite_alpha(capabilities.supported_composite_alpha)->0,
            old_swapchain: self.handle,
        }
    }

    /// The new swapchain in place.
    pub open spec fn installed(
        self,
        handle: u64,
        images: Seq<u64>,
        views: Seq<u64>,
        plan: SwapchainPlan,
    ) -> Self {
        SwapchainState {
            handle,
            images,
            render_views: views.map_values(
                |view: u64|
                    RenderView {
                        view,
                        width: plan.extent.x,
                        height: plan.extent.y,
                        swapchain_view: true,
                    },
            ),
            initialized: Seq::new(images.len(), |i: int| false),
            width: plan.extent.x,
            height: plan.extent.y,
            transform: plan.transform,
            composite_alpha: plan.composite_alpha,
            recreate_required: false,
            ..self
        }
    }

    /// The swapchain must be replaced before an image can be acquired.
    pub open spec fn needs_replacement(self) -> bool {
        self.handle == 0 || self.recreate_required
    }

    /// An image was acquired. A surface that has changed asks for a new swapchain.
    pub open spec fn with_image(self, image: u32, context: usize, outdated: bool) -> Self {
        SwapchainState {
            image_index: image,
            present_context: Some(context),
            acquired: true,
            recreate_required: outdated,
            ..self
        }
    }

    /// The transition of the acquired image for drawing. Its content is kept if it was presented
    /// before.
    pub open spec fn drawing_barrier(self) -> ImageBarrier {
        ImageBarrier {
            source_stage: 0,
            source_access: 0,
            destination_stage: STAGE_ALL_COMMANDS,
            destination_access: ACCESS_MEMORY_READ | ACCESS_MEMORY_WRITE,
            old_layout: if self.initialized[self.image_index as int] {
                LAYOUT_PRESENT_SRC
            } else {
                LAYOUT_UNDEFINED
            },
            new_layout: LAYOUT_GENERAL,
            image: self.images[self.image_index as int],
            aspect_mask: ASPECT_COLOR,
            level_count: 1,
            layer_count: 1,
        }
    }

    /// The transition of the acquired image for presenting.
    pub open spec fn presenting_barrier(self) -> ImageBarrier {
        ImageBarrier {
            source_stage: STAGE_ALL_COMMANDS,
            source_access: ACCESS_MEMORY_WRITE,
            destination_stage: 0,
            destination_access: 0,
            old_layout: LAYOUT_GENERAL,
            new_layout: LAYOUT_PRESENT_SRC,
            image: self.images[self.image_index as int],
            aspect_mask: ASPECT_COLOR,
            level_count: 1,
            layer_count: 1,
        }
    }
}

/// The view to create for an image of a new swapchain.
pub fn swapchain_view_info(image: u64, format: i32) -> (r: ImageViewInfo)
    ensures
        r == (ImageViewInfo {
            image,
            view_type: VIEW_TYPE_2D,
            format,
            aspect_mask: ASPECT_COLOR,
            base_mip: 0,
            mip_count: 1,
            base_layer: 0,
            layer_count: 1,
        }),
{
    ImageViewInfo {
        image,
        view_type: VIEW_TYPE_2D,
        format,
        aspect_mask: ASPECT_COLOR,
        base_mip: 0,
        mip_count: 1,
        base_layer: 0,
        layer_count: 1,
    }
}

/// The calls that destroy views.
pub open spec fn destroy_views(views: Seq<u64>) -> Seq<Effect> {
    views.map_values(|view: u64| Effect::DestroyImageView(view))
}

impl Swapchain {
    /// No swapchain yet, to be of the format.
    pub fn new(format: Format) -> (r: Self)
        ensures
            r@.wf(),
            r@ == SwapchainState::unmade(format),
    {
        Swapchain {
            handle: 0,
            images: Vec::new(),
            render_views: Vec::new(),
            initialized: Vec::new(),
            image_index: 0,
            width: 0,
            height: 0,
            format,
            transform: TRANSFORM_IDENTITY,
            composite_alpha: COMPOSITE_ALPHA_OPAQUE,
            present_context: None,
            transition_commands: None,
            acquired: false,
            recreate_required: false,
        }
    }

    /// Whether the surface can be compared with the swapchain.
    pub fn can_compare(&self, capabilities: &SurfaceCapabilities, window: Uint32x2) -> (r: bool)
        ensures
            r == self@.is_comparable(*capabilities, window),
    {
        if !capabilities.knows_extent(window) {
            return false;
        }
        let extent = capabilities.drawable_extent(window);
        extent.x != self.width || extent.y != self.height || capabilities.current_transform
            != self.transform || has_composite_alpha(capabilities.supported_composite_alpha)
    }

    /// Whether the surface does not look as the swapchain was made for.
    pub fn surface_configuration_changed(
        &self,
        capabilities: &SurfaceCapabilities,
        window: Uint32x2,
    ) -> (r: bool)
        requires
            self@.is_comparable(*capabilities, window),
        ensures
            r == self@.is_outdated(*capabilities, window),
    {
        let extent = capabilities.drawable_extent(window);
        extent.x != self.width || extent.y != self.height || capabilities.current_transform
            != self.transform || choose_composite_alpha(capabilities.supported_composite_alpha)
            != self.composite_alpha
    }

    /// Gives up the swapchain, if there is one. `signaled` holds the states of the present fences.
    pub fn retire_swapchain_handle(
        &mut self,
        signaled: &Vec<bool>,
        presentation: &mut Presentation,
        timeline: &mut Timeline,
        effects: &mut Vec<Effect>,
    )
        requires
            old(self)@.wf(),
            !old(self)@.acquired,
            old(presentation).window(old(timeline)).wf(),
            old(self)@.fits(old(presentation).window(old(timeline))),
            old(timeline)@.active == 0,
            signaled@.len() == old(presentation).contexts@.len(),
        ensures
            final(self)@.wf(),
            final(self)@ == old(self)@.emptied(),
            final(presentation).window(final(timeline)).wf(),
            final(presentation).window(final(timeline)) == old(self)@.retired_from(
                old(presentation).window(old(timeline)),
                signaled@,
            ),
            final(presentation).next == old(presentation).next,
            final(effects)@ == old(effects)@ + old(self)@.retiring_from(
                old(presentation).window(old(timeline)),
                signaled@,
            ),
    {
        let ghost start = self@;
        let ghost made = effects@;
        if self.handle == 0 {
            self.width = 0;
            self.height = 0;
            assert(self@ =~= start.emptied());
            assert(effects@ =~= made + Seq::<Effect>::empty());
            return;
        }
        let mut views: Vec<u64> = Vec::new();
        let mut i: usize = 0;
        while i < self.render_views.len()
            invariant
                i <= self.render_views@.len(),
                self@ == start,
                views@ == start.as_retired().views.take(i as int),
            decreases self.render_views@.len() - i,
        {
            views.push(self.render_views[i].view);
            i += 1;
            assert(views@ =~= start.as_retired().views.take(i as int));
        }
        let retired = RetiredSwapchain { handle: self.handle, views };
        assert(retired@ =~= start.as_retired());
        assert forall|k: int| 0 <= k < retired@.views.len() implies #[trigger] retired@.views[k]
            != 0 by {
            assert(start.render_views[k].view != 0);
        }
        self.images = Vec::new();
        self.render_views = Vec::new();
        self.initialized = Vec::new();
        self.handle = 0;
        self.width = 0;
        self.height = 0;
        assert(self@ =~= start.emptied());
        presentation.retire(retired, signaled, timeline, effects);
    }

    /// Takes what the surface can do. While the window has no area, the swapchain stays.
    pub fn on_capabilities(
        &mut self,
        capabilities: Result<SurfaceCapabilities, i32>,
        window: Uint32x2,
    ) -> (r: Replacement)
        requires
            old(self)@.wf(),
            !old(self)@.acquired,
            capabilities matches Ok(c) ==> c.has_extent(window),
        ensures
            final(self)@.wf(),
            r.wf(),
            match capabilities {
                Err(code) => r == Replacement::Failed(failure_of(code)) && final(self)@
                    == old(self)@,
                Ok(capabilities) => {
                    let extent = capabilities.extent(window);
                    if extent.x == 0 || extent.y == 0 {
                        &&& r == Replacement::Hidden
                        &&& final(self)@ == old(self)@.hidden()
                    } else if !has_all_u32(capabilities.supported_usage, USAGE_COLOR_ATTACHMENT) {
                        &&& r == Replacement::Failed(Failure::Reported(Error::Unsupported))
                        &&& final(self)@ == old(self)@
                    } else {
                        &&& r == (Replacement::Formats { capabilities, extent })
                        &&& final(self)@ == old(self)@
                    }
                },
            },
    {
        match capabilities {
            Err(code) => Replacement::Failed(Failure::from_code(code)),
            Ok(capabilities) => {
                let extent = capabilities.drawable_extent(window);
                if extent.x == 0 || extent.y == 0 {
                    self.width = 0;
                    self.height = 0;
                    self.recreate_required = true;
                    Replacement::Hidden
                } else if capabilities.supported_usage & USAGE_COLOR_ATTACHMENT
                    != USAGE_COLOR_ATTACHMENT {
                    Replacement::Failed(Failure::Reported(Error::Unsupported))
                } else {
                    Replacement::Formats { capabilities, extent }
                }
            },
        }
    }

    /// Whether a new swapchain cannot be made for the surface.
    pub fn refuses(
        &self,
        capabilities: &SurfaceCapabilities,
        formats: &Vec<SurfaceFormat>,
        contexts: u32,
    ) -> (r: bool)
        ensures
            r == self@.is_refused(*capabilities, formats@, contexts),
    {
        if formats.len() == 0 || formats.len() > MAX_SURFACE_FORMATS {
            return true;
        }
        let wanted = self.format.vk();
        let mut i: usize = 0;
        let mut found = false;
        while i < formats.len()
            invariant
                i <= formats@.len(),
                found <==> exists|j: int| 0 <= j < i && is_wanted(#[trigger] formats@[j], wanted),
            decreases formats@.len() - i,
        {
            let format = formats[i];
            if (format.format == wanted || format.format == FORMAT_UNDEFINED) && format.color_space
                == COLOR_SPACE_SRGB_NONLINEAR {
                assert(is_wanted(formats@[i as int], wanted));
                found = true;
            }
            i += 1;
        }
        let count = capabilities.choose_image_count(contexts);
        !found || count == 0 || count > MAX_SWAPCHAIN_IMAGES as u32
    }

    /// Takes the formats of the surface and plans a new swapchain.
    pub fn on_formats(
        &self,
        capabilities: &SurfaceCapabilities,
        extent: Uint32x2,
        formats: &Result<Vec<SurfaceFormat>, i32>,
        contexts: u32,
    ) -> (r: Replacement)
        requires
            has_area(extent),
            *formats matches Ok(list) && !self@.is_refused(*capabilities, list@, contexts)
                ==> composite_alpha(capabilities.supported_composite_alpha) is Some,
        ensures
            r.wf(),
            match *formats {
                Err(code) => r == Replacement::Failed(failure_of(code)),
                Ok(list) => if self@.is_refused(*capabilities, list@, contexts) {
                    r == Replacement::Failed(Failure::Reported(Error::Unsupported))
                } else {
                    r == (Replacement::Create {
                        plan: self@.plan(*capabilities, extent, contexts),
                    })
                },
            },
    {
        let formats = match formats {
            Err(code) => return Replacement::Failed(Failure::from_code(*code)),
            Ok(formats) => formats,
        };
        if self.refuses(capabilities, formats, contexts) {
            return Replacement::Failed(Failure::Reported(Error::Unsupported));
        }
        Replacement::Create {
            plan: SwapchainPlan {
                min_image_count: capabilities.choose_image_count(contexts),
                format: self.format.vk(),
                extent,
                transform: capabilities.current_transform,
                composite_alpha: choose_composite_alpha(capabilities.supported_composite_alpha),
                old_swapchain: self.handle,
            },
        }
    }

    /// The creation of a new swapchain failed after it had been planned: what was made of it is
    /// destroyed, the views first, and the old swapchain is given up.
    pub fn abandon(
        &mut self,
        made: Option<u64>,
        views: &Vec<u64>,
        signaled: &Vec<bool>,
        presentation: &mut Presentation,
        timeline: &mut Timeline,
        effects: &mut Vec<Effect>,
    )
        requires
            old(self)@.wf(),
            !old(self)@.acquired,
            old(presentation).window(old(timeline)).wf(),
            old(self)@.fits(old(presentation).window(old(timeline))),
            old(timeline)@.active == 0,
            signaled@.len() == old(presentation).contexts@.len(),
        ensures
            final(self)@.wf(),
            final(self)@ == old(self)@.emptied(),
            final(presentation).window(final(timeline)).wf(),
            final(presentation).window(final(timeline)) == old(self)@.retired_from(
                old(presentation).window(old(timeline)),
                signaled@,
            ),
            final(presentation).next == old(presentation).next,
            final(effects)@ == old(effects)@ + destroy_views(views@) + (match made {
                Some(handle) => seq![Effect::DestroySwapchain(handle)],
                None => seq![],
            }) + old(self)@.retiring_from(old(presentation).window(old(timeline)), signaled@),
    {
        let ghost before = effects@;
        let mut i: usize = 0;
        assert(effects@ =~= before + destroy_views(views@).take(0));
        while i < views.len()
            invariant
                i <= views@.len(),
                effects@ == before + destroy_views(views@).take(i as int),
            decreases views@.len() - i,
        {
            effects.push(Effect::DestroyImageView(views[i]));
            i += 1;
            assert(effects@ =~= before + destroy_views(views@).take(i as int));
        }
        assert(destroy_views(views@).take(i as int) =~= destroy_views(views@));
        if let Some(handle) = made {
            effects.push(Effect::DestroySwapchain(handle));
        }
        assert(effects@ =~= before + destroy_views(views@) + (match made {
            Some(handle) => seq![Effect::DestroySwapchain(handle)],
            None => seq![],
        }));
        self.retire_swapchain_handle(signaled, presentation, timeline, effects);
    }

    /// Puts the new swapchain in the place of the old one, which is given up.
    pub fn install(
        &mut self,
        handle: u64,
        images: Vec<u64>,
        views: &Vec<u64>,
        plan: SwapchainPlan,
        signaled: &Vec<bool>,
        presentation: &mut Presentation,
        timeline: &mut Timeline,
        effects: &mut Vec<Effect>,
    )
        requires
            old(self)@.wf(),
            !old(self)@.acquired,
            old(presentation).window(old(timeline)).wf(),
            old(self)@.fits(old(presentation).window(old(timeline))),
            old(timeline)@.active == 0,
            signaled@.len() == old(presentation).contexts@.len(),
            old(presentation).window(old(timeline)).is_fresh(handle),
            handle != old(self)@.handle,
            0 < images@.len() <= MAX_SWAPCHAIN_IMAGES,
            views@.len() == images@.len(),
            forall|i: int| 0 <= i < views@.len() ==> #[trigger] views@[i] != 0,
            plan.extent.x != 0,
            plan.extent.y != 0,
        ensures
            final(self)@.wf(),
            final(self)@ == old(self)@.installed(handle, images@, views@, plan),
            final(presentation).window(final(timeline)).wf(),
            final(self)@.fits(final(presentation).window(final(timeline))),
            final(presentation).window(final(timeline)) == old(self)@.retired_from(
                old(presentation).window(old(timeline)),
                signaled@,
            ),
            final(presentation).next == old(presentation).next,
            final(effects)@ == old(effects)@ + old(self)@.retiring_from(
                old(presentation).window(old(timeline)),
                signaled@,
            ),
    {
        let ghost start = self@;
        let ghost before = presentation.window(timeline);
        self.retire_swapchain_handle(signaled, presentation, timeline, effects);
        proof {
            if start.handle != 0 {
                assert(start.as_retired().wf()) by {
                    assert forall|k: int|
                        0 <= k < start.as_retired().views.len() implies #[trigger]
                    start.as_retired().views[k] != 0 by {
                        assert(start.render_views[k].view != 0);
                    }
                }
                before.retire_is_wf(start.as_retired(), signaled@);
            }
        }
        self.handle = handle;
        let count = images.len();
        self.images = images;
        self.width = plan.extent.x;
        self.height = plan.extent.y;
        self.transform = plan.transform;
        self.composite_alpha = plan.composite_alpha;
        self.recreate_required = false;
        let ghost goal = start.installed(handle, self.images@, views@, plan);
        let mut i: usize = 0;
        while i < count
            invariant
                i <= count == views@.len() == goal.images.len(),
                goal == start.installed(handle, goal.images, views@, plan),
                self@ == (SwapchainState {
                    render_views: goal.render_views.take(i as int),
                    initialized: goal.initialized.take(i as int),
                    ..goal
                }),
            decreases count - i,
        {
            self.render_views.push(
                RenderView {
                    view: views[i],
                    width: plan.extent.x,
                    height: plan.extent.y,
                    swapchain_view: true,
                },
            );
            self.initialized.push(false);
            i += 1;
            assert(self.render_views@ =~= goal.render_views.take(i as int));
            assert(self.initialized@ =~= goal.initialized.take(i as int));
        }
        assert(self@ =~= goal);
        assert forall|k: int| 0 <= k < self@.render_views.len() implies (
        #[trigger] self@.render_views[k]).view != 0 && self@.render_views[k].swapchain_view by {
            assert(views@[k] != 0);
        }
    }

    /// Whether the swapchain must be replaced before an image can be acquired.
    pub fn needs_recreation(&self) -> (r: bool)
        ensures
            r == self@.needs_replacement(),
    {
        self.handle == 0 || self.recreate_required
    }

    /// The transition of the acquired image for drawing.
    pub fn make_drawing_barrier(&self) -> (r: ImageBarrier)
        requires
            self@.wf(),
            self@.acquired,
        ensures
            r == self@.drawing_barrier(),
    {
        let index = self.image_index as usize;
        let old_layout = if self.initialized[index] {
            LAYOUT_PRESENT_SRC
        } else {
            LAYOUT_UNDEFINED
        };
        ImageBarrier {
            source_stage: 0,
            source_access: 0,
            destination_stage: STAGE_ALL_COMMANDS,
            destination_access: ACCESS_MEMORY_READ | ACCESS_MEMORY_WRITE,
            old_layout,
            new_layout: LAYOUT_GENERAL,
            image: self.images[index],
            aspect_mask: ASPECT_COLOR,
            level_count: 1,
            layer_count: 1,
        }
    }

    /// The transition of the acquired image for presenting.
    pub fn make_presenting_barrier(&self) -> (r: ImageBarrier)
        requires
            self@.wf(),
            self@.acquired,
        ensures
            r == self@.presenting_barrier(),
    {
        ImageBarrier {
            source_stage: STAGE_ALL_COMMANDS,
            source_access: ACCESS_MEMORY_WRITE,
            destination_stage: 0,
            destination_access: 0,
            old_layout: LAYOUT_GENERAL,
            new_layout: LAYOUT_PRESENT_SRC,
            image: self.images[self.image_index as usize],
            aspect_mask: ASPECT_COLOR,
            level_count: 1,
            layer_count: 1,
        }
    }
}

/// An image that the presentation engine handed out.
#[derive(Clone, Copy, Debug, PartialEq, Eq, Structural)]
pub struct AcquiredImage {
    pub image_index: u32,
    /// What the surface can do now, where the swapchain no longer matches it exactly.
    pub suboptimal: Option<SurfaceCapabilities>,
}

/// What happened on the way to a frame.
#[derive(Clone, Copy, Debug)]
pub enum AcquireEvent {
    /// A frame is asked for, and the surface looks so.
    Asked(SurfaceCapabilities),
    /// The swapchain was replaced.
    Replaced,
    /// The presentation engine handed out an image, or failed with a code.
    Handed(Result<AcquiredImage, i32>),
}

/// What to do next on the way to a frame.
#[derive(Debug)]
pub enum AcquireAction {
    /// Replace the swapchain.
    Replace,
    /// Ask the presentation engine for an image, to set the semaphore when it can be drawn to.
    AskImage { swapchain: u64, semaphore: u64 },
    /// There is nothing to draw to.
    NoFrame,
    /// The frame is there.
    Frame(SwapchainFrame),
    /// The failure cannot be handled.
    Fatal(i32),
}

/// On the way to a frame: the present context, once it is free.
#[derive(Clone, Copy, Debug, PartialEq, Eq, Structural)]
pub struct Acquisition {
    pub context: Option<usize>,
}

/// What the next step on the way to a frame is.
#[derive(Clone, Copy, Debug, PartialEq, Eq, Structural)]
pub enum AcquireStep {
    Replace,
    AskImage,
    NoFrame,
    Frame,
    Fatal,
}

impl SwapchainState {
    /// The next step after an event. There is no frame while the extent to draw to has no area. An
    /// image is asked for where the swapchain is fit; a swapchain that is still unfit after its
    /// replacement has no area.
    pub open spec fn next_step(self, event: AcquireEvent, window: Uint32x2) -> AcquireStep {
        match event {
            AcquireEvent::Asked(capabilities) => if !has_area(capabilities.extent(window)) {
                AcquireStep::NoFrame
            } else if self.needs_replacement() {
                AcquireStep::Replace
            } else {
                AcquireStep::AskImage
            },
            AcquireEvent::Replaced => if self.handle == 0 || self.width == 0 || self.height == 0 {
                AcquireStep::NoFrame
            } else {
                AcquireStep::AskImage
            },
            AcquireEvent::Handed(Ok(_)) => AcquireStep::Frame,
            AcquireEvent::Handed(Err(code)) => if code == ERROR_OUT_OF_DATE {
                AcquireStep::Replace
            } else {
                AcquireStep::Fatal
            },
        }
    }

    /// The swapchain after an event.
    pub open spec fn after_event(
        self,
        event: AcquireEvent,
        context: Option<usize>,
        window: Uint32x2,
    ) -> Self {
        match event {
            AcquireEvent::Asked(capabilities) => if !has_area(capabilities.extent(window)) {
                self.hidden()
            } else {
                self
            },
            AcquireEvent::Handed(Ok(image)) => self.with_image(
                image.image_index,
                context->0,
                match image.suboptimal {
                    Some(capabilities) => self.is_outdated(capabilities, window),
                    None => false,
                },
            ),
            AcquireEvent::Handed(Err(code)) => if code == ERROR_OUT_OF_DATE {
                SwapchainState { recreate_required: true, ..self }
            } else {
                self
            },
            _ => self,
        }
    }

    /// An image that can be handed out: one of the swapchain, asked for after it was found fit.
    pub open spec fn can_hand(self, image: AcquiredImage, window: Uint32x2) -> bool {
        &&& image.image_index < self.images.len()
        &&& self.width != 0
        &&& self.height != 0
        &&& image.suboptimal matches Some(capabilities) ==> self.is_comparable(capabilities, window)
    }
}

impl Swapchain {
    /// Takes an event on the way to a frame and says what to do next. Before the first image is
    /// asked for, the present that last used the next context is waited for.
    pub fn acquire(
        &mut self,
        acquisition: &mut Acquisition,
        event: AcquireEvent,
        window: Uint32x2,
        presentation: &mut Presentation,
        timeline: &mut Timeline,
        effects: &mut Vec<Effect>,
    ) -> (r: AcquireAction)
        requires
            old(self)@.wf(),
            !old(self)@.acquired,
            old(presentation).window(old(timeline)).wf(),
            old(self)@.fits(old(presentation).window(old(timeline))),
            old(timeline)@.active == 0,
            old(presentation).next < old(presentation).contexts@.len(),
            old(acquisition).context matches Some(index) ==> {
                &&& index < old(presentation).contexts@.len()
                &&& !old(presentation).contexts@[index as int].present_pending
            },
            event matches AcquireEvent::Asked(capabilities) ==> capabilities.has_extent(window),
            event matches AcquireEvent::Handed(_) ==> old(acquisition).context is Some,
            event matches AcquireEvent::Handed(Ok(image)) ==> old(self)@.can_hand(image, window),
        ensures
            final(self)@.wf(),
            final(self)@ == old(self)@.after_event(event, old(acquisition).context, window),
            final(self)@.fits(final(presentation).window(final(timeline))),
            final(presentation).window(final(timeline)).wf(),
            final(presentation).next == old(presentation).next,
            ({
                let before = old(presentation).window(old(timeline));
                let next = old(presentation).next;
                let step = old(self)@.next_step(event, window);
                let waits = step is AskImage && old(acquisition).context is None;
                let used = final(acquisition).context->0 as int;
                let shown = final(self)@.image_index as int;
                &&& final(acquisition).context == (if waits {
                    Some(next)
                } else {
                    old(acquisition).context
                })
                &&& final(presentation).window(final(timeline)) == (if waits {
                    before.wait(next as int)
                } else {
                    before
                })
                &&& final(effects)@ == old(effects)@ + (if waits {
                    before.waiting(next as int)
                } else {
                    seq![]
                })
                &&& match step {
                    AcquireStep::Replace => r is Replace,
                    AcquireStep::NoFrame => r is NoFrame,
                    AcquireStep::AskImage => r == (AcquireAction::AskImage {
                        swapchain: old(self)@.handle,
                        semaphore: final(presentation).contexts@[used].acquired,
                    }),
                    AcquireStep::Frame => {
                        &&& r matches AcquireAction::Frame(frame)
                        &&& *frame.render_view == old(self)@.render_views[shown]
                        &&& frame.extent == (Uint32x2 {
                            x: old(self)@.width,
                            y: old(self)@.height,
                        })
                    },
                    AcquireStep::Fatal => event == AcquireEvent::Handed(
                        Err::<AcquiredImage, i32>(r->Fatal_0),
                    ) && r is Fatal,
                }
            }),
    {
        let ghost before = presentation.window(timeline);
        let ghost made = effects@;
        assert(made + Seq::<Effect>::empty() =~= made);
        match event {
            AcquireEvent::Asked(capabilities) => {
                let extent = capabilities.drawable_extent(window);
                if extent.x == 0 || extent.y == 0 {
                    self.width = 0;
                    self.height = 0;
                    self.recreate_required = true;
                    return AcquireAction::NoFrame;
                }
                if self.needs_recreation() {
                    return AcquireAction::Replace;
                }
            },
            AcquireEvent::Replaced => {
                if self.handle == 0 || self.width == 0 || self.height == 0 {
                    return AcquireAction::NoFrame;
                }
            },
            AcquireEvent::Handed(Err(code)) => {
                if code == ERROR_OUT_OF_DATE {
                    self.recreate_required = true;
                    return AcquireAction::Replace;
                }
                return AcquireAction::Fatal(code);
            },
            AcquireEvent::Handed(Ok(image)) => {
                let outdated = match &image.suboptimal {
                    Some(capabilities) => self.surface_configuration_changed(capabilities, window),
                    None => false,
                };
                self.image_index = image.image_index;
                self.present_context = acquisition.context;
                self.acquired = true;
                self.recreate_required = outdated;
                let view = &self.render_views[image.image_index as usize];
                return AcquireAction::Frame(
                    SwapchainFrame {
                        render_view: Arc::new(
                            RenderView {
                                view: view.view,
                                width: view.width,
                                height: view.height,
                                swapchain_view: view.swapchain_view,
                            },
                        ),
                        extent: Uint32x2 { x: self.width, y: self.height },
                    },
                );
            },
        }
        let index = match acquisition.context {
            Some(index) => index,
            None => {
                let index = presentation.next;
                let ghost pending = before.contexts[index as int].present_pending;
                presentation.wait_present_context(index, timeline, effects);
                proof {
                    if pending {
                        before.fresh_through(index as int);
                    }
                }
                acquisition.context = Some(index);
                index
            },
        };
        AcquireAction::AskImage {
            swapchain: self.handle,
            semaphore: presentation.contexts[index].acquired,
        }
    }
}

/// A frame that is handed out has an area.
pub proof fn frames_have_area(
    swapchain: SwapchainState,
    image: AcquiredImage,
    context: Option<usize>,
    window: Uint32x2,
)
    requires
        swapchain.wf(),
        !swapchain.acquired,
        swapchain.can_hand(image, window),
        context is Some,
    ensures
        ({
            let after = swapchain.after_event(
                AcquireEvent::Handed(Ok::<AcquiredImage, i32>(image)),
                context,
                window,
            );
            &&& after.wf()
            &&& after.acquired
            &&& after.width != 0
            &&& after.height != 0
        }),
{
}

/// An image is asked for only of a swapchain with an area.
pub proof fn asked_swapchains_have_area(
    swapchain: SwapchainState,
    event: AcquireEvent,
    window: Uint32x2,
)
    requires
        swapchain.wf(),
        swapchain.next_step(event, window) is AskImage,
    ensures
        swapchain.handle != 0,
        swapchain.width != 0,
        swapchain.height != 0,
        event matches AcquireEvent::Asked(capabilities) ==> has_area(capabilities.extent(window)),
{
}

/// While the extent to draw to has no area there is no frame, whatever the swapchain is like: none
/// is handed out when one is asked for, nothing is acquired, and a replacement leads to none.
pub proof fn hidden_windows_give_no_frame(
    swapchain: SwapchainState,
    capabilities: SurfaceCapabilities,
    context: Option<usize>,
    window: Uint32x2,
)
    requires
        !swapchain.acquired,
        capabilities.has_extent(window),
        !has_area(capabilities.extent(window)),
    ensures
        swapchain.next_step(AcquireEvent::Asked(capabilities), window) is NoFrame,
        !swapchain.after_event(AcquireEvent::Asked(capabilities), context, window).acquired,
        swapchain.after_event(AcquireEvent::Asked(capabilities), context, window)
            == swapchain.hidden(),
        swapchain.hidden().next_step(AcquireEvent::Replaced, window) is NoFrame,
{
}

/// A swapchain whose size is found to differ is replaced before the next frame.
pub proof fn resized_swapchains_are_replaced(
    swapchain: SwapchainState,
    extent: Uint32x2,
    capabilities: SurfaceCapabilities,
    window: Uint32x2,
)
    requires
        swapchain.handle != 0,
        swapchain.width != extent.x || swapchain.height != extent.y,
        has_area(capabilities.extent(window)),
    ensures
        swapchain.measured(extent).next_step(AcquireEvent::Asked(capabilities), window) is Replace,
{
}

/// Only the first recording after an image was acquired makes it drawable.
pub proof fn images_are_made_drawable_once(swapchain: SwapchainState, first: u64, second: u64)
    ensures
        swapchain.begun(first).first_transition() is None,
        swapchain.begun(first).begun(second) == swapchain.begun(first),
        swapchain.begun(first).acquired == swapchain.acquired,
{
}

/// An image that was presented before starts in the layout in which its last frame left it, and
/// ends in the layout in which its next frame starts.
pub proof fn transitions_meet(swapchain: SwapchainState)
    requires
        swapchain.wf(),
        swapchain.acquired,
        swapchain.initialized[swapchain.image_index as int],
    ensures
        swapchain.drawing_barrier().old_layout == swapchain.presenting_barrier().new_layout,
        swapchain.drawing_barrier().new_layout == swapchain.presenting_barrier().old_layout,
{
}

impl SwapchainState {
    /// The swapchain after its image was presented.
    pub open spec fn after_present(self, presented: Presented, window: Uint32x2) -> Self {
        SwapchainState {
            present_context: None,
            acquired: false,
            recreate_required: self.recreate_required || match presented {
                Presented::Optimal => false,
                Presented::Suboptimal(capabilities) => self.is_outdated(capabilities, window),
                Presented::OutOfDate => true,
            },
            ..self
        }
    }
}

/// The surface looks as the swapchain was made for, in every respect: width, height, transform, and
/// the composite alpha mode to use.
pub open spec fn looks_alike(
    swapchain: SwapchainState,
    capabilities: SurfaceCapabilities,
    window: Uint32x2,
) -> bool {
    &&& capabilities.extent(window).x == swapchain.width
    &&& capabilities.extent(window).y == swapchain.height
    &&& capabilities.current_transform == swapchain.transform
    &&& composite_alpha(capabilities.supported_composite_alpha) == Some(swapchain.composite_alpha)
}

/// An image that is handed out while the surface no longer matches asks for a new swapchain exactly
/// if the surface differs from what the swapchain was made for: in width, in height, in transform or
/// in composite alpha. The next time a frame is asked for, the swapchain is replaced.
pub proof fn changed_surfaces_are_noticed_when_acquiring(
    swapchain: SwapchainState,
    image: AcquiredImage,
    context: Option<usize>,
    window: Uint32x2,
    later: SurfaceCapabilities,
    later_window: Uint32x2,
)
    ensures
        ({
            let event = AcquireEvent::Handed(Ok::<AcquiredImage, i32>(image));
            let after = swapchain.after_event(event, context, window);
            let asked = AcquireEvent::Asked(later);
            &&& image.suboptimal is None ==> !after.recreate_required
            &&& image.suboptimal matches Some(seen) ==> {
                let extent = seen.extent(window);
                &&& extent.x != swapchain.width ==> after.recreate_required
                &&& extent.y != swapchain.height ==> after.recreate_required
                &&& seen.current_transform != swapchain.transform ==> after.recreate_required
                &&& !after.recreate_required <==> looks_alike(swapchain, seen, window)
            }
            &&& after.recreate_required && later.extent(later_window).x > 0 && later.extent(
                later_window,
            ).y > 0 ==> after.next_step(asked, later_window) is Replace
        }),
{
}

/// A present while the surface no longer matches asks for a new swapchain exactly if the surface
/// differs from what the swapchain was made for: in width, in height, in transform or in composite
/// alpha. What was asked for before is not forgotten, an outdated surface always asks for it, and
/// the next time a frame is asked for, the swapchain is replaced.
pub proof fn changed_surfaces_are_noticed_when_presenting(
    swapchain: SwapchainState,
    presented: Presented,
    window: Uint32x2,
    later: SurfaceCapabilities,
    later_window: Uint32x2,
)
    ensures
        ({
            let after = swapchain.after_present(presented, window);
            let asked = AcquireEvent::Asked(later);
            &&& swapchain.recreate_required ==> after.recreate_required
            &&& presented is OutOfDate ==> after.recreate_required
            &&& presented is Optimal ==> after.recreate_required == swapchain.recreate_required
            &&& presented matches Presented::Suboptimal(seen) ==> {
                let extent = seen.extent(window);
                &&& extent.x != swapchain.width ==> after.recreate_required
                &&& extent.y != swapchain.height ==> after.recreate_required
                &&& seen.current_transform != swapchain.transform ==> after.recreate_required
                &&& !after.recreate_required <==> !swapchain.recreate_required && looks_alike(
                    swapchain,
                    seen,
                    window,
                )
            }
            &&& after.recreate_required && later.extent(later_window).x > 0 && later.extent(
                later_window,
            ).y > 0 ==> after.next_step(asked, later_window) is Replace
            &&& !after.acquired
            &&& after.present_context is None
            &&& after.handle == swapchain.handle
            &&& after.images == swapchain.images
            &&& after.render_views == swapchain.render_views
            &&& after.initialized == swapchain.initialized
            &&& after.width == swapchain.width
            &&& after.height == swapchain.height
        }),
{
}

/// Whether a surface is comparable with the swapchain: its extent must be known, and it must have a
/// composite alpha mode unless width, height or transform settle the matter.
pub proof fn surfaces_are_comparable(
    swapchain: SwapchainState,
    capabilities: SurfaceCapabilities,
    window: Uint32x2,
)
    ensures
        swapchain.is_comparable(capabilities, window) ==> capabilities.has_extent(window),
        capabilities.has_extent(window) && composite_alpha(
            capabilities.supported_composite_alpha,
        ) is Some ==> swapchain.is_comparable(capabilities, window),
        capabilities.has_extent(window) && (capabilities.extent(window).x != swapchain.width
            || capabilities.extent(window).y != swapchain.height || capabilities.current_transform
            != swapchain.transform) ==> swapchain.is_comparable(capabilities, window),
{
}

/// A surface with an extent of its own is drawn to in that extent. Else the window decides, within
/// the bounds of the surface, and nothing is drawn to a window without an area.
pub proof fn extents_follow_the_surface(capabilities: SurfaceCapabilities, window: Uint32x2)
    requires
        capabilities.has_extent(window),
    ensures
        ({
            let extent = capabilities.extent(window);
            let (least, most) = (capabilities.min_image_extent, capabilities.max_image_extent);
            let own = capabilities.current_extent;
            if own.x != u32::MAX && own.y != u32::MAX {
                extent == own
            } else if window.x == 0 || window.y == 0 {
                extent.x == 0 && extent.y == 0
            } else {
                &&& least.x <= extent.x <= most.x
                &&& least.y <= extent.y <= most.y
                &&& least.x <= window.x <= most.x ==> extent.x == window.x
                &&& least.y <= window.y <= most.y ==> extent.y == window.y
                &&& extent.x > window.x ==> extent.x == least.x
                &&& extent.y > window.y ==> extent.y == least.y
                &&& extent.x < window.x ==> extent.x == most.x
                &&& extent.y < window.y ==> extent.y == most.y
            }
        }),
{
}

/// The extent of a surface is known where the surface or an empty window decides it, and where the
/// bounds of the surface are in order.
pub proof fn extents_are_known(capabilities: SurfaceCapabilities, window: Uint32x2)
    ensures
        ({
            let (least, most) = (capabilities.min_image_extent, capabilities.max_image_extent);
            let own = capabilities.current_extent;
            capabilities.has_extent(window) <==> own.x != u32::MAX && own.y != u32::MAX || window.x
                == 0 || window.y == 0 || (least.x <= most.x && least.y <= most.y)
        }),
{
}

/// The number of images is that of the present contexts as far as the surface allows: it is raised
/// only to the least and lowered only to the most that the surface takes.
pub proof fn image_counts_stay_in_bounds(capabilities: SurfaceCapabilities, contexts: u32)
    ensures
        ({
            let count = capabilities.image_count(contexts);
            let (least, most) = (capabilities.min_image_count, capabilities.max_image_count);
            &&& most == 0 || least <= most ==> least <= count
            &&& most != 0 ==> count <= most
            &&& least <= contexts && (most == 0 || contexts <= most) ==> count == contexts
            &&& count > contexts && (most == 0 || least <= most) ==> count == least
            &&& count < contexts ==> count == most
        }),
{
}

/// The composite alpha mode is one that the surface supports, and none before it in the order is:
/// opaque, premultiplied, postmultiplied, inherited. There is one unless the surface has none of
/// them.
pub proof fn composite_alpha_is_the_first_supported(supported: u32)
    ensures
        composite_alpha(supported) is None <==> supported & 0x1 == 0 && supported & 0x2 == 0
            && supported & 0x4 == 0 && supported & 0x8 == 0,
        composite_alpha(supported) matches Some(mode) ==> {
            &&& mode == 0x1 || mode == 0x2 || mode == 0x4 || mode == 0x8
            &&& supported & mode == mode
            &&& supported & 0x1 != 0 ==> mode == 0x1
            &&& supported & 0x2 != 0 ==> mode <= 0x2
            &&& supported & 0x4 != 0 ==> mode <= 0x4
        },
{
    assert({
        &&& (supported & 1 == 1 || supported & 1 == 0) && (supported & 2 == 2 || supported & 2 == 0)
        &&& (supported & 4 == 4 || supported & 4 == 0) && (supported & 8 == 8 || supported & 8 == 0)
    }) by (bit_vector);
}

/// A surface format serves if it is the wanted one, or leaves the choice open, in the sRGB color
/// space. A swapchain is refused where none serves, where the formats are too many to look at, and
/// where the number of images is none or too large.
pub proof fn surfaces_are_refused_for_a_reason(
    swapchain: SwapchainState,
    capabilities: SurfaceCapabilities,
    formats: Seq<SurfaceFormat>,
    contexts: u32,
)
    ensures
        ({
            let wanted = swapchain.format.spec_vk();
            let served = exists|i: int|
                0 <= i < formats.len() && {
                    &&& (#[trigger] formats[i]).color_space == 0
                    &&& formats[i].format == wanted || formats[i].format == 0
                };
            let count = capabilities.image_count(contexts);
            !swapchain.is_refused(capabilities, formats, contexts) <==> served && formats.len()
                <= 64 && 0 < count <= MAX_SWAPCHAIN_IMAGES
        }),
{
    let wanted = swapchain.format.spec_vk();
    if !swapchain.is_refused(capabilities, formats, contexts) {
        let i = choose|i: int| 0 <= i < formats.len() && is_wanted(#[trigger] formats[i], wanted);
        assert(formats[i].color_space == 0);
    }
    assert forall|i: int|
        0 <= i < formats.len() && (#[trigger] formats[i]).color_space == 0 && (formats[i].format
            == wanted || formats[i].format == 0) implies is_wanted(formats[i], wanted) by {}
}

/// A swapchain that was planned for a surface and put in place fits the surface: it is not outdated,
/// an image is asked for next, and every frame is as large as the surface. No image was presented
/// yet. The plan hands the old swapchain over.
pub proof fn new_swapchains_fit_their_surface(
    swapchain: SwapchainState,
    capabilities: SurfaceCapabilities,
    window: Uint32x2,
    contexts: u32,
    handle: u64,
    images: Seq<u64>,
    views: Seq<u64>,
    place: int,
)
    requires
        composite_alpha(capabilities.supported_composite_alpha) is Some,
        has_area(capabilities.extent(window)),
        handle != 0,
        images.len() == views.len(),
        0 <= place < images.len(),
    ensures
        ({
            let extent = capabilities.extent(window);
            let plan = swapchain.plan(capabilities, extent, contexts);
            let made = swapchain.installed(handle, images, views, plan);
            &&& plan.old_swapchain == swapchain.handle
            &&& plan.format == swapchain.format.spec_vk()
            &&& plan.min_image_count == capabilities.image_count(contexts)
            &&& plan.extent == extent
            &&& looks_alike(made, capabilities, window)
            &&& !made.is_outdated(capabilities, window)
            &&& made.next_step(AcquireEvent::Asked(capabilities), window) is AskImage
            &&& made.next_step(AcquireEvent::Replaced, window) is AskImage
            &&& made.handle == handle
            &&& made.format == swapchain.format
            &&& made.images == images
            &&& made.render_views.len() == made.initialized.len() == images.len()
            &&& made.render_views[place] == RenderView {
                view: views[place],
                width: extent.x,
                height: extent.y,
                swapchain_view: true,
            }
            &&& !made.initialized[place]
            &&& made.acquired == swapchain.acquired
        }),
{
}

/// What happens on the way to a frame: an image that is handed out is a frame, a swapchain that is
/// out of date is replaced and stays marked for it, and any other failure is fatal and changes
/// nothing. A replaced swapchain is asked for an image unless it has no area.
pub proof fn each_event_has_its_step(
    swapchain: SwapchainState,
    image: AcquiredImage,
    code: i32,
    capabilities: SurfaceCapabilities,
    context: Option<usize>,
    window: Uint32x2,
)
    ensures
        ({
            let handed = AcquireEvent::Handed(Ok::<AcquiredImage, i32>(image));
            let failed = AcquireEvent::Handed(Err::<AcquiredImage, i32>(code));
            let asked = AcquireEvent::Asked(capabilities);
            let frame = swapchain.after_event(handed, context, window);
            let extent = capabilities.extent(window);
            &&& swapchain.next_step(handed, window) is Frame
            &&& frame.acquired
            &&& frame.image_index == image.image_index
            &&& context is Some ==> frame.present_context == context
            &&& frame.handle == swapchain.handle
            &&& frame.images == swapchain.images
            &&& frame.render_views == swapchain.render_views
            &&& frame.initialized == swapchain.initialized
            &&& frame.transition_commands == swapchain.transition_commands
            &&& frame.width == swapchain.width && frame.height == swapchain.height
            &&& code == ERROR_OUT_OF_DATE ==> {
                &&& swapchain.next_step(failed, window) is Replace
                &&& swapchain.after_event(failed, context, window).recreate_required
                &&& !swapchain.acquired ==> !swapchain.after_event(failed, context, window).acquired
            }
            &&& code != ERROR_OUT_OF_DATE ==> {
                &&& swapchain.next_step(failed, window) is Fatal
                &&& swapchain.after_event(failed, context, window) == swapchain
            }
            &&& swapchain.next_step(AcquireEvent::Replaced, window) is AskImage <==> swapchain.handle
                != 0 && swapchain.width > 0 && swapchain.height > 0
            &&& swapchain.next_step(AcquireEvent::Replaced, window) is NoFrame <==> swapchain.handle
                == 0 || swapchain.width == 0 || swapchain.height == 0
            &&& swapchain.after_event(AcquireEvent::Replaced, context, window) == swapchain
            &&& swapchain.next_step(asked, window) is NoFrame <==> extent.x == 0 || extent.y == 0
            &&& swapchain.next_step(asked, window) is AskImage <==> extent.x > 0 && extent.y > 0
                && swapchain.handle != 0 && !swapchain.recreate_required
            &&& extent.x > 0 && extent.y > 0 ==> swapchain.after_event(asked, context, window)
                == swapchain
        }),
{
}

/// A look at the extent marks a swapchain exactly if its size differs, and changes nothing else.
pub proof fn only_other_sizes_are_marked(swapchain: SwapchainState, extent: Uint32x2)
    ensures
        ({
            let after = swapchain.measured(extent);
            &&& after == SwapchainState { recreate_required: after.recreate_required, ..swapchain }
            &&& swapchain.handle == 0 || (swapchain.width == extent.x && swapchain.height
                == extent.y) ==> after == swapchain
            &&& swapchain.handle != 0 && swapchain.width != extent.x ==> after.recreate_required
            &&& swapchain.handle != 0 && swapchain.height != extent.y ==> after.recreate_required
        }),
{
}

/// Both transitions of a frame are of the acquired image, in all of it. What was drawn is written
/// before the image is shown, and nothing is drawn before the image may be drawn to.
pub proof fn transitions_are_of_the_acquired_image(swapchain: SwapchainState)
    requires
        swapchain.wf(),
        swapchain.acquired,
    ensures
        ({
            let (first, last) = (swapchain.drawing_barrier(), swapchain.presenting_barrier());
            let image = swapchain.images[swapchain.image_index as int];
            &&& first.image == image && last.image == image
            &&& first.aspect_mask == ASPECT_COLOR && last.aspect_mask == ASPECT_COLOR
            &&& first.level_count == 1 && last.level_count == 1
            &&& first.layer_count == 1 && last.layer_count == 1
            &&& first.destination_stage == STAGE_ALL_COMMANDS
            &&& last.source_stage == STAGE_ALL_COMMANDS
            &&& first.destination_access == ACCESS_MEMORY_READ | ACCESS_MEMORY_WRITE
            &&& last.source_access == ACCESS_MEMORY_WRITE
            &&& first.new_layout == LAYOUT_GENERAL && last.old_layout == LAYOUT_GENERAL
            &&& last.new_layout == LAYOUT_PRESENT_SRC
            &&& first.old_layout == LAYOUT_UNDEFINED <==> !swapchain.initialized[
                swapchain.image_index as int]
            &&& first.source_stage == 0 && first.source_access == 0
            &&& last.destination_stage == 0 && last.destination_access == 0
        }),
{
}

/// Of a swapchain that is given up, every view is given up with it, and nothing of it stays.
pub proof fn nothing_stays_of_a_swapchain(swapchain: SwapchainState, place: int)
    ensures
        ({
            let (gone, left) = (swapchain.as_retired(), swapchain.emptied());
            &&& gone.handle == swapchain.handle
            &&& gone.views.len() == swapchain.render_views.len()
            &&& 0 <= place < gone.views.len() ==> gone.views[place]
                == swapchain.render_views[place].view
            &&& left.handle == 0
            &&& left.images.len() == 0
            &&& left.render_views.len() == 0
            &&& left.initialized.len() == 0
            &&& left.width == 0 && left.height == 0
            &&& left.format == swapchain.format
        }),
{
}

/// While the window has no area the swapchain keeps its images, and is replaced later.
pub proof fn hidden_swapchains_stay(swapchain: SwapchainState)
    ensures
        ({
            let after = swapchain.hidden();
            &&& after.recreate_required
            &&& after.width == 0 && after.height == 0
            &&& after.handle == swapchain.handle
            &&& after.images == swapchain.images
            &&& after.render_views == swapchain.render_views
            &&& after.acquired == swapchain.acquired
        }),
{
}

/// Each view is destroyed, once and in order.
pub proof fn all_views_are_destroyed(views: Seq<u64>, place: int)
    ensures
        destroy_views(views).len() == views.len(),
        0 <= place < views.len() ==> destroy_views(views)[place] == Effect::DestroyImageView(
            views[place],
        ),
{
}

/// The view of a swapchain image shows its one level and layer of color, in the format of the
/// swapchain.
pub proof fn swapchain_views_show_their_image(image: u64, format: i32, r: ImageViewInfo)
    requires
        call_ensures(swapchain_view_info, (image, format), r),
    ensures
        r.image == image,
        r.format == format,
        r.view_type == VIEW_TYPE_2D,
        r.aspect_mask == ASPECT_COLOR,
        r.base_mip == 0 && r.mip_count == 1,
        r.base_layer == 0 && r.layer_count == 1,
{
}

/// Whether a surface has changed is told by its extent, its transform and its composite alpha: it has
/// exactly if one of them differs from what the swapchain was made for.
pub proof fn changes_of_a_surface_are_told(
    swapchain: &Swapchain,
    capabilities: SurfaceCapabilities,
    window: Uint32x2,
    r: bool,
)
    requires
        call_ensures(
            Swapchain::surface_configuration_changed,
            (swapchain, &capabilities, window),
            r,
        ),
    ensures
        ({
            let extent = capabilities.extent(window);
            r <==> {
                ||| extent.x != swapchain.width
                ||| extent.y != swapchain.height
                ||| capabilities.current_transform != swapchain.transform
                ||| composite_alpha(capabilities.supported_composite_alpha) != Some(
                    swapchain.composite_alpha,
                )
            }
        }),
{
}

/// A replacement goes on to the formats exactly if there is an area to draw to and colors can be drawn
/// to the surface. Without an area the swapchain stays and is marked; a failure changes nothing.
pub proof fn replacements_begin_with_the_surface(
    swapchain: &mut Swapchain,
    answer: Result<SurfaceCapabilities, i32>,
    window: Uint32x2,
    r: Replacement,
)
    requires
        call_ensures(Swapchain::on_capabilities, (swapchain, answer, window), r),
    ensures
        answer matches Err(code) ==> r == Replacement::Failed(failure_of(code)) && final(swapchain)@
            == old(swapchain)@,
        answer matches Ok(seen) ==> {
            let extent = seen.extent(window);
            let drawn = seen.supported_usage & USAGE_COLOR_ATTACHMENT != 0;
            let area = extent.x > 0 && extent.y > 0;
            &&& r is Formats <==> area && drawn
            &&& r matches Replacement::Formats { capabilities, extent: e } ==> capabilities == seen
                && e == extent
            &&& r is Hidden <==> !area
            &&& !area ==> final(swapchain)@.recreate_required && final(swapchain)@.handle == old(
                swapchain,
            )@.handle
            &&& area ==> final(swapchain)@ == old(swapchain)@
            &&& area && !drawn ==> r == Replacement::Failed(Failure::Reported(Error::Unsupported))
        },
{
    if let Ok(seen) = answer {
        let usage = seen.supported_usage;
        assert(usage & 0x10 == 0x10 <==> usage & 0x10 != 0) by (bit_vector);
    }
}

} // verus!
