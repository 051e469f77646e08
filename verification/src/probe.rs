//! The choice of the memory type that textures live in.
//!
//! Which images the device supports, and what they ask of memory, is known only by asking the
//! driver. A probe says what to ask next and takes the answer, until it is finished.

use crate::flags::{has_all_u32, has_all_u64, required_format_features, TextureUsage};
use crate::flags::{encoded, feature_table};
use crate::format::{get_texture_format_info, has_depth, has_stencil, Format, FORMAT_COUNT};
use crate::memory::{
    MemoryProperties, MemoryRequirements, MemoryWish, GPU_ALLOCATION_ALIGNMENT,
};
use crate::texture::ImageInfo;
use crate::vulkan::{
    ExtensionBits, FEATURE_COLOR_ATTACHMENT, FEATURE_DEPTH_STENCIL_ATTACHMENT,
    FEATURE_SAMPLED_IMAGE, FEATURE_TRANSFER_DST, FEATURE_TRANSFER_SRC,
    FORMAT_R32G32B32A32_SFLOAT, FORMAT_R8G8B8A8_UNORM, IMAGE_TYPE_2D, IMAGE_TYPE_3D,
    MEMORY_DEVICE_LOCAL, MEMORY_HOST_VISIBLE, USAGE_COLOR_ATTACHMENT,
    USAGE_DEPTH_STENCIL_ATTACHMENT, USAGE_SAMPLED, USAGE_STORAGE, USAGE_TRANSFER_DST,
    USAGE_TRANSFER_SRC,
};
use vstd::prelude::*;

verus! {

/// The longest edge that a probe asks for.
pub const MAX_PROBE_EDGE: u32 = 2048;

/// The edge of a depth image that a probe asks for.
pub const DEPTH_PROBE_EDGE: u32 = 512;

/// The number of formats with depth or stencil.
pub const DEPTH_FORMAT_COUNT: usize = 5;

/// What the device can do with images of some format, type and usage.
#[derive(Clone, Copy, Debug, PartialEq, Eq, Structural)]
pub struct ImageLimits {
    pub max_width: u32,
    pub max_height: u32,
    pub max_depth: u32,
    pub max_mip_levels: u32,
    pub max_array_layers: u32,
}

/// The image is within the limits.
pub open spec fn fits(info: ImageInfo, limits: ImageLimits) -> bool {
    &&& info.width <= limits.max_width
    &&& info.height <= limits.max_height
    &&& info.depth <= limits.max_depth
    &&& info.mip_levels <= limits.max_mip_levels
    &&& info.array_layers <= limits.max_array_layers
}

/// Whether the image is within the limits.
pub fn fits_image_format_properties(info: &ImageInfo, limits: &ImageLimits) -> (r: bool)
    ensures
        r == fits(*info, *limits),
{
    info.width <= limits.max_width && info.height <= limits.max_height && info.depth
        <= limits.max_depth && info.mip_levels <= limits.max_mip_levels && info.array_layers
        <= limits.max_array_layers
}

/// The limits as far as they admit the image: what the driver answered for it, unless it answered
/// that it does not support the format, or the image is beyond the limits.
pub open spec fn admitting(info: ImageInfo, answer: Option<ImageLimits>) -> Option<ImageLimits> {
    match answer {
        Some(limits) => if fits(info, limits) {
            Some(limits)
        } else {
            None
        },
        None => None,
    }
}

/// The limits as far as they admit the image.
pub fn image_format_properties(info: &ImageInfo, answer: Option<ImageLimits>) -> (r: Option<
    ImageLimits,
>)
    ensures
        r == admitting(*info, answer),
{
    match answer {
        Some(limits) => if fits_image_format_properties(info, &limits) {
            Some(limits)
        } else {
            None
        },
        None => None,
    }
}

/// The largest edges of 2D and 3D images on the device.
#[derive(Clone, Copy, Debug, PartialEq, Eq, Structural)]
pub struct EdgeLimits {
    pub max_2d: u32,
    pub max_3d: u32,
}

/// The memory types that all probed textures share, and the largest alignment that one asked for.
#[derive(Clone, Copy, Debug, PartialEq, Eq, Structural)]
pub struct TextureMemory {
    pub memory_type_bits: u32,
    pub alignment: u64,
}

/// The state of a probe: what it asks, and what it has found.
#[derive(Clone, Copy, Debug, PartialEq, Eq, Structural)]
pub enum Probe {
    /// Asks for the limits of a color image; `last` if there is no other to try.
    Color { info: ImageInfo, last: bool },
    /// Asks for the requirements of the color image.
    ColorMemory { info: ImageInfo },
    /// Asks for the limits of a volume.
    Volume { info: ImageInfo, found: TextureMemory },
    /// Asks for the requirements of the volume.
    VolumeMemory { info: ImageInfo, found: TextureMemory },
    /// Asks for the limits of a small image of a depth format.
    Small { place: usize, info: ImageInfo, found: TextureMemory },
    /// Asks for the limits of a larger image of the format with more uses. `limits` are those of
    /// the small image.
    Large { place: usize, info: ImageInfo, small: u32, limits: ImageLimits, found: TextureMemory },
    /// Asks for the requirements of the image of the depth format.
    DepthMemory { place: usize, info: ImageInfo, found: TextureMemory },
    /// The probe is over. It found nothing if the device does not support the color image.
    Finished(Option<TextureMemory>),
}

/// What a probe asks.
#[derive(Clone, Copy, Debug, PartialEq, Eq, Structural)]
pub enum Question {
    /// What the device can do with such images, if it supports the format.
    Limits(ImageInfo),
    /// What the image asks of its memory.
    Requirements(ImageInfo),
    /// Nothing more.
    Nothing,
}

/// The smaller of two numbers.
pub open spec fn smaller(a: u32, b: u32) -> u32 {
    if a <= b {
        a
    } else {
        b
    }
}

fn min_u32(a: u32, b: u32) -> (r: u32)
    ensures
        r == smaller(a, b),
{
    if a <= b {
        a
    } else {
        b
    }
}

/// A square 2D image.
pub open spec fn square(format: i32, edge: u32, usage: u32) -> ImageInfo {
    ImageInfo {
        flags: 0,
        image_type: IMAGE_TYPE_2D,
        format,
        width: edge,
        height: edge,
        depth: 1,
        mip_levels: 1,
        array_layers: 1,
        usage,
    }
}

fn make_square(format: i32, edge: u32, usage: u32) -> (r: ImageInfo)
    ensures
        r == square(format, edge, usage),
{
    ImageInfo {
        flags: 0,
        image_type: IMAGE_TYPE_2D,
        format,
        width: edge,
        height: edge,
        depth: 1,
        mip_levels: 1,
        array_layers: 1,
        usage,
    }
}

/// The color image with the uses that its format has; sampling is always among them.
pub open spec fn color_image(features: Seq<u64>, edges: EdgeLimits) -> ImageInfo {
    square(
        FORMAT_R8G8B8A8_UNORM,
        smaller(edges.max_2d, MAX_PROBE_EDGE),
        if has_all_u64(features[Format::Rgba8Unorm.spec_ordinal()], FEATURE_COLOR_ATTACHMENT) {
            USAGE_SAMPLED | USAGE_COLOR_ATTACHMENT
        } else {
            USAGE_SAMPLED
        },
    )
}

/// The color image with sampling as its one use.
pub open spec fn plain_color_image(edges: EdgeLimits) -> ImageInfo {
    square(FORMAT_R8G8B8A8_UNORM, smaller(edges.max_2d, MAX_PROBE_EDGE), USAGE_SAMPLED)
}

/// The uses of the volume.
pub open spec fn volume_uses() -> u64 {
    (TextureUsage::sampled().0 | TextureUsage::storage().0
        | TextureUsage::transfer_destination().0) as u64
}

/// The format of the volume has the features for its uses.
pub open spec fn volume_wanted(features: Seq<u64>) -> bool {
    has_all_u64(
        features[Format::Rgba32Float.spec_ordinal()],
        encoded(volume_uses(), feature_table()),
    )
}

/// The volume: a 3D image of wide texels with a full mip chain.
pub open spec fn volume_image(edges: EdgeLimits) -> ImageInfo {
    let edge = smaller(edges.max_3d, MAX_PROBE_EDGE);
    ImageInfo {
        flags: 0,
        image_type: IMAGE_TYPE_3D,
        format: FORMAT_R32G32B32A32_SFLOAT,
        width: edge,
        height: edge,
        depth: smaller(edge, 4),
        mip_levels: (32 - vstd::std_specs::bits::u32_leading_zeros(edge)) as u32,
        array_layers: 1,
        usage: USAGE_SAMPLED | USAGE_STORAGE | USAGE_TRANSFER_DST,
    }
}

/// The formats with depth or stencil.
pub open spec fn depth_formats() -> Seq<Format> {
    seq![
        Format::D16Unorm,
        Format::D24UnormS8Uint,
        Format::D32Float,
        Format::S8Uint,
        Format::D32FloatS8Uint,
    ]
}

fn depth_format(place: usize) -> (r: Format)
    requires
        place < DEPTH_FORMAT_COUNT,
    ensures
        r == depth_formats()[place as int],
        !(r is Undefined),
{
    match place {
        0 => Format::D16Unorm,
        1 => Format::D24UnormS8Uint,
        2 => Format::D32Float,
        3 => Format::S8Uint,
        _ => Format::D32FloatS8Uint,
    }
}

/// The one use that a small image of the depth format has, by the features of the format. Formats
/// with both aspects are not copied.
pub open spec fn depth_use(format: Format, features: Seq<u64>) -> Option<u32> {
    let f = features[format.spec_ordinal()];
    let combined = has_depth(format) && has_stencil(format);
    if has_all_u64(f, FEATURE_SAMPLED_IMAGE) {
        Some(USAGE_SAMPLED)
    } else if has_all_u64(f, FEATURE_DEPTH_STENCIL_ATTACHMENT) {
        Some(USAGE_DEPTH_STENCIL_ATTACHMENT)
    } else if has_all_u64(f, encoded(TextureUsage::storage().0 as u64, feature_table())) {
        Some(USAGE_STORAGE)
    } else if !combined && has_all_u64(f, FEATURE_TRANSFER_SRC) {
        Some(USAGE_TRANSFER_SRC)
    } else if !combined && has_all_u64(f, FEATURE_TRANSFER_DST) {
        Some(USAGE_TRANSFER_DST)
    } else {
        None
    }
}

fn depth_use_of(format: Format, features: &Vec<u64>) -> (r: Option<u32>)
    requires
        features@.len() == FORMAT_COUNT,
        !(format is Undefined),
    ensures
        r == depth_use(format, features@),
{
    let f = features[format.ordinal()];
    let info = get_texture_format_info(format);
    let combined = info.depth && info.stencil;
    let storage = required_format_features(TextureUsage::storage());
    if f & FEATURE_SAMPLED_IMAGE == FEATURE_SAMPLED_IMAGE {
        Some(USAGE_SAMPLED)
    } else if f & FEATURE_DEPTH_STENCIL_ATTACHMENT == FEATURE_DEPTH_STENCIL_ATTACHMENT {
        Some(USAGE_DEPTH_STENCIL_ATTACHMENT)
    } else if f & storage == storage {
        Some(USAGE_STORAGE)
    } else if !combined && f & FEATURE_TRANSFER_SRC == FEATURE_TRANSFER_SRC {
        Some(USAGE_TRANSFER_SRC)
    } else if !combined && f & FEATURE_TRANSFER_DST == FEATURE_TRANSFER_DST {
        Some(USAGE_TRANSFER_DST)
    } else {
        None
    }
}

/// The format can be sampled and attached.
pub open spec fn sampled_and_attached(format: Format, features: Seq<u64>) -> bool {
    has_all_u64(
        features[format.spec_ordinal()],
        FEATURE_SAMPLED_IMAGE | FEATURE_DEPTH_STENCIL_ATTACHMENT,
    )
}

/// The use of an image that is sampled and attached.
pub const SAMPLED_ATTACHMENT: u32 = USAGE_SAMPLED | USAGE_DEPTH_STENCIL_ATTACHMENT;

/// The image of the depth format within the limits of the small one: the larger one if it fits.
pub open spec fn single_use_image(format: Format, small: u32, limits: ImageLimits) -> ImageInfo {
    let large = square(format.spec_vk(), DEPTH_PROBE_EDGE, small);
    if fits(large, limits) {
        large
    } else {
        square(format.spec_vk(), 1, small)
    }
}

/// Answers of the driver about the limits of images.
pub type LimitsOf = spec_fn(ImageInfo) -> Option<ImageLimits>;

/// Answers of the driver about what images ask of memory.
pub type RequirementsOf = spec_fn(ImageInfo) -> MemoryRequirements;

/// The image of the depth format that counts, if one does: with both uses where the format has
/// them and such an image is supported, else with one use, and small where it must be.
pub open spec fn depth_image(
    format: Format,
    features: Seq<u64>,
    limits_of: LimitsOf,
) -> Option<ImageInfo> {
    match depth_use(format, features) {
        None => None,
        Some(small) => {
            let image = square(format.spec_vk(), 1, small);
            match admitting(image, limits_of(image)) {
                None => None,
                Some(limits) => {
                    let both = square(format.spec_vk(), DEPTH_PROBE_EDGE, SAMPLED_ATTACHMENT);
                    if sampled_and_attached(format, features) && admitting(both, limits_of(both))
                        is Some {
                        Some(both)
                    } else {
                        Some(single_use_image(format, small, limits))
                    }
                },
            }
        },
    }
}

/// What was found, and what an image asks for on top.
pub open spec fn widened(found: TextureMemory, alignment: u64) -> TextureMemory {
    TextureMemory {
        memory_type_bits: found.memory_type_bits,
        alignment: if alignment > found.alignment {
            alignment
        } else {
            found.alignment
        },
    }
}

/// What was found, narrowed to the memory types of an image, and what the image asks for on top.
pub open spec fn narrowed(found: TextureMemory, requirements: MemoryRequirements) -> TextureMemory {
    TextureMemory {
        memory_type_bits: found.memory_type_bits & requirements.memory_type_bits,
        ..widened(found, requirements.alignment)
    }
}

/// What the depth formats from `place` on leave of `found`.
pub open spec fn with_depth(
    place: nat,
    found: TextureMemory,
    features: Seq<u64>,
    limits_of: LimitsOf,
    requirements_of: RequirementsOf,
) -> TextureMemory
    decreases DEPTH_FORMAT_COUNT - place,
{
    if place >= DEPTH_FORMAT_COUNT {
        found
    } else {
        let next = match depth_image(depth_formats()[place as int], features, limits_of) {
            None => found,
            Some(info) => narrowed(found, requirements_of(info)),
        };
        with_depth(place + 1, next, features, limits_of, requirements_of)
    }
}

/// What the volume leaves of `found`: its alignment counts, where it is supported.
pub open spec fn with_volume(
    found: TextureMemory,
    features: Seq<u64>,
    edges: EdgeLimits,
    limits_of: LimitsOf,
    requirements_of: RequirementsOf,
) -> TextureMemory {
    let info = volume_image(edges);
    if volume_wanted(features) && admitting(info, limits_of(info)) is Some {
        widened(found, requirements_of(info).alignment)
    } else {
        found
    }
}

/// What the color image asks for.
pub open spec fn of_color(requirements: MemoryRequirements) -> TextureMemory {
    widened(
        TextureMemory {
            memory_type_bits: requirements.memory_type_bits,
            alignment: GPU_ALLOCATION_ALIGNMENT,
        },
        requirements.alignment,
    )
}

/// The color image that counts, if one is supported.
pub open spec fn counting_color_image(
    features: Seq<u64>,
    edges: EdgeLimits,
    limits_of: LimitsOf,
) -> Option<ImageInfo> {
    let rich = color_image(features, edges);
    let plain = plain_color_image(edges);
    if !has_all_u64(features[Format::Rgba8Unorm.spec_ordinal()], FEATURE_SAMPLED_IMAGE) {
        None
    } else if admitting(rich, limits_of(rich)) is Some {
        Some(rich)
    } else if admitting(plain, limits_of(plain)) is Some {
        Some(plain)
    } else {
        None
    }
}

/// The memory that textures need on a device, by the answers of its driver: the memory types that
/// the color image and every depth format share, and an alignment that suits the volume too.
pub open spec fn texture_memory(
    features: Seq<u64>,
    edges: EdgeLimits,
    limits_of: LimitsOf,
    requirements_of: RequirementsOf,
) -> Option<TextureMemory> {
    match counting_color_image(features, edges, limits_of) {
        None => None,
        Some(info) => Some(
            with_depth(
                0,
                with_volume(
                    of_color(requirements_of(info)),
                    features,
                    edges,
                    limits_of,
                    requirements_of,
                ),
                features,
                limits_of,
                requirements_of,
            ),
        ),
    }
}

/// The state in which the depth formats from `place` on are left to ask about.
pub open spec fn depth_state(place: nat, found: TextureMemory, features: Seq<u64>) -> Probe
    decreases DEPTH_FORMAT_COUNT - place,
{
    if place >= DEPTH_FORMAT_COUNT {
        Probe::Finished(Some(found))
    } else {
        let format = depth_formats()[place as int];
        match depth_use(format, features) {
            Some(small) => Probe::Small {
                place: place as usize,
                info: square(format.spec_vk(), 1, small),
                found,
            },
            None => depth_state(place + 1, found, features),
        }
    }
}

fn depth_from(place: usize, found: TextureMemory, features: &Vec<u64>) -> (r: Probe)
    requires
        place <= DEPTH_FORMAT_COUNT,
        features@.len() == FORMAT_COUNT,
    ensures
        r == depth_state(place as nat, found, features@),
        forall|edges: EdgeLimits| #[trigger] r.wf(features@, edges),
{
    proof {
        depth_state_is_wf(place as nat, found, features@);
    }
    let mut at: usize = place;
    while at < DEPTH_FORMAT_COUNT
        invariant
            at <= DEPTH_FORMAT_COUNT,
            features@.len() == FORMAT_COUNT,
            depth_state(place as nat, found, features@) == depth_state(at as nat, found, features@),
        decreases DEPTH_FORMAT_COUNT - at,
    {
        let format = depth_format(at);
        if let Some(small) = depth_use_of(format, features) {
            return Probe::Small { place: at, info: make_square(format.vk(), 1, small), found };
        }
        at += 1;
    }
    Probe::Finished(Some(found))
}

/// The state that follows the color image: the volume, or the depth formats.
pub open spec fn after_color(found: TextureMemory, features: Seq<u64>, edges: EdgeLimits) -> Probe {
    if volume_wanted(features) {
        Probe::Volume { info: volume_image(edges), found }
    } else {
        depth_state(0, found, features)
    }
}

impl Probe {
    /// The first state of a probe.
    pub open spec fn first(features: Seq<u64>, edges: EdgeLimits) -> Probe {
        if has_all_u64(features[Format::Rgba8Unorm.spec_ordinal()], FEATURE_SAMPLED_IMAGE) {
            Probe::Color { info: color_image(features, edges), last: false }
        } else {
            Probe::Finished(None)
        }
    }

    /// The state belongs to a probe of these features: an image of a depth format is one that the
    /// probe asks about.
    pub open spec fn wf(self, features: Seq<u64>, edges: EdgeLimits) -> bool {
        match self {
            Probe::Color { info, last } => if last {
                info == plain_color_image(edges)
            } else {
                info == color_image(features, edges) && self == Probe::first(features, edges)
            },
            Probe::ColorMemory { .. } => true,
            Probe::Volume { info, .. } => info == volume_image(edges) && volume_wanted(features),
            Probe::VolumeMemory { info, .. } => true,
            Probe::Small { place, info, .. } => {
                let format = depth_formats()[place as int];
                &&& place < DEPTH_FORMAT_COUNT
                &&& depth_use(format, features) is Some
                &&& info == square(format.spec_vk(), 1, depth_use(format, features)->0)
            },
            Probe::Large { place, info, small, .. } => {
                let format = depth_formats()[place as int];
                &&& place < DEPTH_FORMAT_COUNT
                &&& depth_use(format, features) == Some(small)
                &&& sampled_and_attached(format, features)
                &&& info == square(format.spec_vk(), DEPTH_PROBE_EDGE, SAMPLED_ATTACHMENT)
            },
            Probe::DepthMemory { place, .. } => place < DEPTH_FORMAT_COUNT,
            Probe::Finished(_) => true,
        }
    }

    /// What the probe asks.
    pub open spec fn spec_question(self) -> Question {
        match self {
            Probe::Color { info, .. } => Question::Limits(info),
            Probe::ColorMemory { info } => Question::Requirements(info),
            Probe::Volume { info, .. } => Question::Limits(info),
            Probe::VolumeMemory { info, .. } => Question::Requirements(info),
            Probe::Small { info, .. } => Question::Limits(info),
            Probe::Large { info, .. } => Question::Limits(info),
            Probe::DepthMemory { info, .. } => Question::Requirements(info),
            Probe::Finished(_) => Question::Nothing,
        }
    }

    /// The state after the answer to a question for limits.
    pub open spec fn answered_limits(
        self,
        answer: Option<ImageLimits>,
        features: Seq<u64>,
        edges: EdgeLimits,
    ) -> Probe {
        match self {
            Probe::Color { info, last } => if admitting(info, answer) is Some {
                Probe::ColorMemory { info }
            } else if last {
                Probe::Finished(None)
            } else {
                Probe::Color { info: plain_color_image(edges), last: true }
            },
            Probe::Volume { info, found } => if admitting(info, answer) is Some {
                Probe::VolumeMemory { info, found }
            } else {
                depth_state(0, found, features)
            },
            Probe::Small { place, info, found } => {
                let format = depth_formats()[place as int];
                match admitting(info, answer) {
                    None => depth_state((place + 1) as nat, found, features),
                    Some(limits) => if sampled_and_attached(format, features) {
                        Probe::Large {
                            place,
                            info: square(format.spec_vk(), DEPTH_PROBE_EDGE, SAMPLED_ATTACHMENT),
                            small: info.usage,
                            limits,
                            found,
                        }
                    } else {
                        Probe::DepthMemory {
                            place,
                            info: single_use_image(format, info.usage, limits),
                            found,
                        }
                    },
                }
            },
            Probe::Large { place, info, small, limits, found } => Probe::DepthMemory {
                place,
                info: if admitting(info, answer) is Some {
                    info
                } else {
                    single_use_image(depth_formats()[place as int], small, limits)
                },
                found,
            },
            _ => self,
        }
    }

    /// The state after the answer to a question for requirements.
    pub open spec fn answered_requirements(
        self,
        answer: MemoryRequirements,
        features: Seq<u64>,
        edges: EdgeLimits,
    ) -> Probe {
        match self {
            Probe::ColorMemory { .. } => after_color(of_color(answer), features, edges),
            Probe::VolumeMemory { found, .. } => depth_state(
                0,
                widened(found, answer.alignment),
                features,
            ),
            Probe::DepthMemory { place, found, .. } => depth_state(
                (place + 1) as nat,
                narrowed(found, answer),
                features,
            ),
            _ => self,
        }
    }

    /// What the probe will have found in the end, by the answers of the driver.
    pub open spec fn outcome(
        self,
        features: Seq<u64>,
        edges: EdgeLimits,
        limits_of: LimitsOf,
        requirements_of: RequirementsOf,
    ) -> Option<TextureMemory> {
        let volume = |found: TextureMemory|
            with_volume(found, features, edges, limits_of, requirements_of);
        let depth = |place: int, found: TextureMemory|
            with_depth(place as nat, found, features, limits_of, requirements_of);
        match self {
            Probe::Color { info, last } => if admitting(info, limits_of(info)) is Some {
                Some(depth(0, volume(of_color(requirements_of(info)))))
            } else if last {
                None
            } else {
                let plain = plain_color_image(edges);
                if admitting(plain, limits_of(plain)) is Some {
                    Some(depth(0, volume(of_color(requirements_of(plain)))))
                } else {
                    None
                }
            },
            Probe::ColorMemory { info } => Some(
                depth(0, volume(of_color(requirements_of(info)))),
            ),
            Probe::Volume { found, .. } => Some(depth(0, volume(found))),
            Probe::VolumeMemory { info, found } => Some(
                depth(0, widened(found, requirements_of(info).alignment)),
            ),
            Probe::Small { place, found, .. } => Some(depth(place as int, found)),
            Probe::Large { place, info, small, limits, found } => {
                let image = if admitting(info, limits_of(info)) is Some {
                    info
                } else {
                    single_use_image(depth_formats()[place as int], small, limits)
                };
                Some(depth(place + 1, narrowed(found, requirements_of(image))))
            },
            Probe::DepthMemory { place, info, found } => Some(
                depth(place + 1, narrowed(found, requirements_of(info))),
            ),
            Probe::Finished(found) => found,
        }
    }

    /// Starts a probe. `features` holds the features of each format.
    pub fn start(features: &Vec<u64>, edges: EdgeLimits) -> (r: Probe)
        requires
            features@.len() == FORMAT_COUNT,
        ensures
            r == Probe::first(features@, edges),
            r.wf(features@, edges),
    {
        let color = features[Format::Rgba8Unorm.ordinal()];
        if color & FEATURE_SAMPLED_IMAGE != FEATURE_SAMPLED_IMAGE {
            return Probe::Finished(None);
        }
        let usage = if color & FEATURE_COLOR_ATTACHMENT == FEATURE_COLOR_ATTACHMENT {
            USAGE_SAMPLED | USAGE_COLOR_ATTACHMENT
        } else {
            USAGE_SAMPLED
        };
        let edge = min_u32(edges.max_2d, MAX_PROBE_EDGE);
        Probe::Color { info: make_square(FORMAT_R8G8B8A8_UNORM, edge, usage), last: false }
    }

    /// What the probe asks.
    pub fn question(self) -> (r: Question)
        ensures
            r == self.spec_question(),
    {
        match self {
            Probe::Color { info, .. } => Question::Limits(info),
            Probe::ColorMemory { info } => Question::Requirements(info),
            Probe::Volume { info, .. } => Question::Limits(info),
            Probe::VolumeMemory { info, .. } => Question::Requirements(info),
            Probe::Small { info, .. } => Question::Limits(info),
            Probe::Large { info, .. } => Question::Limits(info),
            Probe::DepthMemory { info, .. } => Question::Requirements(info),
            Probe::Finished(_) => Question::Nothing,
        }
    }

    /// Takes the answer to a question for limits: `None` where the format is not supported.
    pub fn on_limits(
        self,
        answer: Option<ImageLimits>,
        features: &Vec<u64>,
        edges: EdgeLimits,
    ) -> (r: Probe)
        requires
            features@.len() == FORMAT_COUNT,
            self.wf(features@, edges),
            self.spec_question() is Limits,
        ensures
            r == self.answered_limits(answer, features@, edges),
            r.wf(features@, edges),
    {
        match self {
            Probe::Color { info, last } => if image_format_properties(&info, answer).is_some() {
                Probe::ColorMemory { info }
            } else if last {
                Probe::Finished(None)
            } else {
                let edge = min_u32(edges.max_2d, MAX_PROBE_EDGE);
                Probe::Color {
                    info: make_square(FORMAT_R8G8B8A8_UNORM, edge, USAGE_SAMPLED),
                    last: true,
                }
            },
            Probe::Volume { info, found } => if image_format_properties(&info, answer).is_some() {
                Probe::VolumeMemory { info, found }
            } else {
                depth_from(0, found, features)
            },
            Probe::Small { place, info, found } => match image_format_properties(&info, answer) {
                None => depth_from(place + 1, found, features),
                Some(limits) => {
                    let format = depth_format(place);
                    let both = FEATURE_SAMPLED_IMAGE | FEATURE_DEPTH_STENCIL_ATTACHMENT;
                    if features[format.ordinal()] & both == both {
                        Probe::Large {
                            place,
                            info: make_square(format.vk(), DEPTH_PROBE_EDGE, SAMPLED_ATTACHMENT),
                            small: info.usage,
                            limits,
                            found,
                        }
                    } else {
                        let image = make_single_use_image(format, info.usage, limits);
                        Probe::DepthMemory { place, info: image, found }
                    }
                },
            },
            Probe::Large { place, info, small, limits, found } => {
                let image = if image_format_properties(&info, answer).is_some() {
                    info
                } else {
                    make_single_use_image(depth_format(place), small, limits)
                };
                Probe::DepthMemory { place, info: image, found }
            },
            _ => self,
        }
    }

    /// Takes the answer to a question for requirements.
    pub fn on_requirements(
        self,
        answer: MemoryRequirements,
        features: &Vec<u64>,
        edges: EdgeLimits,
    ) -> (r: Probe)
        requires
            features@.len() == FORMAT_COUNT,
            self.wf(features@, edges),
            self.spec_question() is Requirements,
        ensures
            r == self.answered_requirements(answer, features@, edges),
            r.wf(features@, edges),
    {
        match self {
            Probe::ColorMemory { .. } => {
                let found = widen(
                    TextureMemory {
                        memory_type_bits: answer.memory_type_bits,
                        alignment: GPU_ALLOCATION_ALIGNMENT,
                    },
                    answer.alignment,
                );
                let broad = TextureUsage(
                    TextureUsage::sampled().0 | TextureUsage::storage().0
                        | TextureUsage::transfer_destination().0,
                );
                let needed = required_format_features(broad);
                if features[Format::Rgba32Float.ordinal()] & needed == needed {
                    Probe::Volume { info: make_volume(edges), found }
                } else {
                    depth_from(0, found, features)
                }
            },
            Probe::VolumeMemory { found, .. } => depth_from(
                0,
                widen(found, answer.alignment),
                features,
            ),
            Probe::DepthMemory { place, found, .. } => {
                let wide = widen(found, answer.alignment);
                let next = TextureMemory {
                    memory_type_bits: found.memory_type_bits & answer.memory_type_bits,
                    alignment: wide.alignment,
                };
                depth_from(place + 1, next, features)
            },
            _ => self,
        }
    }

    /// An answer to a question for limits changes nothing about the outcome that the driver's
    /// answers determine.
    pub proof fn limits_keep_outcome(
        self,
        features: Seq<u64>,
        edges: EdgeLimits,
        limits_of: LimitsOf,
        requirements_of: RequirementsOf,
    )
        requires
            self.wf(features, edges),
            self.spec_question() is Limits,
        ensures
            ({
                let answer = limits_of(self.spec_question()->Limits_0);
                self.answered_limits(answer, features, edges).outcome(
                    features,
                    edges,
                    limits_of,
                    requirements_of,
                ) == self.outcome(features, edges, limits_of, requirements_of)
            }),
    {
        match self {
            Probe::Volume { found, .. } => {
                depth_outcome(0, found, features, edges, limits_of, requirements_of);
            },
            Probe::Small { place, found, .. } => {
                depth_outcome((place + 1) as nat, found, features, edges, limits_of, requirements_of);
            },
            _ => {},
        }
    }

    /// An answer to a question for requirements changes nothing about the outcome that the
    /// driver's answers determine.
    pub proof fn requirements_keep_outcome(
        self,
        features: Seq<u64>,
        edges: EdgeLimits,
        limits_of: LimitsOf,
        requirements_of: RequirementsOf,
    )
        requires
            self.wf(features, edges),
            self.spec_question() is Requirements,
        ensures
            ({
                let answer = requirements_of(self.spec_question()->Requirements_0);
                self.answered_requirements(answer, features, edges).outcome(
                    features,
                    edges,
                    limits_of,
                    requirements_of,
                ) == self.outcome(features, edges, limits_of, requirements_of)
            }),
    {
        let answer = requirements_of(self.spec_question()->Requirements_0);
        match self {
            Probe::ColorMemory { .. } => {
                depth_outcome(0, of_color(answer), features, edges, limits_of, requirements_of);
            },
            Probe::VolumeMemory { found, .. } => {
                let next = widened(found, answer.alignment);
                depth_outcome(0, next, features, edges, limits_of, requirements_of);
            },
            Probe::DepthMemory { place, found, .. } => {
                let next = narrowed(found, answer);
                depth_outcome((place + 1) as nat, next, features, edges, limits_of, requirements_of);
            },
            _ => {},
        }
    }

    /// A probe that is answered by the driver finds the memory that textures need.
    pub proof fn first_outcome(
        features: Seq<u64>,
        edges: EdgeLimits,
        limits_of: LimitsOf,
        requirements_of: RequirementsOf,
    )
        ensures
            Probe::first(features, edges).outcome(features, edges, limits_of, requirements_of)
                == texture_memory(features, edges, limits_of, requirements_of),
    {
    }

    /// How many answers a probe can still take.
    pub open spec fn answers_left(self) -> int {
        match self {
            Probe::Color { last, .. } => if last {
                20
            } else {
                21
            },
            Probe::ColorMemory { .. } => 19,
            Probe::Volume { .. } => 18,
            Probe::VolumeMemory { .. } => 17,
            Probe::Small { place, .. } => 3 * (DEPTH_FORMAT_COUNT - place),
            Probe::Large { place, .. } => 3 * (DEPTH_FORMAT_COUNT - place) - 1,
            Probe::DepthMemory { place, .. } => 3 * (DEPTH_FORMAT_COUNT - place) - 2,
            Probe::Finished(_) => 0,
        }
    }

    /// Every answer brings the probe nearer to its end.
    pub proof fn probe_ends(
        self,
        limits: Option<ImageLimits>,
        requirements: MemoryRequirements,
        features: Seq<u64>,
        edges: EdgeLimits,
    )
        requires
            self.wf(features, edges),
        ensures
            self.answers_left() >= 0,
            self.spec_question() is Limits ==> self.answered_limits(
                limits,
                features,
                edges,
            ).answers_left() < self.answers_left(),
            self.spec_question() is Requirements ==> self.answered_requirements(
                requirements,
                features,
                edges,
            ).answers_left() < self.answers_left(),
            self.spec_question() is Nothing <==> self is Finished,
    {
        match self {
            Probe::Color { .. } => {},
            Probe::ColorMemory { .. } => {
                depth_state_left(0, of_color(requirements), features);
            },
            Probe::Volume { found, .. } => {
                depth_state_left(0, found, features);
            },
            Probe::VolumeMemory { found, .. } => {
                depth_state_left(0, widened(found, requirements.alignment), features);
            },
            Probe::Small { place, found, .. } => {
                depth_state_left((place + 1) as nat, found, features);
            },
            Probe::Large { .. } => {},
            Probe::DepthMemory { place, found, .. } => {
                depth_state_left((place + 1) as nat, narrowed(found, requirements), features);
            },
            Probe::Finished(_) => {},
        }
    }
}

proof fn depth_state_left(place: nat, found: TextureMemory, features: Seq<u64>)
    requires
        place <= DEPTH_FORMAT_COUNT,
    ensures
        depth_state(place, found, features).answers_left() <= 3 * (DEPTH_FORMAT_COUNT - place),
    decreases DEPTH_FORMAT_COUNT - place,
{
    if place < DEPTH_FORMAT_COUNT {
        depth_state_left(place + 1, found, features);
    }
}

fn widen(found: TextureMemory, alignment: u64) -> (r: TextureMemory)
    ensures
        r == widened(found, alignment),
{
    TextureMemory {
        memory_type_bits: found.memory_type_bits,
        alignment: if alignment > found.alignment {
            alignment
        } else {
            found.alignment
        },
    }
}

fn make_volume(edges: EdgeLimits) -> (r: ImageInfo)
    ensures
        r == volume_image(edges),
{
    broadcast use vstd::std_specs::bits::axiom_u32_leading_zeros;

    let edge = min_u32(edges.max_3d, MAX_PROBE_EDGE);
    ImageInfo {
        flags: 0,
        image_type: IMAGE_TYPE_3D,
        format: FORMAT_R32G32B32A32_SFLOAT,
        width: edge,
        height: edge,
        depth: min_u32(edge, 4),
        mip_levels: 32 - edge.leading_zeros(),
        array_layers: 1,
        usage: USAGE_SAMPLED | USAGE_STORAGE | USAGE_TRANSFER_DST,
    }
}

fn make_single_use_image(format: Format, small: u32, limits: ImageLimits) -> (r: ImageInfo)
    ensures
        r == single_use_image(format, small, limits),
{
    let large = make_square(format.vk(), DEPTH_PROBE_EDGE, small);
    if fits_image_format_properties(&large, &limits) {
        large
    } else {
        make_square(format.vk(), 1, small)
    }
}

proof fn depth_state_is_wf(place: nat, found: TextureMemory, features: Seq<u64>)
    ensures
        forall|edges: EdgeLimits| #[trigger]
            depth_state(place, found, features).wf(features, edges),
    decreases DEPTH_FORMAT_COUNT - place,
{
    if place < DEPTH_FORMAT_COUNT {
        depth_state_is_wf(place + 1, found, features);
    }
}

proof fn depth_outcome(
    place: nat,
    found: TextureMemory,
    features: Seq<u64>,
    edges: EdgeLimits,
    limits_of: LimitsOf,
    requirements_of: RequirementsOf,
)
    ensures
        depth_state(place, found, features).outcome(features, edges, limits_of, requirements_of)
            == Some(with_depth(place, found, features, limits_of, requirements_of)),
    decreases DEPTH_FORMAT_COUNT - place,
{
    if place < DEPTH_FORMAT_COUNT {
        depth_outcome(place + 1, found, features, edges, limits_of, requirements_of);
    }
}

impl TextureMemory {
    /// The wish for the memory of textures: on the device, and not visible to the host if that can
    /// be had.
    pub open spec fn wish(self) -> MemoryWish {
        MemoryWish {
            bits: self.memory_type_bits,
            required: MEMORY_DEVICE_LOCAL,
            preferred: 0,
            avoided: MEMORY_HOST_VISIBLE,
            minimum_heap_size: 1,
        }
    }

    /// The memory type that textures live in, if the device has one.
    pub fn select_texture_memory_type(
        self,
        memory: &MemoryProperties,
        ext: ExtensionBits,
    ) -> (r: Option<u32>)
        requires
            memory.wf(),
        ensures
            match r {
                Some(index) => memory.best(index as int, self.wish(), ext),
                None => forall|i: int| !#[trigger] memory.eligible(i, self.wish(), ext),
            },
    {
        memory.find_memory_type(
            MemoryWish {
                bits: self.memory_type_bits,
                required: MEMORY_DEVICE_LOCAL,
                preferred: 0,
                avoided: MEMORY_HOST_VISIBLE,
                minimum_heap_size: 1,
            },
            ext,
        )
    }
}

/// An image is within limits exactly if each of its measures is.
pub proof fn images_fit_by_each_measure(info: ImageInfo, limits: ImageLimits)
    ensures
        !fits(info, limits) <==> {
            ||| info.width > limits.max_width
            ||| info.height > limits.max_height
            ||| info.depth > limits.max_depth
            ||| info.mip_levels > limits.max_mip_levels
            ||| info.array_layers > limits.max_array_layers
        },
        admitting(info, None) is None,
        admitting(info, Some(limits)) is Some <==> fits(info, limits),
        fits(info, limits) ==> admitting(info, Some(limits)) == Some(limits),
{
}

/// The image that stands for colors is sampled, and attached exactly if its format can be. It is as
/// large as the device allows, up to a bound.
pub proof fn color_images_are_sampled(features: Seq<u64>, edges: EdgeLimits)
    ensures
        ({
            let (rich, plain) = (color_image(features, edges), plain_color_image(edges));
            let offered = features[Format::Rgba8Unorm.spec_ordinal()];
            &&& rich == ImageInfo { usage: rich.usage, ..plain }
            &&& plain.usage == USAGE_SAMPLED
            &&& rich.usage == if has_all_u64(offered, FEATURE_COLOR_ATTACHMENT) {
                USAGE_SAMPLED | USAGE_COLOR_ATTACHMENT
            } else {
                USAGE_SAMPLED
            }
            &&& plain.format == Format::Rgba8Unorm.spec_vk()
            &&& plain.image_type == IMAGE_TYPE_2D
            &&& plain.width == plain.height
            &&& plain.width <= edges.max_2d
            &&& plain.width <= 2048
            &&& plain.width == edges.max_2d || plain.width == 2048
            &&& plain.depth == 1 && plain.mip_levels == 1 && plain.array_layers == 1
            &&& plain.flags == 0
        }),
{
}

/// The volume is as large as the device allows, up to a bound, at most 4 deep, and has every mip
/// level down to a single texel.
pub proof fn volumes_have_all_levels(edges: EdgeLimits)
    requires
        edges.max_3d > 0,
    ensures
        ({
            let info = volume_image(edges);
            let edge = info.width;
            &&& info.image_type == IMAGE_TYPE_3D
            &&& info.format == Format::Rgba32Float.spec_vk()
            &&& info.height == edge
            &&& edge <= edges.max_3d && edge <= 2048
            &&& edge == edges.max_3d || edge == 2048
            &&& info.depth <= 4 && info.depth <= edge && (info.depth == 4 || info.depth == edge)
            &&& info.array_layers == 1
            &&& 1 <= info.mip_levels <= 32
            &&& edge >> ((info.mip_levels - 1) as u32) == 1
            &&& info.usage == USAGE_SAMPLED | USAGE_STORAGE | USAGE_TRANSFER_DST
        }),
{
    let edge = volume_image(edges).width;
    vstd::std_specs::bits::axiom_u32_leading_zeros(edge);
    let zeros = vstd::std_specs::bits::u32_leading_zeros(edge);
    let (levels, shift) = ((32 - zeros) as u32, (31 - zeros) as u32);
    assert(edge >> shift == 1) by (bit_vector)
        requires
            shift < 32,
            levels == shift + 1,
            (edge >> shift) & 1u32 != 0u32,
            edge >> levels == 0,
            edge <= 2048,
    ;
}

/// The volume counts exactly if its format can be sampled, read and written, and copied to.
pub proof fn volumes_count_if_usable(features: Seq<u64>)
    ensures
        ({
            let offered = features[Format::Rgba32Float.spec_ordinal()];
            volume_wanted(features) <==> {
                &&& has_all_u64(offered, FEATURE_SAMPLED_IMAGE)
                &&& has_all_u64(offered, encoded(0x2, feature_table()))
                &&& has_all_u64(offered, FEATURE_TRANSFER_DST)
            }
        }),
{
    let offered = features[Format::Rgba32Float.spec_ordinal()];
    crate::flags::single_uses_need_their_features();
    crate::flags::encoded_of_union(0x1, 0x2, feature_table());
    crate::flags::encoded_of_union(0x3, 0x20, feature_table());
    let (x, y, z) = (
        encoded(0x1, feature_table()),
        encoded(0x2, feature_table()),
        encoded(0x20, feature_table()),
    );
    assert(0x1u64 | 0x2u64 == 0x3u64 && 0x3u64 | 0x20u64 == 0x23u64 && (0x1u32 | 0x2u32 | 0x20u32)
        == 0x23u32 && (offered & ((x | y) | z) == ((x | y) | z) <==> offered & x == x && offered & y
        == y && offered & z == z)) by (bit_vector);
}

/// The formats with depth or stencil are all asked about, each once, and no other is.
pub proof fn depth_formats_are_complete(format: Format)
    ensures
        depth_formats().contains(format) <==> has_depth(format) || has_stencil(format),
        depth_formats().no_duplicates(),
        depth_formats().len() == DEPTH_FORMAT_COUNT,
{
    let all = depth_formats();
    assert(all[0] == Format::D16Unorm && all[1] == Format::D24UnormS8Uint && all[2]
        == Format::D32Float && all[3] == Format::S8Uint && all[4] == Format::D32FloatS8Uint);
}

/// A depth format is asked about in a use that its features allow, where sampling goes before
/// attaching, attaching before storage, and storage before copies; those with both aspects are not
/// copied. One that allows none is passed over.
pub proof fn depth_uses_are_allowed(format: Format, features: Seq<u64>)
    ensures
        ({
            let offered = features[format.spec_ordinal()];
            let sampled = has_all_u64(offered, FEATURE_SAMPLED_IMAGE);
            let attached = has_all_u64(offered, FEATURE_DEPTH_STENCIL_ATTACHMENT);
            let stored = has_all_u64(offered, encoded(0x2, feature_table()));
            let copied = !(has_depth(format) && has_stencil(format));
            let source = copied && has_all_u64(offered, FEATURE_TRANSFER_SRC);
            let destination = copied && has_all_u64(offered, FEATURE_TRANSFER_DST);
            &&& depth_use(format, features) is None <==> !sampled && !attached && !stored && !source
                && !destination
            &&& depth_use(format, features) matches Some(usage) ==> {
                &&& sampled <==> usage == USAGE_SAMPLED
                &&& usage == USAGE_DEPTH_STENCIL_ATTACHMENT ==> attached
                &&& attached && !sampled ==> usage == USAGE_DEPTH_STENCIL_ATTACHMENT
                &&& usage == USAGE_STORAGE ==> stored && !sampled && !attached
                &&& stored && !sampled && !attached ==> usage == USAGE_STORAGE
                &&& usage == USAGE_TRANSFER_SRC ==> source && !stored
                &&& source && !sampled && !attached && !stored ==> usage == USAGE_TRANSFER_SRC
                &&& usage == USAGE_TRANSFER_DST ==> destination && !source
            }
        }),
{
}

/// The image that stands for a depth format is one that the device supports: in both uses where it
/// supports that, else in one use, and larger than one texel where that fits.
pub proof fn depth_images_are_supported(format: Format, features: Seq<u64>, limits_of: LimitsOf)
    ensures
        ({
            let small = square(format.spec_vk(), 1, depth_use(format, features)->0);
            let both = square(format.spec_vk(), 512, SAMPLED_ATTACHMENT);
            let large = ImageInfo { width: 512, height: 512, ..small };
            let limits = limits_of(small);
            let supported = depth_use(format, features) is Some && limits is Some && fits(
                small,
                limits->0,
            );
            let rich = sampled_and_attached(format, features) && limits_of(both) is Some && fits(
                both,
                limits_of(both)->0,
            );
            &&& depth_image(format, features, limits_of) is Some <==> supported
            &&& supported && rich ==> depth_image(format, features, limits_of) == Some(both)
            &&& supported && !rich && fits(large, limits->0) ==> depth_image(
                format,
                features,
                limits_of,
            ) == Some(large)
            &&& supported && !rich && !fits(large, limits->0) ==> depth_image(
                format,
                features,
                limits_of,
            ) == Some(small)
            &&& sampled_and_attached(format, features) <==> has_all_u64(
                features[format.spec_ordinal()],
                FEATURE_SAMPLED_IMAGE | FEATURE_DEPTH_STENCIL_ATTACHMENT,
            )
        }),
{
}

/// A square image is flat, has one level and one layer, and is as wide as high.
pub proof fn squares_are_flat(format: i32, edge: u32, usage: u32)
    ensures
        ({
            let info = square(format, edge, usage);
            &&& info.width == edge && info.height == edge && info.depth == 1
            &&& info.mip_levels == 1 && info.array_layers == 1
            &&& info.format == format
            &&& info.usage == usage
            &&& info.image_type == IMAGE_TYPE_2D
            &&& info.flags == 0
        }),
{
}

/// Whatever order images are asked about in, they leave the same: the memory types that all of them
/// share, and the largest alignment.
pub proof fn narrowing_has_no_order(
    found: TextureMemory,
    a: MemoryRequirements,
    b: MemoryRequirements,
    types: u32,
    bound: u64,
)
    ensures
        narrowed(narrowed(found, a), b) == narrowed(narrowed(found, b), a),
        has_all_u32(narrowed(found, a).memory_type_bits, types) <==> has_all_u32(
            found.memory_type_bits,
            types,
        ) && has_all_u32(a.memory_type_bits, types),
        narrowed(found, a).alignment <= bound <==> found.alignment <= bound && a.alignment <= bound,
        widened(found, a.alignment).memory_type_bits == found.memory_type_bits,
        widened(found, a.alignment).alignment <= bound <==> found.alignment <= bound && a.alignment
            <= bound,
        of_color(a).memory_type_bits == a.memory_type_bits,
        of_color(a).alignment <= bound <==> 16 <= bound && a.alignment <= bound,
{
    let (f, x, y) = (found.memory_type_bits, a.memory_type_bits, b.memory_type_bits);
    assert((f & x) & y == (f & y) & x && ((f & x) & types == types <==> f & types == types && x
        & types == types)) by (bit_vector);
}

proof fn depth_formats_narrow(
    place: nat,
    found: TextureMemory,
    features: Seq<u64>,
    limits_of: LimitsOf,
    requirements_of: RequirementsOf,
    types: u32,
    bound: u64,
)
    requires
        place <= DEPTH_FORMAT_COUNT,
    ensures
        ({
            let left = with_depth(place, found, features, limits_of, requirements_of);
            &&& has_all_u32(left.memory_type_bits, types) <==> has_all_u32(
                found.memory_type_bits,
                types,
            ) && forall|k: int|
                place <= k < DEPTH_FORMAT_COUNT ==> (depth_image(
                    #[trigger] depth_formats()[k],
                    features,
                    limits_of,
                ) matches Some(info) ==> has_all_u32(requirements_of(info).memory_type_bits, types))
            &&& left.alignment <= bound <==> found.alignment <= bound && forall|k: int|
                place <= k < DEPTH_FORMAT_COUNT ==> (depth_image(
                    #[trigger] depth_formats()[k],
                    features,
                    limits_of,
                ) matches Some(info) ==> requirements_of(info).alignment <= bound)
        }),
    decreases DEPTH_FORMAT_COUNT - place,
{
    if place < DEPTH_FORMAT_COUNT {
        let image = depth_image(depth_formats()[place as int], features, limits_of);
        let next = match image {
            None => found,
            Some(info) => narrowed(found, requirements_of(info)),
        };
        if let Some(info) = image {
            let asked = requirements_of(info);
            narrowing_has_no_order(found, asked, asked, types, bound);
        }
        depth_formats_narrow(
            place + 1,
            next,
            features,
            limits_of,
            requirements_of,
            types,
            bound,
        );
    }
}

/// The memory of textures suits all of them: a type is left exactly if it can hold the color image
/// and the image of every depth format that counts. The alignment is the least that suits them and
/// the volume, and at least that of every allocation.
pub proof fn texture_memory_suits_all(
    features: Seq<u64>,
    edges: EdgeLimits,
    limits_of: LimitsOf,
    requirements_of: RequirementsOf,
    types: u32,
    bound: u64,
)
    requires
        texture_memory(features, edges, limits_of, requirements_of) is Some,
    ensures
        ({
            let found = texture_memory(features, edges, limits_of, requirements_of)->0;
            let color = counting_color_image(features, edges, limits_of)->0;
            let volume = volume_image(edges);
            let counts = volume_wanted(features) && limits_of(volume) is Some && fits(
                volume,
                limits_of(volume)->0,
            );
            &&& has_all_u32(found.memory_type_bits, types) <==> has_all_u32(
                requirements_of(color).memory_type_bits,
                types,
            ) && forall|k: int|
                0 <= k < DEPTH_FORMAT_COUNT ==> (depth_image(
                    #[trigger] depth_formats()[k],
                    features,
                    limits_of,
                ) matches Some(info) ==> has_all_u32(requirements_of(info).memory_type_bits, types))
            &&& found.alignment <= bound <==> {
                &&& 16 <= bound
                &&& requirements_of(color).alignment <= bound
                &&& counts ==> requirements_of(volume).alignment <= bound
                &&& forall|k: int|
                    0 <= k < DEPTH_FORMAT_COUNT ==> (depth_image(
                        #[trigger] depth_formats()[k],
                        features,
                        limits_of,
                    ) matches Some(info) ==> requirements_of(info).alignment <= bound)
            }
        }),
{
    let color = counting_color_image(features, edges, limits_of)->0;
    let asked = requirements_of(color);
    let first = of_color(asked);
    let second = with_volume(first, features, edges, limits_of, requirements_of);
    narrowing_has_no_order(first, asked, asked, types, bound);
    narrowing_has_no_order(
        first,
        requirements_of(volume_image(edges)),
        asked,
        types,
        bound,
    );
    depth_formats_narrow(0, second, features, limits_of, requirements_of, types, bound);
}

/// Textures have memory exactly if colors can be sampled and the device supports an image of them;
/// one that can be attached too counts before one that cannot.
pub proof fn textures_need_a_color_image(
    features: Seq<u64>,
    edges: EdgeLimits,
    limits_of: LimitsOf,
    requirements_of: RequirementsOf,
)
    ensures
        ({
            let (rich, plain) = (color_image(features, edges), plain_color_image(edges));
            let sampled = has_all_u64(
                features[Format::Rgba8Unorm.spec_ordinal()],
                FEATURE_SAMPLED_IMAGE,
            );
            let rich_fits = limits_of(rich) is Some && fits(rich, limits_of(rich)->0);
            let plain_fits = limits_of(plain) is Some && fits(plain, limits_of(plain)->0);
            let counting = counting_color_image(features, edges, limits_of);
            &&& texture_memory(features, edges, limits_of, requirements_of) is Some <==> sampled && (
            rich_fits || plain_fits)
            &&& counting is Some <==> sampled && (rich_fits || plain_fits)
            &&& sampled && rich_fits ==> counting == Some(rich)
            &&& sampled && !rich_fits && plain_fits ==> counting == Some(plain)
        }),
{
}

/// Textures live in memory of the device that all of them can use, away from the host if that can be
/// had.
pub proof fn textures_live_on_the_device(found: TextureMemory)
    ensures
        found.wish().bits == found.memory_type_bits,
        found.wish().required == MEMORY_DEVICE_LOCAL,
        found.wish().avoided == MEMORY_HOST_VISIBLE,
        found.wish().preferred == 0,
        found.wish().minimum_heap_size == 1,
{
}

} // verus!
