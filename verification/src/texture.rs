//! Textures: descriptions, images, views, copies and descriptors.

use crate::enums::{TextureAspect, TextureDescriptorType, TextureType};
use crate::flags::{
    encoded, encoded_u32, feature_table, has_all_u64, has_any_u32, image_usage,
    required_format_features, usage_table, TextureUsage,
};
use crate::format::{
    all_formats, aspects_of, block_edge, bytes_per_block, compatible_view_formats,
    get_texture_format_info, has_depth, has_stencil, image_aspects, view_compatible, Format,
    FORMAT_COUNT,
};
use crate::heap::GpuRange;
use crate::vulkan::{
    ASPECT_COLOR, ASPECT_DEPTH, ASPECT_STENCIL, DESCRIPTOR_SAMPLED_IMAGE,
    DESCRIPTOR_STORAGE_IMAGE, FEATURE_COLOR_ATTACHMENT, FEATURE_DEPTH_STENCIL_ATTACHMENT,
    FEATURE_SAMPLED_IMAGE, FEATURE_STORAGE_IMAGE, FEATURE_STORAGE_READ_WITHOUT_FORMAT,
    FEATURE_STORAGE_WRITE_WITHOUT_FORMAT, FEATURE_TRANSFER_DST, FEATURE_TRANSFER_SRC,
    IMAGE_CREATE_CUBE_COMPATIBLE, IMAGE_CREATE_MUTABLE_FORMAT,
    REMAINING, USAGE_SAMPLED, USAGE_STORAGE, VIEW_TYPE_2D,
};
use vstd::prelude::*;

verus! {

/// Three 32-bit numbers.
#[derive(Clone, Copy, Debug, PartialEq, Eq, Structural)]
pub struct Uint32x3 {
    pub x: u32,
    pub y: u32,
    pub z: u32,
}

impl Default for Uint32x3 {
    fn default() -> (r: Self)
        ensures
            r == (Uint32x3 { x: 0, y: 0, z: 0 }),
    {
        Uint32x3 { x: 0, y: 0, z: 0 }
    }
}

/// A size and an alignment, in bytes.
#[derive(Clone, Copy, Debug, PartialEq, Eq, Structural)]
pub struct SizeAlign {
    pub size: u64,
    pub align: u64,
}

impl Default for SizeAlign {
    fn default() -> (r: Self)
        ensures
            r == (SizeAlign { size: 0, align: 0 }),
    {
        SizeAlign { size: 0, align: 0 }
    }
}

/// A texture to create.
#[derive(Clone, Copy, Debug, PartialEq, Eq, Structural)]
pub struct TextureDesc {
    pub texture_type: TextureType,
    pub extent: Uint32x3,
    pub mip_levels: u32,
    pub layer_count: u32,
    pub format: Format,
    /// Whether views may have another format.
    pub mutable_format: bool,
    pub usage: TextureUsage,
}

impl Default for TextureDesc {
    fn default() -> (r: Self)
        ensures
            r == (TextureDesc {
                texture_type: TextureType::TwoD,
                extent: Uint32x3 { x: 1, y: 1, z: 1 },
                mip_levels: 1,
                layer_count: 1,
                format: Format::Rgba8Unorm,
                mutable_format: false,
                usage: TextureUsage::sampled(),
            }),
    {
        TextureDesc {
            texture_type: TextureType::TwoD,
            extent: Uint32x3 { x: 1, y: 1, z: 1 },
            mip_levels: 1,
            layer_count: 1,
            format: Format::Rgba8Unorm,
            mutable_format: false,
            usage: TextureUsage::sampled(),
        }
    }
}

/// The mip level and slice that a render view shows.
#[derive(Clone, Copy, Debug, PartialEq, Eq, Structural)]
pub struct RenderViewDesc {
    pub mip_level: u32,
    pub slice: u32,
}

impl Default for RenderViewDesc {
    fn default() -> (r: Self)
        ensures
            r == (RenderViewDesc { mip_level: 0, slice: 0 }),
    {
        RenderViewDesc { mip_level: 0, slice: 0 }
    }
}

/// The part of a texture that a descriptor shows. A count of 0 stands for all that remain, the
/// undefined format for the texture's own.
#[derive(Clone, Copy, Debug, PartialEq, Eq, Structural)]
pub struct TextureDescriptorDesc {
    pub format: Format,
    pub aspect: TextureAspect,
    pub base_mip: u32,
    pub mip_count: u32,
    pub base_layer: u32,
    pub layer_count: u32,
}

impl Default for TextureDescriptorDesc {
    fn default() -> (r: Self)
        ensures
            r == (TextureDescriptorDesc {
                format: Format::Undefined,
                aspect: TextureAspect::Automatic,
                base_mip: 0,
                mip_count: 0,
                base_layer: 0,
                layer_count: 0,
            }),
    {
        TextureDescriptorDesc {
            format: Format::Undefined,
            aspect: TextureAspect::Automatic,
            base_mip: 0,
            mip_count: 0,
            base_layer: 0,
            layer_count: 0,
        }
    }
}

/// A copy between memory and a texture. An extent or count of 0 stands for all that remains, a
/// pitch of 0 for tightly packed texels.
#[derive(Clone, Copy, Debug, PartialEq, Eq, Structural)]
pub struct TextureCopyDesc {
    pub mip_level: u32,
    pub base_slice: u32,
    pub slice_count: u32,
    pub offset: Uint32x3,
    pub extent: Uint32x3,
    pub row_pitch_bytes: u64,
    pub slice_pitch_bytes: u64,
}

impl Default for TextureCopyDesc {
    fn default() -> (r: Self)
        ensures
            r == (TextureCopyDesc {
                mip_level: 0,
                base_slice: 0,
                slice_count: 0,
                offset: Uint32x3 { x: 0, y: 0, z: 0 },
                extent: Uint32x3 { x: 0, y: 0, z: 0 },
                row_pitch_bytes: 0,
                slice_pitch_bytes: 0,
            }),
    {
        TextureCopyDesc {
            mip_level: 0,
            base_slice: 0,
            slice_count: 0,
            offset: Uint32x3 { x: 0, y: 0, z: 0 },
            extent: Uint32x3 { x: 0, y: 0, z: 0 },
            row_pitch_bytes: 0,
            slice_pitch_bytes: 0,
        }
    }
}

/// A texture that belongs to the device.
#[derive(Debug)]
pub struct Texture {
    pub image: u64,
    pub width: u32,
    pub height: u32,
    pub depth: u32,
    pub layer_count: u32,
    pub texture_type: TextureType,
    pub format: Format,
}

/// A view that can be rendered to.
#[derive(Debug, PartialEq, Eq, Structural)]
pub struct RenderView {
    pub view: u64,
    pub width: u32,
    pub height: u32,
    /// Whether the view shows an image of the swapchain.
    pub swapchain_view: bool,
}

/// An image that has not been used yet: its content and layout are undefined.
#[derive(Clone, Copy, Debug, PartialEq, Eq, Structural)]
pub struct TextureInitialization {
    pub image: u64,
    pub aspect_mask: u32,
    pub mip_levels: u32,
    pub array_layers: u32,
}

/// An optimally tiled, single-sampled image in exclusive use, with an undefined initial layout.
#[derive(Clone, Copy, Debug, PartialEq, Eq, Structural)]
pub struct ImageInfo {
    pub flags: u32,
    pub image_type: i32,
    pub format: i32,
    pub width: u32,
    pub height: u32,
    pub depth: u32,
    pub mip_levels: u32,
    pub array_layers: u32,
    pub usage: u32,
}

/// An image to create, and the formats that its views may have.
#[derive(Debug)]
pub struct PreparedTexture {
    /// The Vulkan formats of views, the image's own first.
    pub view_formats: Vec<i32>,
    pub image_info: ImageInfo,
}

/// An image to bind to memory, at a distance from the start of the memory.
#[derive(Clone, Copy, Debug, PartialEq, Eq, Structural)]
pub struct ImageBinding {
    pub image: u64,
    pub memory: u64,
    pub offset: u64,
}

/// Whether a texture of the description can have a view of format `view`, given the features of
/// each format: it must be compatible and serve one of the shader uses.
pub open spec fn is_extra_view(desc: TextureDesc, features: Seq<u64>, view: Format) -> bool {
    let f = features[view.spec_ordinal()];
    &&& view != desc.format
    &&& view_compatible(desc.format, view)
    &&& {
        ||| has_any_u32(desc.usage.0, TextureUsage::sampled().0) && has_all_u64(
            f,
            encoded(TextureUsage::sampled().0 as u64, feature_table()),
        )
        ||| has_any_u32(desc.usage.0, TextureUsage::storage().0) && has_all_u64(
            f,
            encoded(TextureUsage::storage().0 as u64, feature_table()),
        )
    }
}

/// The Vulkan formats of the extra views, in the order of the formats.
pub open spec fn extra_views(desc: TextureDesc, features: Seq<u64>, formats: Seq<Format>) -> Seq<i32>
    decreases formats.len(),
{
    if formats.len() == 0 {
        seq![]
    } else {
        let rest = extra_views(desc, features, formats.drop_last());
        if is_extra_view(desc, features, formats.last()) {
            rest.push(formats.last().spec_vk())
        } else {
            rest
        }
    }
}

/// The Vulkan formats that views of a texture of the description may have.
pub open spec fn view_formats_of(desc: TextureDesc, features: Seq<u64>) -> Seq<i32> {
    seq![desc.format.spec_vk()] + if desc.mutable_format {
        extra_views(desc, features, all_formats())
    } else {
        seq![]
    }
}

/// The image of a texture of the description.
pub open spec fn image_info_of(desc: TextureDesc, features: Seq<u64>) -> ImageInfo {
    let cube: u32 = if desc.texture_type is Cube || desc.texture_type is CubeArray {
        IMAGE_CREATE_CUBE_COMPATIBLE
    } else {
        0
    };
    let mutable: u32 = if view_formats_of(desc, features).len() > 1 {
        IMAGE_CREATE_MUTABLE_FORMAT
    } else {
        0
    };
    ImageInfo {
        flags: cube | mutable,
        image_type: desc.texture_type.spec_vk(),
        format: desc.format.spec_vk(),
        width: desc.extent.x,
        height: desc.extent.y,
        depth: desc.extent.z,
        mip_levels: desc.mip_levels,
        array_layers: desc.layer_count,
        usage: encoded_u32(desc.usage.0, usage_table()),
    }
}

impl PreparedTexture {
    /// Prepares the image of a texture. `features` holds the features of each format.
    pub fn new(desc: &TextureDesc, features: &Vec<u64>) -> (r: Self)
        requires
            features@.len() == FORMAT_COUNT,
        ensures
            r.view_formats@ == view_formats_of(*desc, features@),
            r.image_info == image_info_of(*desc, features@),
    {
        let mut view_formats: Vec<i32> = Vec::new();
        view_formats.push(desc.format.vk());
        if desc.mutable_format {
            let formats = crate::format::formats();
            let mut i: usize = 0;
            assert(view_formats@ =~= seq![desc.format.spec_vk()] + extra_views(
                *desc,
                features@,
                formats@.take(0),
            ));
            while i < formats.len()
                invariant
                    i <= formats@.len(),
                    formats@ == all_formats(),
                    features@.len() == FORMAT_COUNT,
                    view_formats@ == seq![desc.format.spec_vk()] + extra_views(
                        *desc,
                        features@,
                        formats@.take(i as int),
                    ),
                decreases formats@.len() - i,
            {
                let format = formats[i];
                proof {
                    assert(formats@.take(i + 1).drop_last() =~= formats@.take(i as int));
                    crate::format::all_formats_ordered(i as int);
                }
                let ghost before = view_formats@;
                if format != desc.format && compatible_view_formats(desc.format, format) {
                    let f = features[format.ordinal()];
                    let sampled = desc.usage.intersects(TextureUsage::sampled()) && {
                        let needed = required_format_features(TextureUsage::sampled());
                        f & needed == needed
                    };
                    let storage = desc.usage.intersects(TextureUsage::storage()) && {
                        let needed = required_format_features(TextureUsage::storage());
                        f & needed == needed
                    };
                    if sampled || storage {
                        view_formats.push(format.vk());
                        assert(view_formats@ =~= seq![desc.format.spec_vk()] + extra_views(
                            *desc,
                            features@,
                            formats@.take(i + 1),
                        ));
                    }
                }
                i += 1;
            }
            assert(formats@.take(i as int) =~= all_formats());
        }
        assert(view_formats@ =~= view_formats_of(*desc, features@));
        let cube: u32 = if matches!(desc.texture_type, TextureType::Cube | TextureType::CubeArray) {
            IMAGE_CREATE_CUBE_COMPATIBLE
        } else {
            0
        };
        let mutable: u32 = if view_formats.len() > 1 {
            IMAGE_CREATE_MUTABLE_FORMAT
        } else {
            0
        };
        PreparedTexture {
            view_formats,
            image_info: ImageInfo {
                flags: cube | mutable,
                image_type: desc.texture_type.vk(),
                format: desc.format.vk(),
                width: desc.extent.x,
                height: desc.extent.y,
                depth: desc.extent.z,
                mip_levels: desc.mip_levels,
                array_layers: desc.layer_count,
                usage: image_usage(desc.usage),
            },
        }
    }

    /// The formats to list when the image is created: all of its views' formats, where they may
    /// have another than the image's own.
    pub fn format_list(&self) -> (r: Option<&Vec<i32>>)
        ensures
            r is Some <==> self.view_formats@.len() > 1,
            r matches Some(formats) ==> *formats == self.view_formats,
    {
        if self.view_formats.len() > 1 {
            Some(&self.view_formats)
        } else {
            None
        }
    }
}

/// The largest level of an edge: the whole edge, halved once for each level, and at least 1.
pub open spec fn mip_edge(edge: u32, level: u32) -> u32 {
    if edge >> level == 0 {
        1
    } else {
        edge >> level
    }
}

fn mip_edge_of(edge: u32, level: u32) -> (r: u32)
    requires
        level < 32,
    ensures
        r == mip_edge(edge, level),
{
    let shifted = edge >> level;
    if shifted == 0 {
        1
    } else {
        shifted
    }
}

/// A region of a copy between memory and an image in the general layout.
#[derive(Clone, Copy, Debug, PartialEq, Eq, Structural)]
pub struct CopyRegion {
    pub address: u64,
    pub size: u64,
    /// Texels from one row to the next in memory; 0 for tightly packed rows.
    pub row_length: u32,
    /// Rows from one slice to the next in memory; 0 for tightly packed slices.
    pub image_height: u32,
    pub aspect_mask: u32,
    pub mip_level: u32,
    pub base_layer: u32,
    pub layer_count: u32,
    pub offset_x: i32,
    pub offset_y: i32,
    pub offset_z: i32,
    pub width: u32,
    pub height: u32,
    pub depth: u32,
}

/// What is copied along one edge: `extent` texels, or all from `offset` on where it is 0.
pub open spec fn copy_edge(edge: u32, level: u32, offset: u32, extent: u32) -> int {
    if extent == 0 {
        mip_edge(edge, level) - offset
    } else {
        extent as int
    }
}

/// Bytes from one row of blocks to the next: as given, or tightly packed.
pub open spec fn copy_row_pitch(texture: &Texture, copy: TextureCopyDesc) -> int {
    if copy.row_pitch_bytes == 0 {
        let width = copy_edge(texture.width, copy.mip_level, copy.offset.x, copy.extent.x);
        let edge = block_edge(texture.format) as int;
        ((width + edge - 1) / edge) * bytes_per_block(texture.format)
    } else {
        copy.row_pitch_bytes as int
    }
}

/// Rows from one slice to the next, in texels: 0 where slices are tightly packed.
pub open spec fn copy_image_height(texture: &Texture, copy: TextureCopyDesc) -> int {
    if copy.slice_pitch_bytes == 0 {
        0
    } else {
        (copy.slice_pitch_bytes as int / copy_row_pitch(texture, copy)) * block_edge(texture.format)
    }
}

/// The copy makes sense for the texture: its format is defined, the mip level is within the bits
/// of an edge, what remains is not negative, and pitches have something to divide by.
pub open spec fn copyable(texture: &Texture, copy: TextureCopyDesc) -> bool {
    &&& !(texture.format is Undefined)
    &&& copy.mip_level < 32
    &&& copy_edge(texture.width, copy.mip_level, copy.offset.x, copy.extent.x) >= 0
    &&& copy_edge(texture.height, copy.mip_level, copy.offset.y, copy.extent.y) >= 0
    &&& copy_edge(texture.depth, copy.mip_level, copy.offset.z, copy.extent.z) >= 0
    &&& copy.slice_count == 0 ==> copy.base_slice <= texture.layer_count
    &&& copy.slice_pitch_bytes != 0 ==> copy_row_pitch(texture, copy) != 0
    &&& copy_image_height(texture, copy) <= u64::MAX
}

/// What is copied along one edge, unless it is negative.
fn copied_edge(edge: u32, level: u32, offset: u32, extent: u32) -> (r: Option<u32>)
    requires
        level < 32,
    ensures
        match r {
            Some(copied) => copied == copy_edge(edge, level, offset, extent),
            None => copy_edge(edge, level, offset, extent) < 0,
        },
{
    if extent == 0 {
        mip_edge_of(edge, level).checked_sub(offset)
    } else {
        Some(extent)
    }
}

/// Whether the copy makes sense for the texture.
pub fn can_copy(texture: &Texture, copy: &TextureCopyDesc) -> (r: bool)
    ensures
        r == copyable(texture, *copy),
{
    if texture.format == Format::Undefined || copy.mip_level >= 32 {
        return false;
    }
    let level = copy.mip_level;
    let width = match copied_edge(texture.width, level, copy.offset.x, copy.extent.x) {
        Some(width) => width,
        None => return false,
    };
    if copied_edge(texture.height, level, copy.offset.y, copy.extent.y).is_none()
        || copied_edge(texture.depth, level, copy.offset.z, copy.extent.z).is_none() || (
    copy.slice_count == 0 && copy.base_slice > texture.layer_count) {
        return false;
    }
    if copy.slice_pitch_bytes == 0 {
        return true;
    }
    let format = get_texture_format_info(texture.format);
    let block = format.block_extent.x as u64;
    let bytes = format.bytes_per_block as u64;
    let row_pitch = if copy.row_pitch_bytes == 0 {
        let blocks = (width as u64 + (block - 1)) / block;
        assert(blocks * bytes <= 0x1_0000_0003 * 16) by (nonlinear_arith)
            requires
                0 <= blocks <= 0x1_0000_0003,
                0 <= bytes <= 16,
        ;
        blocks * bytes
    } else {
        copy.row_pitch_bytes
    };
    row_pitch != 0 && (copy.slice_pitch_bytes / row_pitch).checked_mul(block).is_some()
}

/// The region that the copy covers. Lengths and offsets keep their low 32 bits.
pub open spec fn copy_region(
    texture: &Texture,
    copy: TextureCopyDesc,
    memory: GpuRange,
) -> CopyRegion {
    CopyRegion {
        address: memory.gpu,
        size: memory.size,
        row_length: (copy.row_pitch_bytes as int / bytes_per_block(texture.format) as int
            * block_edge(texture.format)) as u32,
        image_height: copy_image_height(texture, copy) as u32,
        aspect_mask: aspects_of(texture.format),
        mip_level: copy.mip_level,
        base_layer: copy.base_slice,
        layer_count: if copy.slice_count == 0 {
            (texture.layer_count - copy.base_slice) as u32
        } else {
            copy.slice_count
        },
        offset_x: copy.offset.x as i32,
        offset_y: copy.offset.y as i32,
        offset_z: copy.offset.z as i32,
        width: copy_edge(texture.width, copy.mip_level, copy.offset.x, copy.extent.x) as u32,
        height: copy_edge(texture.height, copy.mip_level, copy.offset.y, copy.extent.y) as u32,
        depth: copy_edge(texture.depth, copy.mip_level, copy.offset.z, copy.extent.z) as u32,
    }
}

/// The region that the copy covers.
pub fn make_texture_copy_region(
    texture: &Texture,
    copy: &TextureCopyDesc,
    memory: GpuRange,
) -> (r: CopyRegion)
    requires
        copyable(texture, *copy),
    ensures
        r == copy_region(texture, *copy, memory),
{
    let width = if copy.extent.x == 0 {
        mip_edge_of(texture.width, copy.mip_level) - copy.offset.x
    } else {
        copy.extent.x
    };
    let height = if copy.extent.y == 0 {
        mip_edge_of(texture.height, copy.mip_level) - copy.offset.y
    } else {
        copy.extent.y
    };
    let depth = if copy.extent.z == 0 {
        mip_edge_of(texture.depth, copy.mip_level) - copy.offset.z
    } else {
        copy.extent.z
    };
    let format = get_texture_format_info(texture.format);
    let block = format.block_extent.x as u64;
    let bytes = format.bytes_per_block as u64;
    let row_pitch = if copy.row_pitch_bytes == 0 {
        let blocks = (width as u64 + (block - 1)) / block;
        assert(blocks * bytes <= 0x1_0000_0003 * 16) by (nonlinear_arith)
            requires
                0 <= blocks <= 0x1_0000_0003,
                0 <= bytes <= 16,
        ;
        blocks * bytes
    } else {
        copy.row_pitch_bytes
    };
    proof {
        let q = copy.row_pitch_bytes as int / bytes as int;
        assert(q * block <= copy.row_pitch_bytes) by (nonlinear_arith)
            requires
                q == copy.row_pitch_bytes as int / bytes as int,
                1 <= block <= bytes,
        ;
    }
    let row_length = (copy.row_pitch_bytes / bytes * block) as u32;
    let image_height: u32 = if copy.slice_pitch_bytes == 0 {
        0
    } else {
        (copy.slice_pitch_bytes / row_pitch * block) as u32
    };
    let layer_count = if copy.slice_count == 0 {
        texture.layer_count - copy.base_slice
    } else {
        copy.slice_count
    };
    CopyRegion {
        address: memory.gpu,
        size: memory.size,
        row_length,
        image_height,
        aspect_mask: image_aspects(texture.format),
        mip_level: copy.mip_level,
        base_layer: copy.base_slice,
        layer_count,
        offset_x: copy.offset.x as i32,
        offset_y: copy.offset.y as i32,
        offset_z: copy.offset.z as i32,
        width,
        height,
        depth,
    }
}

/// A copy that leaves offsets, extents, counts and pitches at 0 covers the whole mip level, in all
/// layers, tightly packed.
pub proof fn default_copy_is_whole(texture: &Texture, level: u32, memory: GpuRange)
    requires
        !(texture.format is Undefined),
        level < 32,
    ensures
        ({
            let copy = TextureCopyDesc {
                mip_level: level,
                base_slice: 0,
                slice_count: 0,
                offset: Uint32x3 { x: 0, y: 0, z: 0 },
                extent: Uint32x3 { x: 0, y: 0, z: 0 },
                row_pitch_bytes: 0,
                slice_pitch_bytes: 0,
            };
            let region = copy_region(texture, copy, memory);
            &&& copyable(texture, copy)
            &&& region.width == mip_edge(texture.width, level)
            &&& region.height == mip_edge(texture.height, level)
            &&& region.depth == mip_edge(texture.depth, level)
            &&& region.layer_count == texture.layer_count
            &&& region.row_length == 0
            &&& region.image_height == 0
        }),
{
    assert(0int / bytes_per_block(texture.format) as int * block_edge(texture.format) == 0)
        by (nonlinear_arith)
        requires
            bytes_per_block(texture.format) > 0,
    ;
}

/// A view of an image.
#[derive(Clone, Copy, Debug, PartialEq, Eq, Structural)]
pub struct ImageViewInfo {
    pub image: u64,
    pub view_type: i32,
    pub format: i32,
    pub aspect_mask: u32,
    pub base_mip: u32,
    pub mip_count: u32,
    pub base_layer: u32,
    pub layer_count: u32,
}

/// The view to create for rendering to a mip level and slice of the texture.
pub open spec fn render_view_info(texture: &Texture, desc: RenderViewDesc) -> ImageViewInfo {
    ImageViewInfo {
        image: texture.image,
        view_type: VIEW_TYPE_2D,
        format: texture.format.spec_vk(),
        aspect_mask: aspects_of(texture.format),
        base_mip: desc.mip_level,
        mip_count: 1,
        base_layer: desc.slice,
        layer_count: 1,
    }
}

/// The view to create for rendering to a mip level and slice of the texture.
pub fn make_render_view_info(texture: &Texture, desc: &RenderViewDesc) -> (r: ImageViewInfo)
    ensures
        r == render_view_info(texture, *desc),
{
    ImageViewInfo {
        image: texture.image,
        view_type: VIEW_TYPE_2D,
        format: texture.format.vk(),
        aspect_mask: image_aspects(texture.format),
        base_mip: desc.mip_level,
        mip_count: 1,
        base_layer: desc.slice,
        layer_count: 1,
    }
}

/// The render view that the image view `view` is.
pub open spec fn render_view_of(texture: &Texture, desc: RenderViewDesc, view: u64) -> RenderView {
    RenderView {
        view,
        width: mip_edge(texture.width, desc.mip_level),
        height: mip_edge(texture.height, desc.mip_level),
        swapchain_view: false,
    }
}

/// The render view that the image view `view` is.
pub fn make_render_view(texture: &Texture, desc: &RenderViewDesc, view: u64) -> (r: RenderView)
    requires
        desc.mip_level < 32,
    ensures
        r == render_view_of(texture, *desc, view),
{
    RenderView {
        view,
        width: mip_edge_of(texture.width, desc.mip_level),
        height: mip_edge_of(texture.height, desc.mip_level),
        swapchain_view: false,
    }
}

/// A descriptor of an image in the general layout.
#[derive(Clone, Copy, Debug, PartialEq, Eq, Structural)]
pub struct TextureDescriptor {
    pub view: ImageViewInfo,
    /// The one usage that the view keeps.
    pub usage: u32,
    pub descriptor_type: i32,
}

/// The aspect that a descriptor shows. Where it is automatic, depth goes before stencil, and
/// stencil before color.
pub open spec fn descriptor_aspect(format: Format, aspect: TextureAspect) -> u32 {
    match aspect {
        TextureAspect::Automatic => if has_depth(format) {
            ASPECT_DEPTH
        } else if has_stencil(format) {
            ASPECT_STENCIL
        } else {
            ASPECT_COLOR
        },
        TextureAspect::Color => ASPECT_COLOR,
        TextureAspect::Depth => ASPECT_DEPTH,
        TextureAspect::Stencil => ASPECT_STENCIL,
    }
}

/// The descriptor of the texture.
pub open spec fn texture_descriptor(
    texture: &Texture,
    descriptor_type: TextureDescriptorType,
    desc: TextureDescriptorDesc,
) -> TextureDescriptor {
    TextureDescriptor {
        view: ImageViewInfo {
            image: texture.image,
            view_type: texture.texture_type.spec_vk_view(),
            format: if desc.format is Undefined {
                texture.format.spec_vk()
            } else {
                desc.format.spec_vk()
            },
            aspect_mask: descriptor_aspect(texture.format, desc.aspect),
            base_mip: desc.base_mip,
            mip_count: if desc.mip_count == 0 {
                REMAINING
            } else {
                desc.mip_count
            },
            base_layer: desc.base_layer,
            layer_count: if desc.layer_count == 0 {
                REMAINING
            } else {
                desc.layer_count
            },
        },
        usage: if descriptor_type is Sampled {
            USAGE_SAMPLED
        } else {
            USAGE_STORAGE
        },
        descriptor_type: if descriptor_type is Sampled {
            DESCRIPTOR_SAMPLED_IMAGE
        } else {
            DESCRIPTOR_STORAGE_IMAGE
        },
    }
}

/// The descriptor of the texture.
pub fn make_texture_descriptor(
    texture: &Texture,
    descriptor_type: TextureDescriptorType,
    desc: &TextureDescriptorDesc,
) -> (r: TextureDescriptor)
    ensures
        r == texture_descriptor(texture, descriptor_type, *desc),
{
    let info = get_texture_format_info(texture.format);
    let aspect_mask = match desc.aspect {
        TextureAspect::Automatic => if info.depth {
            ASPECT_DEPTH
        } else if info.stencil {
            ASPECT_STENCIL
        } else {
            ASPECT_COLOR
        },
        TextureAspect::Color => ASPECT_COLOR,
        TextureAspect::Depth => ASPECT_DEPTH,
        TextureAspect::Stencil => ASPECT_STENCIL,
    };
    let format = if desc.format == Format::Undefined {
        texture.format
    } else {
        desc.format
    };
    let mip_count = if desc.mip_count == 0 {
        REMAINING
    } else {
        desc.mip_count
    };
    let layer_count = if desc.layer_count == 0 {
        REMAINING
    } else {
        desc.layer_count
    };
    let (usage, descriptor_type): (u32, i32) = match descriptor_type {
        TextureDescriptorType::Sampled => (USAGE_SAMPLED, DESCRIPTOR_SAMPLED_IMAGE),
        TextureDescriptorType::Storage => (USAGE_STORAGE, DESCRIPTOR_STORAGE_IMAGE),
    };
    TextureDescriptor {
        view: ImageViewInfo {
            image: texture.image,
            view_type: texture.texture_type.vk_view(),
            format: format.vk(),
            aspect_mask,
            base_mip: desc.base_mip,
            mip_count,
            base_layer: desc.base_layer,
            layer_count,
        },
        usage,
        descriptor_type,
    }
}

/// Compressed formats that the device can decode.
#[derive(Clone, Copy, Debug, PartialEq, Eq, Structural)]
pub struct Compression {
    pub bc: bool,
    pub astc: bool,
    pub etc2: bool,
}

impl Compression {
    /// The format needs no decoder that the device lacks.
    pub open spec fn decodes(self, format: Format) -> bool {
        match format {
            Format::EacRg => self.etc2,
            Format::Astc4x4Srgb | Format::Astc4x4Unorm => self.astc,
            Format::Bc3Srgb
            | Format::Bc3Unorm
            | Format::Bc5Rg
            | Format::Bc7Srgb
            | Format::Bc7Unorm => self.bc,
            _ => true,
        }
    }
}

/// The use makes sense for the format: color attachments have no depth or stencil, depth-stencil
/// attachments have one, and combined formats are not copied.
pub open spec fn use_fits_format(format: Format, usage: TextureUsage) -> bool {
    let (depth, stencil) = (has_depth(format), has_stencil(format));
    &&& has_any_u32(usage.0, TextureUsage::color_attachment().0) ==> !depth && !stencil
    &&& has_any_u32(usage.0, TextureUsage::depth_stencil_attachment().0) ==> depth || stencil
    &&& has_any_u32(
        usage.0,
        TextureUsage::transfer_source().0 | TextureUsage::transfer_destination().0,
    ) ==> !(depth && stencil)
}

/// Textures of the format can be used so on a device with these format features and decoders.
pub open spec fn texture_format_supported(
    format: Format,
    usage: TextureUsage,
    features: Seq<u64>,
    compression: Compression,
) -> bool {
    &&& use_fits_format(format, usage)
    &&& compression.decodes(format)
    &&& has_all_u64(features[format.spec_ordinal()], encoded(usage.0 as u64, feature_table()))
}

/// The use asks for something, and for nothing unknown.
pub open spec fn is_usage(usage: TextureUsage) -> bool {
    usage.0 != 0 && usage.0 & !0x3fu32 == 0
}

/// Whether textures of the format can be used so on a device with these format features and
/// decoders.
pub fn supports_texture_format(
    format: Format,
    usage: TextureUsage,
    features: &Vec<u64>,
    compression: Compression,
) -> (r: bool)
    requires
        !(format is Undefined),
        is_usage(usage),
        features@.len() == FORMAT_COUNT,
    ensures
        r == texture_format_supported(format, usage, features@, compression),
{
    let info = get_texture_format_info(format);
    if (info.depth || info.stencil) && usage.intersects(TextureUsage::color_attachment()) {
        return false;
    }
    if !info.depth && !info.stencil && usage.intersects(TextureUsage::depth_stencil_attachment()) {
        return false;
    }
    if info.depth && info.stencil && usage.intersects(
        TextureUsage(
            TextureUsage::transfer_source().0 | TextureUsage::transfer_destination().0,
        ),
    ) {
        return false;
    }
    let decoded = match format {
        Format::EacRg => compression.etc2,
        Format::Astc4x4Srgb | Format::Astc4x4Unorm => compression.astc,
        Format::Bc3Srgb
        | Format::Bc3Unorm
        | Format::Bc5Rg
        | Format::Bc7Srgb
        | Format::Bc7Unorm => compression.bc,
        _ => true,
    };
    if !decoded {
        return false;
    }
    let needed = required_format_features(usage);
    features[format.ordinal()] & needed == needed
}

/// A format serves two uses together exactly if it serves each.
pub proof fn support_of_union(
    format: Format,
    a: TextureUsage,
    b: TextureUsage,
    features: Seq<u64>,
    compression: Compression,
)
    ensures
        texture_format_supported(format, TextureUsage(a.0 | b.0), features, compression) <==> {
            &&& texture_format_supported(format, a, features, compression)
            &&& texture_format_supported(format, b, features, compression)
        },
{
    let f = features[format.spec_ordinal()];
    let (x, y) = (
        encoded(a.0 as u64, feature_table()),
        encoded(b.0 as u64, feature_table()),
    );
    crate::flags::encoded_of_union(a.0 as u64, b.0 as u64, feature_table());
    let (p, q) = (a.0, b.0);
    assert((p as u64) | (q as u64) == (p | q) as u64) by (bit_vector);
    assert(f & (x | y) == (x | y) <==> f & x == x && f & y == y) by (bit_vector);
    assert forall|m: u32| #[trigger] has_any_u32(p | q, m) == (has_any_u32(p, m) || has_any_u32(q, m))
        by {
        assert(((p | q) & m != 0) == (p & m != 0 || q & m != 0)) by (bit_vector);
    }
}

/// The first mip level has the whole edge, and each further one half of the edge before it, rounded
/// down. No edge is below 1.
pub proof fn mip_edges_halve(edge: u32, level: u32)
    requires
        level < 31,
    ensures
        edge >= 1 ==> mip_edge(edge, 0) == edge,
        mip_edge(0, level) == 1,
        mip_edge(edge, level) >= 2 ==> mip_edge(edge, (level + 1) as u32) == mip_edge(edge, level)
            / 2,
        mip_edge(edge, level) == 1 ==> mip_edge(edge, (level + 1) as u32) == 1,
        mip_edge(edge, level) >= 1,
{
    let next = (level + 1) as u32;
    assert(edge >> 0u32 == edge && 0u32 >> level == 0 && edge >> next == (edge >> level) / 2)
        by (bit_vector)
        requires
            next == level + 1,
            level < 31,
    ;
}

/// A copy covers what it names and nothing beyond: the layers from the base slice on, as many as
/// are asked for or all that remain, and along each edge the texels from the offset on, as many as
/// are asked for or all that remain of the mip level.
pub proof fn copies_cover_what_they_name(
    texture: &Texture,
    copy: TextureCopyDesc,
    memory: GpuRange,
)
    requires
        copyable(texture, copy),
    ensures
        ({
            let region = copy_region(texture, copy, memory);
            let level = copy.mip_level;
            &&& region.address == memory.gpu
            &&& region.size == memory.size
            &&& region.mip_level == level
            &&& region.base_layer == copy.base_slice
            &&& copy.slice_count == 0 ==> region.base_layer + region.layer_count
                == texture.layer_count
            &&& copy.slice_count > 0 ==> region.layer_count == copy.slice_count
            &&& copy.extent.x == 0 ==> copy.offset.x + region.width == mip_edge(
                texture.width,
                level,
            )
            &&& copy.extent.y == 0 ==> copy.offset.y + region.height == mip_edge(
                texture.height,
                level,
            )
            &&& copy.extent.z == 0 ==> copy.offset.z + region.depth == mip_edge(
                texture.depth,
                level,
            )
            &&& copy.extent.x > 0 ==> region.width == copy.extent.x
            &&& copy.extent.y > 0 ==> region.height == copy.extent.y
            &&& copy.extent.z > 0 ==> region.depth == copy.extent.z
            &&& copy.offset.x <= i32::MAX ==> region.offset_x == copy.offset.x
            &&& copy.offset.y <= i32::MAX ==> region.offset_y == copy.offset.y
            &&& copy.offset.z <= i32::MAX ==> region.offset_z == copy.offset.z
        }),
{
}

/// Every tightly packed copy of a part that lies within the texture is possible, and none that
/// starts beyond the end of what it is to copy.
pub proof fn parts_of_textures_can_be_copied(texture: &Texture, copy: TextureCopyDesc)
    ensures
        ({
            let level = copy.mip_level;
            let inside = {
                &&& copy.offset.x <= mip_edge(texture.width, level)
                &&& copy.offset.y <= mip_edge(texture.height, level)
                &&& copy.offset.z <= mip_edge(texture.depth, level)
                &&& copy.base_slice <= texture.layer_count
            };
            let open = {
                &&& copy.extent == Uint32x3 { x: 0, y: 0, z: 0 }
                &&& copy.slice_count == 0
            };
            &&& !(texture.format is Undefined) && level < 32 && inside && copy.slice_pitch_bytes
                == 0 ==> copyable(texture, copy)
            &&& copyable(texture, copy) ==> !(texture.format is Undefined) && level < 32
            &&& copyable(texture, copy) && open ==> inside
        }),
{
}

/// A copy with pitches places rows and slices as far apart in memory as the pitches say: `blocks`
/// blocks make a row in memory and `rows` rows of blocks a slice. Without pitches both are packed.
pub proof fn copies_keep_their_pitches(
    texture: &Texture,
    copy: TextureCopyDesc,
    memory: GpuRange,
    blocks: int,
    rows: int,
)
    requires
        copyable(texture, copy),
        blocks > 0,
        rows >= 0,
        blocks * block_edge(texture.format) <= u32::MAX,
        rows * block_edge(texture.format) <= u32::MAX,
        if copy.row_pitch_bytes == 0 {
            (blocks - 1) * block_edge(texture.format) < copy_region(texture, copy, memory).width
                <= blocks * block_edge(texture.format)
        } else {
            copy.row_pitch_bytes == blocks * bytes_per_block(texture.format)
        },
        copy.slice_pitch_bytes == 0 || copy.slice_pitch_bytes == rows * (blocks * bytes_per_block(
            texture.format,
        )),
    ensures
        ({
            let region = copy_region(texture, copy, memory);
            &&& region.row_length == if copy.row_pitch_bytes == 0 {
                0
            } else {
                blocks * block_edge(texture.format)
            }
            &&& region.image_height == if copy.slice_pitch_bytes == 0 {
                0
            } else {
                rows * block_edge(texture.format)
            }
        }),
{
    let (edge, bytes) = (block_edge(texture.format) as int, bytes_per_block(texture.format) as int);
    let pitch = blocks * bytes;
    assert(pitch > 0) by (nonlinear_arith)
        requires
            pitch == blocks * bytes,
            blocks > 0,
            bytes > 0,
    ;
    vstd::arithmetic::div_mod::lemma_div_multiples_vanish(blocks, bytes);
    vstd::arithmetic::div_mod::lemma_div_multiples_vanish(rows, pitch);
    assert(bytes * blocks == blocks * bytes && pitch * rows == rows * pitch) by (nonlinear_arith);
    assert(0int / bytes * edge == 0 && 0int / pitch == 0) by (nonlinear_arith)
        requires
            bytes > 0,
            pitch > 0,
    ;
    if copy.row_pitch_bytes == 0 {
        let width = copy_region(texture, copy, memory).width;
        assert((blocks - 1) * edge == blocks * edge - edge) by (nonlinear_arith);
        if edge == 4 {
            assert((width + 4 - 1) / 4 == blocks);
        } else {
            assert(edge == 1);
            assert(blocks * edge == blocks) by (nonlinear_arith)
                requires
                    edge == 1,
            ;
        }
    }
    assert(copy_row_pitch(texture, copy) == pitch);
}

/// A render view shows one mip level of one slice: what a copy of that level and slice covers.
pub proof fn render_views_show_one_level_of_one_slice(
    texture: &Texture,
    desc: RenderViewDesc,
    view: u64,
    memory: GpuRange,
)
    requires
        desc.mip_level < 32,
        !(texture.format is Undefined),
    ensures
        ({
            let copy = TextureCopyDesc {
                mip_level: desc.mip_level,
                base_slice: desc.slice,
                slice_count: 1,
                offset: Uint32x3 { x: 0, y: 0, z: 0 },
                extent: Uint32x3 { x: 0, y: 0, z: 0 },
                row_pitch_bytes: 0,
                slice_pitch_bytes: 0,
            };
            let region = copy_region(texture, copy, memory);
            let info = render_view_info(texture, desc);
            let made = render_view_of(texture, desc, view);
            &&& copyable(texture, copy)
            &&& info.image == texture.image
            &&& info.format == texture.format.spec_vk()
            &&& info.view_type == VIEW_TYPE_2D
            &&& info.aspect_mask == region.aspect_mask
            &&& info.base_mip == region.mip_level == desc.mip_level
            &&& info.mip_count == 1
            &&& info.base_layer == region.base_layer == desc.slice
            &&& info.layer_count == region.layer_count == 1
            &&& made.view == view
            &&& made.width == region.width
            &&& made.height == region.height
            &&& !made.swapchain_view
        }),
{
}

/// The view of a descriptor shows the mip levels and layers that the description names: the first
/// is the base, the last follows from the count, and without a count all that remain are shown. So
/// descriptions that differ in what they name have views that differ there.
pub proof fn descriptors_show_what_they_name(
    texture: &Texture,
    kind: TextureDescriptorType,
    a: TextureDescriptorDesc,
    b: TextureDescriptorDesc,
)
    ensures
        ({
            let view = texture_descriptor(texture, kind, a).view;
            let other = texture_descriptor(texture, kind, b).view;
            &&& view.image == texture.image
            &&& view.view_type == texture.texture_type.spec_vk_view()
            &&& view.base_layer == a.base_layer
            &&& view.base_mip == a.base_mip
            &&& a.layer_count > 0 ==> view.base_layer + view.layer_count == a.base_layer
                + a.layer_count
            &&& a.mip_count > 0 ==> view.base_mip + view.mip_count == a.base_mip + a.mip_count
            &&& a.layer_count == 0 ==> view.layer_count == REMAINING
            &&& a.mip_count == 0 ==> view.mip_count == REMAINING
            &&& view.base_layer == other.base_layer <==> a.base_layer == b.base_layer
            &&& view.base_mip == other.base_mip <==> a.base_mip == b.base_mip
            &&& a.layer_count == b.layer_count ==> view.layer_count == other.layer_count
            &&& a.mip_count == b.mip_count ==> view.mip_count == other.mip_count
        }),
{
}

/// A description without a format means the format of the texture, and one that leaves the aspect
/// open means depth where the texture has it, else stencil where it has that, else color. The
/// format that a description names is the one that is shown.
pub proof fn open_descriptions_follow_the_texture(
    texture: &Texture,
    kind: TextureDescriptorType,
    desc: TextureDescriptorDesc,
)
    ensures
        ({
            let own = TextureDescriptorDesc { format: texture.format, ..desc };
            let open = TextureDescriptorDesc { format: Format::Undefined, ..desc };
            let automatic = TextureDescriptorDesc { aspect: TextureAspect::Automatic, ..desc };
            let color = TextureDescriptorDesc { aspect: TextureAspect::Color, ..desc };
            let depth = TextureDescriptorDesc { aspect: TextureAspect::Depth, ..desc };
            let stencil = TextureDescriptorDesc { aspect: TextureAspect::Stencil, ..desc };
            let meant = texture_descriptor(texture, kind, automatic);
            &&& texture_descriptor(texture, kind, open) == texture_descriptor(texture, kind, own)
            &&& !(desc.format is Undefined) ==> texture_descriptor(texture, kind, desc).view.format
                == desc.format.spec_vk()
            &&& has_depth(texture.format) ==> meant == texture_descriptor(texture, kind, depth)
            &&& has_stencil(texture.format) && !has_depth(texture.format) ==> meant
                == texture_descriptor(texture, kind, stencil)
            &&& !has_stencil(texture.format) && !has_depth(texture.format) ==> meant
                == texture_descriptor(texture, kind, color)
            &&& texture_descriptor(texture, kind, color).view.aspect_mask == ASPECT_COLOR
            &&& texture_descriptor(texture, kind, depth).view.aspect_mask == ASPECT_DEPTH
            &&& texture_descriptor(texture, kind, stencil).view.aspect_mask == ASPECT_STENCIL
        }),
{
}

/// What a descriptor gives access to decides its type and its one use, and nothing else: its view
/// is the same either way.
pub proof fn descriptor_kinds_differ_in_use(texture: &Texture, desc: TextureDescriptorDesc)
    ensures
        ({
            let sampled = texture_descriptor(texture, TextureDescriptorType::Sampled, desc);
            let storage = texture_descriptor(texture, TextureDescriptorType::Storage, desc);
            &&& sampled.view == storage.view
            &&& sampled.usage == USAGE_SAMPLED
            &&& storage.usage == USAGE_STORAGE
            &&& sampled.descriptor_type == DESCRIPTOR_SAMPLED_IMAGE
            &&& storage.descriptor_type == DESCRIPTOR_STORAGE_IMAGE
        }),
{
}

/// An image is as large as its description, and is marked for cubes exactly if it is to be seen as
/// cubes, and for other formats exactly if views may have one.
pub proof fn images_are_as_described(desc: TextureDesc, features: Seq<u64>)
    ensures
        ({
            let info = image_info_of(desc, features);
            &&& info.width == desc.extent.x
            &&& info.height == desc.extent.y
            &&& info.depth == desc.extent.z
            &&& info.mip_levels == desc.mip_levels
            &&& info.array_layers == desc.layer_count
            &&& info.format == desc.format.spec_vk()
            &&& info.image_type == desc.texture_type.spec_vk()
            &&& info.usage == encoded_u32(desc.usage.0, usage_table())
            &&& has_any_u32(info.flags, IMAGE_CREATE_CUBE_COMPATIBLE) <==> desc.texture_type is Cube
                || desc.texture_type is CubeArray
            &&& has_any_u32(info.flags, IMAGE_CREATE_MUTABLE_FORMAT) <==> view_formats_of(
                desc,
                features,
            ).len() > 1
            &&& info.flags & !(IMAGE_CREATE_CUBE_COMPATIBLE | IMAGE_CREATE_MUTABLE_FORMAT) == 0
        }),
{
    assert({
        &&& (0x10u32 | 0x8u32) & 0x10u32 != 0 && (0x10u32 | 0u32) & 0x10u32 != 0
        &&& (0u32 | 0x8u32) & 0x10u32 == 0 && (0u32 | 0u32) & 0x10u32 == 0
        &&& (0x10u32 | 0x8u32) & 0x8u32 != 0 && (0u32 | 0x8u32) & 0x8u32 != 0
        &&& (0x10u32 | 0u32) & 0x8u32 == 0 && (0u32 | 0u32) & 0x8u32 == 0
        &&& (0x10u32 | 0x8u32) & !(0x10u32 | 0x8u32) == 0 && (0x10u32 | 0u32) & !(0x10u32 | 0x8u32)
            == 0
        &&& (0u32 | 0x8u32) & !(0x10u32 | 0x8u32) == 0 && (0u32 | 0u32) & !(0x10u32 | 0x8u32) == 0
    }) by (bit_vector);
}

proof fn extra_views_are_exact(
    desc: TextureDesc,
    features: Seq<u64>,
    formats: Seq<Format>,
    view: Format,
)
    ensures
        extra_views(desc, features, formats).contains(view.spec_vk()) <==> formats.contains(view)
            && is_extra_view(desc, features, view),
    decreases formats.len(),
{
    if formats.len() > 0 {
        let rest = formats.drop_last();
        let last = formats.last();
        let before = extra_views(desc, features, rest);
        let after = extra_views(desc, features, formats);
        extra_views_are_exact(desc, features, rest, view);
        assert(formats =~= rest.push(last));
        assert(rest.push(last).contains(view) <==> rest.contains(view) || last == view) by {
            if rest.contains(view) {
                let i = choose|i: int| 0 <= i < rest.len() && rest[i] == view;
                assert(rest.push(last)[i] == view);
            }
            assert(rest.push(last)[rest.len() as int] == last);
        }
        assert(before.push(last.spec_vk()).contains(view.spec_vk()) <==> before.contains(
            view.spec_vk(),
        ) || last == view) by {
            let grown = before.push(last.spec_vk());
            if before.contains(view.spec_vk()) {
                let i = choose|i: int| 0 <= i < before.len() && before[i] == view.spec_vk();
                assert(grown[i] == view.spec_vk());
            }
            assert(grown[before.len() as int] == last.spec_vk());
            if last.spec_vk() == view.spec_vk() {
                crate::format::format_encoding_injective(last, view);
            }
        }
    }
}

/// The formats that views of a texture may have: its own, which comes first, and where others are
/// allowed, each that is compatible and that shaders can sample if they are to sample the texture,
/// or can read and write if they are to do that.
pub proof fn views_may_have_usable_formats(desc: TextureDesc, features: Seq<u64>, view: Format)
    requires
        !(view is Undefined),
    ensures
        ({
            let all = view_formats_of(desc, features);
            let offered = features[view.spec_ordinal()];
            &&& all[0] == desc.format.spec_vk()
            &&& !desc.mutable_format ==> all.len() == 1
            &&& all.contains(view.spec_vk()) <==> view == desc.format || {
                &&& desc.mutable_format
                &&& view_compatible(desc.format, view)
                &&& {
                    ||| desc.usage.0 & 0x1 != 0 && has_all_u64(offered, FEATURE_SAMPLED_IMAGE)
                    ||| desc.usage.0 & 0x2 != 0 && has_all_u64(
                        offered,
                        FEATURE_STORAGE_IMAGE | FEATURE_STORAGE_READ_WITHOUT_FORMAT
                            | FEATURE_STORAGE_WRITE_WITHOUT_FORMAT,
                    )
                }
            }
        }),
{
    let all = view_formats_of(desc, features);
    let extra = extra_views(desc, features, all_formats());
    assert(all[0] == desc.format.spec_vk());
    crate::format::all_formats_complete(view);
    assert(all_formats().contains(view));
    extra_views_are_exact(desc, features, all_formats(), view);
    crate::flags::single_uses_need_their_features();
    assert(desc.mutable_format ==> all =~= seq![desc.format.spec_vk()] + extra);
    if desc.mutable_format && extra.contains(view.spec_vk()) {
        let i = choose|i: int| 0 <= i < extra.len() && extra[i] == view.spec_vk();
        assert(all[i + 1] == view.spec_vk());
    }
    if all.contains(view.spec_vk()) {
        let i = choose|i: int| 0 <= i < all.len() && all[i] == view.spec_vk();
        if i > 0 {
            assert(extra[i - 1] == view.spec_vk());
        } else {
            crate::format::format_encoding_injective(desc.format, view);
        }
    }
}

/// A device decodes a compressed format exactly if it has the one decoder that the format needs,
/// and every other format without any. Formats that can stand for each other need the same decoder.
pub proof fn compressed_formats_need_one_decoder(device: Compression, a: Format, b: Format)
    requires
        !(a is Undefined),
    ensures
        (Compression { bc: false, astc: false, etc2: false }).decodes(a) <==> block_edge(a) == 1,
        (Compression { bc: true, astc: true, etc2: true }).decodes(a),
        view_compatible(a, b) ==> device.decodes(a) == device.decodes(b),
        block_edge(a) > 1 ==> {
            let bc = (Compression { bc: true, astc: false, etc2: false }).decodes(a);
            let astc = (Compression { bc: false, astc: true, etc2: false }).decodes(a);
            let etc2 = (Compression { bc: false, astc: false, etc2: true }).decodes(a);
            &&& bc || astc || etc2
            &&& !(bc && astc) && !(bc && etc2) && !(astc && etc2)
            &&& device.decodes(a) <==> device.bc && bc || device.astc && astc || device.etc2 && etc2
            &&& bc <==> a is Bc3Srgb || a is Bc3Unorm || a is Bc5Rg || a is Bc7Srgb || a is Bc7Unorm
            &&& astc <==> a is Astc4x4Srgb || a is Astc4x4Unorm
            &&& etc2 <==> a is EacRg
        },
{
}

/// Each use of a texture asks for its own feature of the format. Colors are drawn to formats
/// without depth and stencil, depth and stencil to formats with one of them, and formats with both
/// are not copied.
pub proof fn uses_ask_for_what_they_need(
    format: Format,
    features: Seq<u64>,
    compression: Compression,
)
    ensures
        ({
            let offered = features[format.spec_ordinal()];
            let supported = |usage: TextureUsage|
                texture_format_supported(format, usage, features, compression);
            let both = has_depth(format) && has_stencil(format);
            let neither = !has_depth(format) && !has_stencil(format);
            let decoded = compression.decodes(format);
            &&& supported(TextureUsage::sampled()) <==> decoded && has_all_u64(
                offered,
                FEATURE_SAMPLED_IMAGE,
            )
            &&& supported(TextureUsage::storage()) <==> decoded && has_all_u64(
                offered,
                FEATURE_STORAGE_IMAGE | FEATURE_STORAGE_READ_WITHOUT_FORMAT
                    | FEATURE_STORAGE_WRITE_WITHOUT_FORMAT,
            )
            &&& supported(TextureUsage::color_attachment()) <==> decoded && neither && has_all_u64(
                offered,
                FEATURE_COLOR_ATTACHMENT,
            )
            &&& supported(TextureUsage::depth_stencil_attachment()) <==> decoded && !neither
                && has_all_u64(offered, FEATURE_DEPTH_STENCIL_ATTACHMENT)
            &&& supported(TextureUsage::transfer_source()) <==> decoded && !both && has_all_u64(
                offered,
                FEATURE_TRANSFER_SRC,
            )
            &&& supported(TextureUsage::transfer_destination()) <==> decoded && !both
                && has_all_u64(offered, FEATURE_TRANSFER_DST)
        }),
{
    crate::flags::single_uses_need_their_features();
    assert({
        &&& 0x1u32 & 0x4u32 == 0 && 0x1u32 & 0x8u32 == 0 && 0x1u32 & (0x10u32 | 0x20u32) == 0
        &&& 0x2u32 & 0x4u32 == 0 && 0x2u32 & 0x8u32 == 0 && 0x2u32 & (0x10u32 | 0x20u32) == 0
        &&& 0x4u32 & 0x4u32 != 0 && 0x4u32 & 0x8u32 == 0 && 0x4u32 & (0x10u32 | 0x20u32) == 0
        &&& 0x8u32 & 0x4u32 == 0 && 0x8u32 & 0x8u32 != 0 && 0x8u32 & (0x10u32 | 0x20u32) == 0
        &&& 0x10u32 & 0x4u32 == 0 && 0x10u32 & 0x8u32 == 0 && 0x10u32 & (0x10u32 | 0x20u32) != 0
        &&& 0x20u32 & 0x4u32 == 0 && 0x20u32 & 0x8u32 == 0 && 0x20u32 & (0x10u32 | 0x20u32) != 0
    }) by (bit_vector);
}

} // verus!
