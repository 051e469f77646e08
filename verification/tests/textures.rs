use no_graphics::heap::GpuRange;
use no_graphics::memory::{
    MemoryHeapInfo, MemoryProperties, MemoryRequirements, MemoryTypeInfo,
};
use no_graphics::probe::{EdgeLimits, ImageLimits, Probe, Question, TextureMemory};
use no_graphics::texture::{
    can_copy, make_render_view, make_render_view_info, make_texture_copy_region,
    make_texture_descriptor, ImageInfo, PreparedTexture,
};
use no_graphics::vulkan::{
    ExtensionBits, FEATURE_COLOR_ATTACHMENT, FEATURE_DEPTH_STENCIL_ATTACHMENT,
    FEATURE_SAMPLED_IMAGE, FEATURE_TRANSFER_SRC, FORMAT_D16_UNORM, FORMAT_D32_SFLOAT,
    FORMAT_R32G32B32A32_SFLOAT, FORMAT_R8G8B8A8_SRGB, FORMAT_R8G8B8A8_UNORM, REMAINING,
};
use no_graphics::{
    Format, RenderViewDesc, Texture, TextureAspect, TextureCopyDesc, TextureDesc,
    TextureDescriptorDesc, TextureDescriptorType, TextureType, TextureUsage, Uint32x3,
};

const EDGES: EdgeLimits = EdgeLimits { max_2d: 16384, max_3d: 1024 };

const WIDE: ImageLimits = ImageLimits {
    max_width: 16384,
    max_height: 16384,
    max_depth: 2048,
    max_mip_levels: 15,
    max_array_layers: 2048,
};

fn texture(format: Format) -> Texture {
    Texture {
        image: 9,
        width: 100,
        height: 60,
        depth: 4,
        layer_count: 6,
        texture_type: TextureType::TwoDArray,
        format,
    }
}

fn memory() -> GpuRange {
    GpuRange { gpu: 0x1000, size: 0x2000 }
}

#[test]
fn plain_textures_have_one_view_format() {
    let desc = TextureDesc {
        texture_type: TextureType::CubeArray,
        extent: Uint32x3 { x: 16, y: 16, z: 1 },
        mip_levels: 5,
        layer_count: 12,
        format: Format::Rgba8Unorm,
        mutable_format: false,
        usage: TextureUsage::sampled() | TextureUsage::transfer_destination(),
    };
    let prepared = PreparedTexture::new(&desc, &vec![u64::MAX; 47]);
    assert_eq!(prepared.view_formats, vec![FORMAT_R8G8B8A8_UNORM]);
    assert_eq!(
        prepared.image_info,
        ImageInfo {
            flags: 0x10,
            image_type: 1,
            format: FORMAT_R8G8B8A8_UNORM,
            width: 16,
            height: 16,
            depth: 1,
            mip_levels: 5,
            array_layers: 12,
            usage: 0x6,
        }
    );
}

#[test]
fn mutable_textures_can_be_seen_in_supported_formats() {
    let desc = TextureDesc { mutable_format: true, ..TextureDesc::default() };
    let mut features = vec![0; 47];
    let none = PreparedTexture::new(&desc, &features);
    assert_eq!(none.view_formats, vec![FORMAT_R8G8B8A8_UNORM]);
    assert_eq!(none.image_info.flags, 0);
    assert!(none.format_list().is_none());
    features[Format::Rgba8Srgb.ordinal()] = FEATURE_SAMPLED_IMAGE;
    // Of another size, and thus not compatible.
    features[Format::R8Unorm.ordinal()] = FEATURE_SAMPLED_IMAGE;
    let some = PreparedTexture::new(&desc, &features);
    assert_eq!(some.view_formats, vec![FORMAT_R8G8B8A8_UNORM, FORMAT_R8G8B8A8_SRGB]);
    assert_eq!(some.image_info.flags, 0x8);
    assert_eq!(some.format_list(), Some(&vec![FORMAT_R8G8B8A8_UNORM, FORMAT_R8G8B8A8_SRGB]));
    // A feature that the texture has no use for.
    let storage = TextureDesc { usage: TextureUsage::storage(), ..desc };
    assert_eq!(PreparedTexture::new(&storage, &features).view_formats.len(), 1);
    features[Format::Rgba8Srgb.ordinal()] = u64::MAX;
    assert_eq!(PreparedTexture::new(&storage, &features).view_formats.len(), 2);
}

#[test]
fn a_default_copy_covers_the_mip_level() {
    let copy = TextureCopyDesc { mip_level: 3, ..TextureCopyDesc::default() };
    let region = make_texture_copy_region(&texture(Format::Rgba8Unorm), &copy, memory());
    assert_eq!((region.address, region.size), (0x1000, 0x2000));
    assert_eq!((region.width, region.height, region.depth), (12, 7, 1));
    assert_eq!((region.row_length, region.image_height), (0, 0));
    assert_eq!((region.base_layer, region.layer_count, region.mip_level), (0, 6, 3));
    assert_eq!((region.offset_x, region.offset_y, region.offset_z), (0, 0, 0));
    assert_eq!(region.aspect_mask, 1);
}

#[test]
fn pitches_count_in_texels() {
    let copy = TextureCopyDesc {
        base_slice: 2,
        slice_count: 3,
        offset: Uint32x3 { x: 10, y: 20, z: 1 },
        extent: Uint32x3 { x: 30, y: 0, z: 2 },
        row_pitch_bytes: 256,
        slice_pitch_bytes: 256 * 40,
        ..TextureCopyDesc::default()
    };
    let region = make_texture_copy_region(&texture(Format::Rgba8Unorm), &copy, memory());
    assert_eq!((region.row_length, region.image_height), (64, 40));
    assert_eq!((region.width, region.height, region.depth), (30, 40, 2));
    assert_eq!((region.offset_x, region.offset_y, region.offset_z), (10, 20, 1));
    assert_eq!((region.base_layer, region.layer_count), (2, 3));
}

#[test]
fn compressed_pitches_count_blocks() {
    // 100 texels are 25 blocks of 16 bytes.
    let packed = TextureCopyDesc { slice_pitch_bytes: 400 * 15, ..TextureCopyDesc::default() };
    let region = make_texture_copy_region(&texture(Format::Bc7Srgb), &packed, memory());
    assert_eq!((region.row_length, region.image_height), (0, 60));
    let wide = TextureCopyDesc {
        row_pitch_bytes: 512,
        slice_pitch_bytes: 512 * 16,
        ..TextureCopyDesc::default()
    };
    let region = make_texture_copy_region(&texture(Format::Bc7Srgb), &wide, memory());
    assert_eq!((region.row_length, region.image_height), (128, 64));
}

#[test]
fn copies_must_make_sense() {
    let whole = TextureCopyDesc::default();
    let color = texture(Format::Rgba8Unorm);
    assert!(can_copy(&color, &whole));
    assert!(!can_copy(&texture(Format::Undefined), &whole));
    assert!(can_copy(&color, &TextureCopyDesc { mip_level: 31, ..whole }));
    assert!(!can_copy(&color, &TextureCopyDesc { mip_level: 32, ..whole }));
    let beyond = TextureCopyDesc { offset: Uint32x3 { x: 101, y: 0, z: 0 }, ..whole };
    assert!(!can_copy(&color, &beyond));
    assert!(can_copy(&color, &TextureCopyDesc { extent: Uint32x3 { x: 1, y: 0, z: 0 }, ..beyond }));
    assert!(!can_copy(&color, &TextureCopyDesc { base_slice: 7, ..whole }));
    assert!(can_copy(&color, &TextureCopyDesc { base_slice: 7, slice_count: 1, ..whole }));
    // No texel is left in a row, so slices have no rows to count.
    let empty = TextureCopyDesc { offset: Uint32x3 { x: 100, y: 0, z: 0 }, ..whole };
    assert!(can_copy(&color, &empty));
    assert!(!can_copy(&color, &TextureCopyDesc { slice_pitch_bytes: 4, ..empty }));
    let huge = TextureCopyDesc { row_pitch_bytes: 1, slice_pitch_bytes: u64::MAX, ..whole };
    assert!(can_copy(&color, &huge) && !can_copy(&texture(Format::Bc5Rg), &huge));
}

#[test]
fn render_views_show_one_level_and_slice() {
    let desc = RenderViewDesc { mip_level: 6, slice: 4 };
    let info = make_render_view_info(&texture(Format::D32FloatS8Uint), &desc);
    assert_eq!((info.image, info.view_type, info.aspect_mask), (9, 1, 6));
    assert_eq!((info.base_mip, info.mip_count), (6, 1));
    assert_eq!((info.base_layer, info.layer_count), (4, 1));
    let view = make_render_view(&texture(Format::D32FloatS8Uint), &desc, 33);
    assert_eq!((view.view, view.width, view.height, view.swapchain_view), (33, 1, 1, false));
}

#[test]
fn descriptors_choose_an_aspect() {
    let all = TextureDescriptorDesc::default();
    let describe = |format, desc: &TextureDescriptorDesc| {
        make_texture_descriptor(&texture(format), TextureDescriptorType::Sampled, desc)
    };
    assert_eq!(describe(Format::Rgba8Unorm, &all).view.aspect_mask, 1);
    assert_eq!(describe(Format::D24UnormS8Uint, &all).view.aspect_mask, 2);
    assert_eq!(describe(Format::S8Uint, &all).view.aspect_mask, 4);
    let stencil = TextureDescriptorDesc { aspect: TextureAspect::Stencil, ..all };
    assert_eq!(describe(Format::D24UnormS8Uint, &stencil).view.aspect_mask, 4);
    let sampled = describe(Format::Rgba8Unorm, &all);
    assert_eq!((sampled.usage, sampled.descriptor_type), (4, 2));
    assert_eq!((sampled.view.mip_count, sampled.view.layer_count), (REMAINING, REMAINING));
    assert_eq!((sampled.view.view_type, sampled.view.format), (5, FORMAT_R8G8B8A8_UNORM));
    let part = TextureDescriptorDesc {
        format: Format::Rgba8Srgb,
        aspect: TextureAspect::Color,
        base_mip: 1,
        mip_count: 2,
        base_layer: 3,
        layer_count: 1,
    };
    let storage = make_texture_descriptor(
        &texture(Format::Rgba8Unorm),
        TextureDescriptorType::Storage,
        &part,
    );
    assert_eq!((storage.usage, storage.descriptor_type), (8, 3));
    assert_eq!((storage.view.format, storage.view.base_mip), (FORMAT_R8G8B8A8_SRGB, 1));
    assert_eq!((storage.view.mip_count, storage.view.layer_count), (2, 1));
}

/// Runs a probe with answers that depend on the image only.
fn run(
    features: &Vec<u64>,
    limits: &dyn Fn(&ImageInfo) -> Option<ImageLimits>,
    needs: &dyn Fn(&ImageInfo) -> MemoryRequirements,
) -> (Option<TextureMemory>, Vec<ImageInfo>) {
    let mut probe = Probe::start(features, EDGES);
    let mut asked = Vec::new();
    loop {
        match probe.question() {
            Question::Limits(info) => {
                asked.push(info);
                probe = probe.on_limits(limits(&info), features, EDGES);
            }
            Question::Requirements(info) => {
                probe = probe.on_requirements(needs(&info), features, EDGES);
            }
            Question::Nothing => break,
        }
    }
    match probe {
        Probe::Finished(found) => (found, asked),
        _ => panic!(),
    }
}

#[test]
fn a_probe_shares_memory_types_and_takes_the_largest_alignment() {
    let (found, asked) = run(
        &vec![u64::MAX; 47],
        &|_| Some(WIDE),
        &|info| MemoryRequirements {
            size: 1,
            alignment: if info.format == FORMAT_R32G32B32A32_SFLOAT { 4096 } else { 1024 },
            memory_type_bits: match info.format {
                FORMAT_R8G8B8A8_UNORM => 0b1111,
                FORMAT_R32G32B32A32_SFLOAT => 0,
                FORMAT_D16_UNORM => 0b0111,
                _ => 0b1110,
            },
        },
    );
    // The volume counts for its alignment only.
    assert_eq!(found, Some(TextureMemory { memory_type_bits: 0b0110, alignment: 4096 }));
    // The color image, the volume, and a small and a large image for each depth format.
    assert_eq!(asked.len(), 12);
    assert_eq!((asked[0].width, asked[0].usage), (2048, 0x14));
    assert_eq!((asked[1].width, asked[1].depth, asked[1].mip_levels), (1024, 4, 11));
    assert_eq!((asked[2].width, asked[2].usage), (1, 4));
    assert_eq!((asked[3].width, asked[3].usage), (512, 0x24));
}

#[test]
fn a_probe_needs_a_color_image() {
    let need = |_: &ImageInfo| MemoryRequirements { size: 1, alignment: 8, memory_type_bits: 1 };
    let (found, asked) = run(&vec![0; 47], &|_| Some(WIDE), &need);
    assert_eq!((found, asked.len()), (None, 0));
    let mut features = vec![0; 47];
    features[Format::Rgba8Unorm.ordinal()] = FEATURE_SAMPLED_IMAGE | FEATURE_COLOR_ATTACHMENT;
    // Neither as an attachment nor without.
    let (found, asked) = run(&features, &|_| None, &need);
    assert_eq!((found, asked.len()), (None, 2));
    assert_eq!((asked[0].usage, asked[1].usage), (0x14, 0x4));
    // Only without.
    let (found, asked) =
        run(&features, &|info| if info.usage == 4 { Some(WIDE) } else { None }, &need);
    assert_eq!(found, Some(TextureMemory { memory_type_bits: 1, alignment: 16 }));
    assert_eq!(asked.len(), 2);
    // Too small.
    let narrow = ImageLimits { max_height: 2047, ..WIDE };
    assert_eq!(run(&features, &|_| Some(narrow), &need).0, None);
}

#[test]
fn a_probe_falls_back_to_one_use_of_a_depth_format() {
    let mut features = vec![0; 47];
    features[Format::Rgba8Unorm.ordinal()] = FEATURE_SAMPLED_IMAGE;
    features[Format::D16Unorm.ordinal()] =
        FEATURE_SAMPLED_IMAGE | FEATURE_DEPTH_STENCIL_ATTACHMENT;
    features[Format::D32Float.ordinal()] = FEATURE_TRANSFER_SRC;
    // Combined formats are not copied, so this one is passed over.
    features[Format::D24UnormS8Uint.ordinal()] = FEATURE_TRANSFER_SRC;
    let small = ImageLimits { max_width: 1, max_height: 1, ..WIDE };
    let (found, asked) = run(
        &features,
        &|info| {
            if info.format == FORMAT_D32_SFLOAT {
                Some(small)
            } else if info.usage == 0x24 {
                None
            } else {
                Some(WIDE)
            }
        },
        &|info| {
            let alignment = match (info.format, info.width, info.usage) {
                (FORMAT_R8G8B8A8_UNORM, 2048, 4) => 1,
                (FORMAT_D16_UNORM, 512, 4) => 512,
                (FORMAT_D32_SFLOAT, 1, 1) => 1024,
                _ => panic!(),
            };
            MemoryRequirements { size: 1, alignment, memory_type_bits: 3 }
        },
    );
    assert_eq!(found, Some(TextureMemory { memory_type_bits: 3, alignment: 1024 }));
    assert_eq!(asked.len(), 4);
}

#[test]
fn textures_prefer_memory_that_the_host_cannot_see() {
    let ext = ExtensionBits {
        sampler_heap_read: 0,
        resource_heap_read: 0,
        descriptor_heap_buffer: 0,
        tile_memory_heap: 0,
    };
    let memory = MemoryProperties {
        types: vec![
            MemoryTypeInfo { property_flags: 6, heap_index: 0 },
            MemoryTypeInfo { property_flags: 7, heap_index: 0 },
            MemoryTypeInfo { property_flags: 1, heap_index: 0 },
        ],
        heaps: vec![MemoryHeapInfo { size: 4096, flags: 0 }],
    };
    let select = |memory_type_bits| {
        TextureMemory { memory_type_bits, alignment: 256 }.select_texture_memory_type(&memory, ext)
    };
    assert_eq!(select(0b111), Some(2));
    assert_eq!(select(0b011), Some(1));
    assert_eq!(select(0b001), None);
}
