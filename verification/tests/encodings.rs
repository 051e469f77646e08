use ash::vk;
use ash::vk::{
    AccessFlags2 as A, FormatFeatureFlags2 as F, ImageUsageFlags as U, PipelineStageFlags2 as S,
};
use no_graphics::error::Failure;
use no_graphics::flags::{image_usage, required_format_features};
use no_graphics::format::{
    compatible_view_formats, formats, get_texture_format_info, image_aspects, FORMAT_COUNT,
};
use no_graphics::vulkan::ExtensionBits;
use no_graphics::{
    Access, AddressMode, BlendFactor, BlendOp, CompareOp, Error, Filter, Format, IndexType, LoadOp,
    Stage, StencilOp, StoreOp, TextureType, TextureUsage,
};

const EXT: ExtensionBits = ExtensionBits {
    sampler_heap_read: 1 << 57,
    resource_heap_read: 1 << 58,
    descriptor_heap_buffer: 1 << 28,
    tile_memory_heap: 1 << 3,
};

#[test]
fn every_code_has_its_meaning() {
    for code in [
        vk::Result::ERROR_OUT_OF_HOST_MEMORY,
        vk::Result::ERROR_OUT_OF_DEVICE_MEMORY,
        vk::Result::ERROR_TOO_MANY_OBJECTS,
    ] {
        assert_eq!(Failure::from_code(code.as_raw()), Failure::Exhausted);
    }
    for code in [
        vk::Result::ERROR_LAYER_NOT_PRESENT,
        vk::Result::ERROR_EXTENSION_NOT_PRESENT,
        vk::Result::ERROR_FEATURE_NOT_PRESENT,
        vk::Result::ERROR_INCOMPATIBLE_DRIVER,
        vk::Result::ERROR_FORMAT_NOT_SUPPORTED,
    ] {
        assert_eq!(Failure::from_code(code.as_raw()), Failure::Reported(Error::Unsupported));
    }
    assert_eq!(
        Failure::from_code(vk::Result::ERROR_DEVICE_LOST.as_raw()),
        Failure::Reported(Error::DeviceLost)
    );
    for code in [vk::Result::ERROR_INITIALIZATION_FAILED, vk::Result::ERROR_OUT_OF_DATE_KHR] {
        assert_eq!(Failure::from_code(code.as_raw()), Failure::Reported(Error::DriverError));
    }
}

#[test]
fn errors_describe_themselves() {
    assert_eq!(Error::Unsupported.message(), "unsupported graphics device or configuration");
    assert_eq!(Error::DeviceLost.message(), "graphics device lost");
    assert_eq!(Error::DriverError.message(), "Vulkan driver error");
}

#[test]
fn sets_contain_and_intersect() {
    let both = TextureUsage::sampled() | TextureUsage::storage();
    assert_eq!(both, TextureUsage(3));
    assert!(both.contains(TextureUsage::sampled()));
    assert!(!TextureUsage::sampled().contains(both));
    assert!(TextureUsage::sampled().intersects(both));
    assert!(!TextureUsage::none().intersects(both));
    assert!(both.contains(TextureUsage::none()));
    assert_eq!(TextureUsage::default(), TextureUsage::none());
    let mut stages = Stage::vertex();
    stages |= Stage::host();
    assert_eq!(stages.0, 0x22);
    assert!(stages.contains(Stage::host()) && !stages.contains(Stage::mesh()));
    assert!(stages.intersects(Stage::vertex() | Stage::mesh()));
    let mut access = Access::default();
    access |= Access::descriptor_read();
    assert_eq!(access.0, 0x800);
    assert!(access.contains(Access::descriptor_read()) && !access.intersects(Access::none()));
    let mut usage = TextureUsage::none();
    usage |= TextureUsage::transfer_destination();
    assert_eq!(usage.0, 0x20);
}

#[test]
fn stages_have_their_masks() {
    let cases = [
        (Stage::none(), S::NONE),
        (Stage::indirect(), S::DRAW_INDIRECT),
        (Stage::index_input(), S::INDEX_INPUT),
        (Stage::vertex(), S::VERTEX_SHADER),
        (Stage::mesh(), S::MESH_SHADER_EXT),
        (Stage::depth_stencil_tests(), S::EARLY_FRAGMENT_TESTS | S::LATE_FRAGMENT_TESTS),
        (Stage::fragment(), S::FRAGMENT_SHADER),
        (Stage::color_output(), S::COLOR_ATTACHMENT_OUTPUT),
        (Stage::compute(), S::COMPUTE_SHADER),
        (Stage::transfer(), S::COPY),
        (Stage::host(), S::HOST),
        (Stage::all_commands(), S::ALL_COMMANDS),
    ];
    let mut union = Stage::none();
    let mut mask = S::NONE;
    for (stage, expected) in cases {
        assert_eq!(stage.vk(), expected.as_raw());
        union |= stage;
        mask |= expected;
    }
    assert_eq!(union.vk(), mask.as_raw());
    assert_eq!(Stage(1 << 40).vk(), 0);
}

#[test]
fn accesses_have_their_masks() {
    let cases = [
        (Access::transfer_read(), A::TRANSFER_READ),
        (Access::transfer_write(), A::TRANSFER_WRITE),
        (Access::shader_read(), A::SHADER_STORAGE_READ | A::SHADER_SAMPLED_READ),
        (Access::shader_write(), A::SHADER_STORAGE_WRITE),
        (Access::color_read(), A::COLOR_ATTACHMENT_READ),
        (Access::color_write(), A::COLOR_ATTACHMENT_WRITE),
        (Access::depth_stencil_read(), A::DEPTH_STENCIL_ATTACHMENT_READ),
        (Access::depth_stencil_write(), A::DEPTH_STENCIL_ATTACHMENT_WRITE),
        (Access::indirect_read(), A::INDIRECT_COMMAND_READ),
        (Access::index_read(), A::INDEX_READ),
        (Access::host_read(), A::HOST_READ),
    ];
    let mut union = Access::none();
    let mut mask = A::NONE;
    for (access, expected) in cases {
        assert_eq!(access.vk(EXT), expected.as_raw());
        union |= access;
        mask |= expected;
    }
    assert_eq!(union.vk(EXT), mask.as_raw());
    assert_eq!(Access::descriptor_read().vk(EXT), 3 << 57);
}

#[test]
fn usages_have_their_features_and_flags() {
    let cases = [
        (TextureUsage::sampled(), F::SAMPLED_IMAGE, U::SAMPLED),
        (
            TextureUsage::storage(),
            F::STORAGE_IMAGE | F::STORAGE_READ_WITHOUT_FORMAT | F::STORAGE_WRITE_WITHOUT_FORMAT,
            U::STORAGE,
        ),
        (TextureUsage::color_attachment(), F::COLOR_ATTACHMENT, U::COLOR_ATTACHMENT),
        (
            TextureUsage::depth_stencil_attachment(),
            F::DEPTH_STENCIL_ATTACHMENT,
            U::DEPTH_STENCIL_ATTACHMENT,
        ),
        (TextureUsage::transfer_source(), F::TRANSFER_SRC, U::TRANSFER_SRC),
        (TextureUsage::transfer_destination(), F::TRANSFER_DST, U::TRANSFER_DST),
    ];
    let mut union = TextureUsage::none();
    let (mut features, mut flags) = (F::empty(), U::empty());
    for (usage, feature, flag) in cases {
        assert_eq!(required_format_features(usage), feature.as_raw());
        assert_eq!(image_usage(usage), flag.as_raw());
        union |= usage;
        features |= feature;
        flags |= flag;
    }
    assert_eq!(required_format_features(union), features.as_raw());
    assert_eq!(image_usage(union), flags.as_raw());
}

#[test]
fn small_enums_have_their_numbers() {
    assert_eq!(Filter::Nearest.raw(), vk::Filter::NEAREST.as_raw());
    assert_eq!(Filter::Linear.raw(), vk::Filter::LINEAR.as_raw());
    assert_eq!(Filter::Nearest.raw(), vk::SamplerMipmapMode::NEAREST.as_raw());
    assert_eq!(Filter::Linear.raw(), vk::SamplerMipmapMode::LINEAR.as_raw());
    assert_eq!(AddressMode::Repeat.raw(), vk::SamplerAddressMode::REPEAT.as_raw());
    assert_eq!(
        AddressMode::MirroredRepeat.raw(),
        vk::SamplerAddressMode::MIRRORED_REPEAT.as_raw()
    );
    assert_eq!(AddressMode::ClampToEdge.raw(), vk::SamplerAddressMode::CLAMP_TO_EDGE.as_raw());
    for (op, number) in [
        (CompareOp::Never, vk::CompareOp::NEVER),
        (CompareOp::Less, vk::CompareOp::LESS),
        (CompareOp::Equal, vk::CompareOp::EQUAL),
        (CompareOp::LessEqual, vk::CompareOp::LESS_OR_EQUAL),
        (CompareOp::Greater, vk::CompareOp::GREATER),
        (CompareOp::NotEqual, vk::CompareOp::NOT_EQUAL),
        (CompareOp::GreaterEqual, vk::CompareOp::GREATER_OR_EQUAL),
        (CompareOp::Always, vk::CompareOp::ALWAYS),
    ] {
        assert_eq!(op.raw(), number.as_raw());
    }
    for (op, number) in [
        (BlendOp::Add, vk::BlendOp::ADD),
        (BlendOp::Subtract, vk::BlendOp::SUBTRACT),
        (BlendOp::ReverseSubtract, vk::BlendOp::REVERSE_SUBTRACT),
        (BlendOp::Minimum, vk::BlendOp::MIN),
        (BlendOp::Maximum, vk::BlendOp::MAX),
    ] {
        assert_eq!(op.raw(), number.as_raw());
    }
    for (op, number) in [
        (StencilOp::Keep, vk::StencilOp::KEEP),
        (StencilOp::Zero, vk::StencilOp::ZERO),
        (StencilOp::Replace, vk::StencilOp::REPLACE),
        (StencilOp::IncrementClamp, vk::StencilOp::INCREMENT_AND_CLAMP),
        (StencilOp::DecrementClamp, vk::StencilOp::DECREMENT_AND_CLAMP),
        (StencilOp::Invert, vk::StencilOp::INVERT),
        (StencilOp::IncrementWrap, vk::StencilOp::INCREMENT_AND_WRAP),
        (StencilOp::DecrementWrap, vk::StencilOp::DECREMENT_AND_WRAP),
    ] {
        assert_eq!(op.raw(), number.as_raw());
    }
    assert_eq!(IndexType::Uint16.raw(), vk::IndexType::UINT16.as_raw());
    assert_eq!(IndexType::Uint32.raw(), vk::IndexType::UINT32.as_raw());
    assert_eq!(LoadOp::Load.raw(), vk::AttachmentLoadOp::LOAD.as_raw());
    assert_eq!(LoadOp::Clear.raw(), vk::AttachmentLoadOp::CLEAR.as_raw());
    assert_eq!(LoadOp::Discard.raw(), vk::AttachmentLoadOp::DONT_CARE.as_raw());
    assert_eq!(StoreOp::Store.raw(), vk::AttachmentStoreOp::STORE.as_raw());
    assert_eq!(StoreOp::Discard.raw(), vk::AttachmentStoreOp::DONT_CARE.as_raw());
    assert_eq!(BlendFactor::OneMinusSourceAlpha.vk(), vk::BlendFactor::ONE_MINUS_SRC_ALPHA.as_raw());
    assert_eq!(BlendFactor::SourceAlphaSaturate.vk(), vk::BlendFactor::SRC_ALPHA_SATURATE.as_raw());
    assert_eq!(TextureType::OneD.vk(), vk::ImageType::TYPE_1D.as_raw());
    assert_eq!(TextureType::CubeArray.vk(), vk::ImageType::TYPE_2D.as_raw());
    assert_eq!(TextureType::ThreeD.vk(), vk::ImageType::TYPE_3D.as_raw());
    assert_eq!(TextureType::TwoDArray.vk_view(), vk::ImageViewType::TYPE_2D_ARRAY.as_raw());
    assert_eq!(TextureType::Cube.vk_view(), vk::ImageViewType::CUBE.as_raw());
}

#[test]
fn formats_have_blocks_and_aspects() {
    let all = formats();
    assert_eq!(all.len(), FORMAT_COUNT);
    for (place, format) in all.iter().enumerate() {
        assert_eq!(format.ordinal(), place);
        assert!(get_texture_format_info(*format).bytes_per_block > 0);
    }
    let bc = get_texture_format_info(Format::Bc7Srgb);
    assert_eq!((bc.block_extent.x, bc.block_extent.y, bc.bytes_per_block), (4, 4, 16));
    let rgb = get_texture_format_info(Format::Rgb32Float);
    assert_eq!((rgb.block_extent.x, rgb.bytes_per_block), (1, 12));
    let both = get_texture_format_info(Format::D32FloatS8Uint);
    assert!(both.depth && both.stencil && both.bytes_per_block == 8);
    let none = get_texture_format_info(Format::Undefined);
    assert_eq!((none.block_extent.x, none.bytes_per_block), (0, 0));
    assert_eq!(image_aspects(Format::D24UnormS8Uint), 6);
    assert_eq!(image_aspects(Format::D16Unorm), 2);
    assert_eq!(image_aspects(Format::S8Uint), 4);
    assert_eq!(image_aspects(Format::R8Uint), 1);
    assert_eq!(Format::Rg11b10Float.vk(), vk::Format::B10G11R11_UFLOAT_PACK32.as_raw());
}

#[test]
fn view_compatibility_is_symmetric_and_by_size() {
    let all = formats();
    for a in &all {
        assert!(compatible_view_formats(*a, *a));
        for b in &all {
            assert_eq!(compatible_view_formats(*a, *b), compatible_view_formats(*b, *a));
        }
    }
    assert!(compatible_view_formats(Format::Rgba8Srgb, Format::R32Float));
    assert!(!compatible_view_formats(Format::Rgba8Srgb, Format::Rg32Float));
    assert!(compatible_view_formats(Format::Bc3Srgb, Format::Bc3Unorm));
    assert!(!compatible_view_formats(Format::Bc3Srgb, Format::Bc7Srgb));
    assert!(!compatible_view_formats(Format::D32Float, Format::R32Float));
    assert!(!compatible_view_formats(Format::Bc5Rg, Format::Rgba32Uint));
    assert!(!compatible_view_formats(Format::Undefined, Format::R8Unorm));
}
