//! The Vulkan numbers of the library, held to the Vulkan bindings.

use ash::vk;
use no_graphics::vulkan;

#[test]
fn format_numbers_match_the_bindings() {
    assert_eq!(vulkan::FORMAT_R8_SRGB, vk::Format::R8_SRGB.as_raw());
    assert_eq!(vulkan::FORMAT_R8G8_SRGB, vk::Format::R8G8_SRGB.as_raw());
    assert_eq!(vulkan::FORMAT_R8G8B8A8_SRGB, vk::Format::R8G8B8A8_SRGB.as_raw());
    assert_eq!(vulkan::FORMAT_B8G8R8A8_SRGB, vk::Format::B8G8R8A8_SRGB.as_raw());
    assert_eq!(vulkan::FORMAT_R4G4B4A4_UNORM_PACK16, vk::Format::R4G4B4A4_UNORM_PACK16.as_raw());
    assert_eq!(vulkan::FORMAT_R5G5B5A1_UNORM_PACK16, vk::Format::R5G5B5A1_UNORM_PACK16.as_raw());
    assert_eq!(vulkan::FORMAT_R5G6B5_UNORM_PACK16, vk::Format::R5G6B5_UNORM_PACK16.as_raw());
    assert_eq!(vulkan::FORMAT_R8_UNORM, vk::Format::R8_UNORM.as_raw());
    assert_eq!(vulkan::FORMAT_R8G8_UNORM, vk::Format::R8G8_UNORM.as_raw());
    assert_eq!(vulkan::FORMAT_R8G8B8A8_UNORM, vk::Format::R8G8B8A8_UNORM.as_raw());
    assert_eq!(vulkan::FORMAT_B8G8R8A8_UNORM, vk::Format::B8G8R8A8_UNORM.as_raw());
    assert_eq!(vulkan::FORMAT_R16_UNORM, vk::Format::R16_UNORM.as_raw());
    assert_eq!(vulkan::FORMAT_R16G16_UNORM, vk::Format::R16G16_UNORM.as_raw());
    assert_eq!(vulkan::FORMAT_R16G16B16A16_UNORM, vk::Format::R16G16B16A16_UNORM.as_raw());
    assert_eq!(vulkan::FORMAT_R8_UINT, vk::Format::R8_UINT.as_raw());
    assert_eq!(vulkan::FORMAT_R8G8_UINT, vk::Format::R8G8_UINT.as_raw());
    assert_eq!(vulkan::FORMAT_R8G8B8A8_UINT, vk::Format::R8G8B8A8_UINT.as_raw());
    assert_eq!(vulkan::FORMAT_B8G8R8A8_UINT, vk::Format::B8G8R8A8_UINT.as_raw());
    assert_eq!(vulkan::FORMAT_R16_UINT, vk::Format::R16_UINT.as_raw());
    assert_eq!(vulkan::FORMAT_R16G16_UINT, vk::Format::R16G16_UINT.as_raw());
    assert_eq!(vulkan::FORMAT_R16G16B16A16_UINT, vk::Format::R16G16B16A16_UINT.as_raw());
    assert_eq!(vulkan::FORMAT_R32_UINT, vk::Format::R32_UINT.as_raw());
    assert_eq!(vulkan::FORMAT_R32G32_UINT, vk::Format::R32G32_UINT.as_raw());
    assert_eq!(vulkan::FORMAT_R32G32B32_UINT, vk::Format::R32G32B32_UINT.as_raw());
    assert_eq!(vulkan::FORMAT_R32G32B32A32_UINT, vk::Format::R32G32B32A32_UINT.as_raw());
    assert_eq!(vulkan::FORMAT_R16_SFLOAT, vk::Format::R16_SFLOAT.as_raw());
    assert_eq!(vulkan::FORMAT_R16G16_SFLOAT, vk::Format::R16G16_SFLOAT.as_raw());
    assert_eq!(vulkan::FORMAT_R16G16B16A16_SFLOAT, vk::Format::R16G16B16A16_SFLOAT.as_raw());
    assert_eq!(vulkan::FORMAT_R32_SFLOAT, vk::Format::R32_SFLOAT.as_raw());
    assert_eq!(vulkan::FORMAT_R32G32_SFLOAT, vk::Format::R32G32_SFLOAT.as_raw());
    assert_eq!(vulkan::FORMAT_R32G32B32_SFLOAT, vk::Format::R32G32B32_SFLOAT.as_raw());
    assert_eq!(vulkan::FORMAT_R32G32B32A32_SFLOAT, vk::Format::R32G32B32A32_SFLOAT.as_raw());
    assert_eq!(vulkan::FORMAT_A2B10G10R10_UNORM_PACK32, vk::Format::A2B10G10R10_UNORM_PACK32.as_raw());
    assert_eq!(vulkan::FORMAT_B10G11R11_UFLOAT_PACK32, vk::Format::B10G11R11_UFLOAT_PACK32.as_raw());
    assert_eq!(vulkan::FORMAT_D16_UNORM, vk::Format::D16_UNORM.as_raw());
    assert_eq!(vulkan::FORMAT_D24_UNORM_S8_UINT, vk::Format::D24_UNORM_S8_UINT.as_raw());
    assert_eq!(vulkan::FORMAT_D32_SFLOAT, vk::Format::D32_SFLOAT.as_raw());
    assert_eq!(vulkan::FORMAT_S8_UINT, vk::Format::S8_UINT.as_raw());
    assert_eq!(vulkan::FORMAT_D32_SFLOAT_S8_UINT, vk::Format::D32_SFLOAT_S8_UINT.as_raw());
    assert_eq!(vulkan::FORMAT_EAC_R11G11_UNORM_BLOCK, vk::Format::EAC_R11G11_UNORM_BLOCK.as_raw());
    assert_eq!(vulkan::FORMAT_ASTC_4X4_SRGB_BLOCK, vk::Format::ASTC_4X4_SRGB_BLOCK.as_raw());
    assert_eq!(vulkan::FORMAT_ASTC_4X4_UNORM_BLOCK, vk::Format::ASTC_4X4_UNORM_BLOCK.as_raw());
    assert_eq!(vulkan::FORMAT_BC3_SRGB_BLOCK, vk::Format::BC3_SRGB_BLOCK.as_raw());
    assert_eq!(vulkan::FORMAT_BC3_UNORM_BLOCK, vk::Format::BC3_UNORM_BLOCK.as_raw());
    assert_eq!(vulkan::FORMAT_BC5_UNORM_BLOCK, vk::Format::BC5_UNORM_BLOCK.as_raw());
    assert_eq!(vulkan::FORMAT_BC7_SRGB_BLOCK, vk::Format::BC7_SRGB_BLOCK.as_raw());
    assert_eq!(vulkan::FORMAT_BC7_UNORM_BLOCK, vk::Format::BC7_UNORM_BLOCK.as_raw());
    assert_eq!(vulkan::FORMAT_UNDEFINED, vk::Format::UNDEFINED.as_raw());
}

#[test]
fn blend_factor_numbers_match_the_bindings() {
    assert_eq!(vulkan::BLEND_FACTOR_ZERO, vk::BlendFactor::ZERO.as_raw());
    assert_eq!(vulkan::BLEND_FACTOR_ONE, vk::BlendFactor::ONE.as_raw());
    assert_eq!(vulkan::BLEND_FACTOR_SRC_COLOR, vk::BlendFactor::SRC_COLOR.as_raw());
    assert_eq!(vulkan::BLEND_FACTOR_ONE_MINUS_SRC_COLOR, vk::BlendFactor::ONE_MINUS_SRC_COLOR.as_raw());
    assert_eq!(vulkan::BLEND_FACTOR_DST_COLOR, vk::BlendFactor::DST_COLOR.as_raw());
    assert_eq!(vulkan::BLEND_FACTOR_ONE_MINUS_DST_COLOR, vk::BlendFactor::ONE_MINUS_DST_COLOR.as_raw());
    assert_eq!(vulkan::BLEND_FACTOR_SRC_ALPHA, vk::BlendFactor::SRC_ALPHA.as_raw());
    assert_eq!(vulkan::BLEND_FACTOR_ONE_MINUS_SRC_ALPHA, vk::BlendFactor::ONE_MINUS_SRC_ALPHA.as_raw());
    assert_eq!(vulkan::BLEND_FACTOR_DST_ALPHA, vk::BlendFactor::DST_ALPHA.as_raw());
    assert_eq!(vulkan::BLEND_FACTOR_ONE_MINUS_DST_ALPHA, vk::BlendFactor::ONE_MINUS_DST_ALPHA.as_raw());
    assert_eq!(vulkan::BLEND_FACTOR_SRC_ALPHA_SATURATE, vk::BlendFactor::SRC_ALPHA_SATURATE.as_raw());
}

#[test]
fn pipeline_stage_numbers_match_the_bindings() {
    assert_eq!(vulkan::STAGE_DRAW_INDIRECT, vk::PipelineStageFlags2::DRAW_INDIRECT.as_raw());
    assert_eq!(vulkan::STAGE_INDEX_INPUT, vk::PipelineStageFlags2::INDEX_INPUT.as_raw());
    assert_eq!(vulkan::STAGE_VERTEX_SHADER, vk::PipelineStageFlags2::VERTEX_SHADER.as_raw());
    assert_eq!(vulkan::STAGE_MESH_SHADER, vk::PipelineStageFlags2::MESH_SHADER_EXT.as_raw());
    assert_eq!(vulkan::STAGE_EARLY_FRAGMENT_TESTS, vk::PipelineStageFlags2::EARLY_FRAGMENT_TESTS.as_raw());
    assert_eq!(vulkan::STAGE_LATE_FRAGMENT_TESTS, vk::PipelineStageFlags2::LATE_FRAGMENT_TESTS.as_raw());
    assert_eq!(vulkan::STAGE_FRAGMENT_SHADER, vk::PipelineStageFlags2::FRAGMENT_SHADER.as_raw());
    assert_eq!(vulkan::STAGE_COLOR_ATTACHMENT_OUTPUT, vk::PipelineStageFlags2::COLOR_ATTACHMENT_OUTPUT.as_raw());
    assert_eq!(vulkan::STAGE_COMPUTE_SHADER, vk::PipelineStageFlags2::COMPUTE_SHADER.as_raw());
    assert_eq!(vulkan::STAGE_COPY, vk::PipelineStageFlags2::COPY.as_raw());
    assert_eq!(vulkan::STAGE_HOST, vk::PipelineStageFlags2::HOST.as_raw());
    assert_eq!(vulkan::STAGE_ALL_COMMANDS, vk::PipelineStageFlags2::ALL_COMMANDS.as_raw());
}

#[test]
fn access_numbers_match_the_bindings() {
    assert_eq!(vulkan::ACCESS_TRANSFER_READ, vk::AccessFlags2::TRANSFER_READ.as_raw());
    assert_eq!(vulkan::ACCESS_TRANSFER_WRITE, vk::AccessFlags2::TRANSFER_WRITE.as_raw());
    assert_eq!(vulkan::ACCESS_SHADER_STORAGE_READ, vk::AccessFlags2::SHADER_STORAGE_READ.as_raw());
    assert_eq!(vulkan::ACCESS_SHADER_SAMPLED_READ, vk::AccessFlags2::SHADER_SAMPLED_READ.as_raw());
    assert_eq!(vulkan::ACCESS_SHADER_STORAGE_WRITE, vk::AccessFlags2::SHADER_STORAGE_WRITE.as_raw());
    assert_eq!(vulkan::ACCESS_COLOR_ATTACHMENT_READ, vk::AccessFlags2::COLOR_ATTACHMENT_READ.as_raw());
    assert_eq!(vulkan::ACCESS_COLOR_ATTACHMENT_WRITE, vk::AccessFlags2::COLOR_ATTACHMENT_WRITE.as_raw());
    assert_eq!(vulkan::ACCESS_DEPTH_STENCIL_ATTACHMENT_READ, vk::AccessFlags2::DEPTH_STENCIL_ATTACHMENT_READ.as_raw());
    assert_eq!(vulkan::ACCESS_DEPTH_STENCIL_ATTACHMENT_WRITE, vk::AccessFlags2::DEPTH_STENCIL_ATTACHMENT_WRITE.as_raw());
    assert_eq!(vulkan::ACCESS_INDIRECT_COMMAND_READ, vk::AccessFlags2::INDIRECT_COMMAND_READ.as_raw());
    assert_eq!(vulkan::ACCESS_INDEX_READ, vk::AccessFlags2::INDEX_READ.as_raw());
    assert_eq!(vulkan::ACCESS_HOST_READ, vk::AccessFlags2::HOST_READ.as_raw());
    assert_eq!(vulkan::ACCESS_MEMORY_READ, vk::AccessFlags2::MEMORY_READ.as_raw());
    assert_eq!(vulkan::ACCESS_MEMORY_WRITE, vk::AccessFlags2::MEMORY_WRITE.as_raw());
}

#[test]
fn format_feature_numbers_match_the_bindings() {
    assert_eq!(vulkan::FEATURE_SAMPLED_IMAGE, vk::FormatFeatureFlags2::SAMPLED_IMAGE.as_raw());
    assert_eq!(vulkan::FEATURE_STORAGE_IMAGE, vk::FormatFeatureFlags2::STORAGE_IMAGE.as_raw());
    assert_eq!(vulkan::FEATURE_STORAGE_READ_WITHOUT_FORMAT, vk::FormatFeatureFlags2::STORAGE_READ_WITHOUT_FORMAT.as_raw());
    assert_eq!(vulkan::FEATURE_STORAGE_WRITE_WITHOUT_FORMAT, vk::FormatFeatureFlags2::STORAGE_WRITE_WITHOUT_FORMAT.as_raw());
    assert_eq!(vulkan::FEATURE_COLOR_ATTACHMENT, vk::FormatFeatureFlags2::COLOR_ATTACHMENT.as_raw());
    assert_eq!(vulkan::FEATURE_DEPTH_STENCIL_ATTACHMENT, vk::FormatFeatureFlags2::DEPTH_STENCIL_ATTACHMENT.as_raw());
    assert_eq!(vulkan::FEATURE_TRANSFER_SRC, vk::FormatFeatureFlags2::TRANSFER_SRC.as_raw());
    assert_eq!(vulkan::FEATURE_TRANSFER_DST, vk::FormatFeatureFlags2::TRANSFER_DST.as_raw());
}

#[test]
fn image_usage_numbers_match_the_bindings() {
    assert_eq!(vulkan::USAGE_SAMPLED, vk::ImageUsageFlags::SAMPLED.as_raw());
    assert_eq!(vulkan::USAGE_STORAGE, vk::ImageUsageFlags::STORAGE.as_raw());
    assert_eq!(vulkan::USAGE_COLOR_ATTACHMENT, vk::ImageUsageFlags::COLOR_ATTACHMENT.as_raw());
    assert_eq!(vulkan::USAGE_DEPTH_STENCIL_ATTACHMENT, vk::ImageUsageFlags::DEPTH_STENCIL_ATTACHMENT.as_raw());
    assert_eq!(vulkan::USAGE_TRANSFER_SRC, vk::ImageUsageFlags::TRANSFER_SRC.as_raw());
    assert_eq!(vulkan::USAGE_TRANSFER_DST, vk::ImageUsageFlags::TRANSFER_DST.as_raw());
}

#[test]
fn image_aspect_numbers_match_the_bindings() {
    assert_eq!(vulkan::ASPECT_DEPTH, vk::ImageAspectFlags::DEPTH.as_raw());
    assert_eq!(vulkan::ASPECT_STENCIL, vk::ImageAspectFlags::STENCIL.as_raw());
    assert_eq!(vulkan::ASPECT_COLOR, vk::ImageAspectFlags::COLOR.as_raw());
}

#[test]
fn image_type_numbers_match_the_bindings() {
    assert_eq!(vulkan::IMAGE_TYPE_1D, vk::ImageType::TYPE_1D.as_raw());
    assert_eq!(vulkan::IMAGE_TYPE_3D, vk::ImageType::TYPE_3D.as_raw());
    assert_eq!(vulkan::IMAGE_TYPE_2D, vk::ImageType::TYPE_2D.as_raw());
}

#[test]
fn image_view_type_numbers_match_the_bindings() {
    assert_eq!(vulkan::VIEW_TYPE_1D, vk::ImageViewType::TYPE_1D.as_raw());
    assert_eq!(vulkan::VIEW_TYPE_2D, vk::ImageViewType::TYPE_2D.as_raw());
    assert_eq!(vulkan::VIEW_TYPE_3D, vk::ImageViewType::TYPE_3D.as_raw());
    assert_eq!(vulkan::VIEW_TYPE_CUBE, vk::ImageViewType::CUBE.as_raw());
    assert_eq!(vulkan::VIEW_TYPE_2D_ARRAY, vk::ImageViewType::TYPE_2D_ARRAY.as_raw());
    assert_eq!(vulkan::VIEW_TYPE_CUBE_ARRAY, vk::ImageViewType::CUBE_ARRAY.as_raw());
}

#[test]
fn image_create_numbers_match_the_bindings() {
    assert_eq!(vulkan::IMAGE_CREATE_CUBE_COMPATIBLE, vk::ImageCreateFlags::CUBE_COMPATIBLE.as_raw());
    assert_eq!(vulkan::IMAGE_CREATE_MUTABLE_FORMAT, vk::ImageCreateFlags::MUTABLE_FORMAT.as_raw());
}

#[test]
fn image_layout_numbers_match_the_bindings() {
    assert_eq!(vulkan::LAYOUT_UNDEFINED, vk::ImageLayout::UNDEFINED.as_raw());
    assert_eq!(vulkan::LAYOUT_GENERAL, vk::ImageLayout::GENERAL.as_raw());
    assert_eq!(vulkan::LAYOUT_PRESENT_SRC, vk::ImageLayout::PRESENT_SRC_KHR.as_raw());
}

#[test]
fn buffer_usage_numbers_match_the_bindings() {
    assert_eq!(vulkan::BUFFER_USAGE_SHADER_DEVICE_ADDRESS, vk::BufferUsageFlags::SHADER_DEVICE_ADDRESS.as_raw());
    assert_eq!(vulkan::BUFFER_USAGE_STORAGE_BUFFER, vk::BufferUsageFlags::STORAGE_BUFFER.as_raw());
    assert_eq!(vulkan::BUFFER_USAGE_INDEX_BUFFER, vk::BufferUsageFlags::INDEX_BUFFER.as_raw());
    assert_eq!(vulkan::BUFFER_USAGE_INDIRECT_BUFFER, vk::BufferUsageFlags::INDIRECT_BUFFER.as_raw());
    assert_eq!(vulkan::BUFFER_USAGE_TRANSFER_SRC, vk::BufferUsageFlags::TRANSFER_SRC.as_raw());
    assert_eq!(vulkan::BUFFER_USAGE_TRANSFER_DST, vk::BufferUsageFlags::TRANSFER_DST.as_raw());
}

#[test]
fn memory_property_numbers_match_the_bindings() {
    assert_eq!(vulkan::MEMORY_DEVICE_LOCAL, vk::MemoryPropertyFlags::DEVICE_LOCAL.as_raw());
    assert_eq!(vulkan::MEMORY_HOST_VISIBLE, vk::MemoryPropertyFlags::HOST_VISIBLE.as_raw());
    assert_eq!(vulkan::MEMORY_HOST_COHERENT, vk::MemoryPropertyFlags::HOST_COHERENT.as_raw());
    assert_eq!(vulkan::MEMORY_LAZILY_ALLOCATED, vk::MemoryPropertyFlags::LAZILY_ALLOCATED.as_raw());
    assert_eq!(vulkan::MEMORY_PROTECTED, vk::MemoryPropertyFlags::PROTECTED.as_raw());
    assert_eq!(vulkan::MEMORY_DEVICE_COHERENT, vk::MemoryPropertyFlags::DEVICE_COHERENT_AMD.as_raw());
    assert_eq!(vulkan::MEMORY_DEVICE_UNCACHED, vk::MemoryPropertyFlags::DEVICE_UNCACHED_AMD.as_raw());
    assert_eq!(vulkan::MEMORY_HOST_CACHED, vk::MemoryPropertyFlags::HOST_CACHED.as_raw());
}

#[test]
fn queue_numbers_match_the_bindings() {
    assert_eq!(vulkan::QUEUE_GRAPHICS, vk::QueueFlags::GRAPHICS.as_raw());
    assert_eq!(vulkan::QUEUE_COMPUTE, vk::QueueFlags::COMPUTE.as_raw());
}

#[test]
fn result_numbers_match_the_bindings() {
    assert_eq!(vulkan::ERROR_OUT_OF_HOST_MEMORY, vk::Result::ERROR_OUT_OF_HOST_MEMORY.as_raw());
    assert_eq!(vulkan::ERROR_OUT_OF_DEVICE_MEMORY, vk::Result::ERROR_OUT_OF_DEVICE_MEMORY.as_raw());
    assert_eq!(vulkan::ERROR_TOO_MANY_OBJECTS, vk::Result::ERROR_TOO_MANY_OBJECTS.as_raw());
    assert_eq!(vulkan::ERROR_DEVICE_LOST, vk::Result::ERROR_DEVICE_LOST.as_raw());
    assert_eq!(vulkan::ERROR_LAYER_NOT_PRESENT, vk::Result::ERROR_LAYER_NOT_PRESENT.as_raw());
    assert_eq!(vulkan::ERROR_EXTENSION_NOT_PRESENT, vk::Result::ERROR_EXTENSION_NOT_PRESENT.as_raw());
    assert_eq!(vulkan::ERROR_FEATURE_NOT_PRESENT, vk::Result::ERROR_FEATURE_NOT_PRESENT.as_raw());
    assert_eq!(vulkan::ERROR_INCOMPATIBLE_DRIVER, vk::Result::ERROR_INCOMPATIBLE_DRIVER.as_raw());
    assert_eq!(vulkan::ERROR_FORMAT_NOT_SUPPORTED, vk::Result::ERROR_FORMAT_NOT_SUPPORTED.as_raw());
    assert_eq!(vulkan::RESULT_SUCCESS, vk::Result::SUCCESS.as_raw());
    assert_eq!(vulkan::ERROR_OUT_OF_DATE, vk::Result::ERROR_OUT_OF_DATE_KHR.as_raw());
}

#[test]
fn composite_alpha_numbers_match_the_bindings() {
    assert_eq!(vulkan::COMPOSITE_ALPHA_OPAQUE, vk::CompositeAlphaFlagsKHR::OPAQUE.as_raw());
    assert_eq!(vulkan::COMPOSITE_ALPHA_PRE_MULTIPLIED, vk::CompositeAlphaFlagsKHR::PRE_MULTIPLIED.as_raw());
    assert_eq!(vulkan::COMPOSITE_ALPHA_POST_MULTIPLIED, vk::CompositeAlphaFlagsKHR::POST_MULTIPLIED.as_raw());
    assert_eq!(vulkan::COMPOSITE_ALPHA_INHERIT, vk::CompositeAlphaFlagsKHR::INHERIT.as_raw());
}

#[test]
fn surface_transform_numbers_match_the_bindings() {
    assert_eq!(vulkan::TRANSFORM_IDENTITY, vk::SurfaceTransformFlagsKHR::IDENTITY.as_raw());
}

#[test]
fn color_space_numbers_match_the_bindings() {
    assert_eq!(vulkan::COLOR_SPACE_SRGB_NONLINEAR, vk::ColorSpaceKHR::SRGB_NONLINEAR.as_raw());
}

#[test]
fn cull_mode_numbers_match_the_bindings() {
    assert_eq!(vulkan::CULL_NONE, vk::CullModeFlags::NONE.as_raw());
    assert_eq!(vulkan::CULL_BACK, vk::CullModeFlags::BACK.as_raw());
}

#[test]
fn front_face_numbers_match_the_bindings() {
    assert_eq!(vulkan::FRONT_FACE_CLOCKWISE, vk::FrontFace::CLOCKWISE.as_raw());
    assert_eq!(vulkan::FRONT_FACE_COUNTER_CLOCKWISE, vk::FrontFace::COUNTER_CLOCKWISE.as_raw());
}

#[test]
fn shader_stage_numbers_match_the_bindings() {
    assert_eq!(vulkan::SHADER_STAGE_MESH, vk::ShaderStageFlags::MESH_EXT.as_raw());
    assert_eq!(vulkan::SHADER_STAGE_VERTEX, vk::ShaderStageFlags::VERTEX.as_raw());
    assert_eq!(vulkan::SHADER_STAGE_FRAGMENT, vk::ShaderStageFlags::FRAGMENT.as_raw());
    assert_eq!(vulkan::SHADER_STAGE_COMPUTE, vk::ShaderStageFlags::COMPUTE.as_raw());
}

#[test]
fn pipeline_bind_point_numbers_match_the_bindings() {
    assert_eq!(vulkan::BIND_POINT_GRAPHICS, vk::PipelineBindPoint::GRAPHICS.as_raw());
    assert_eq!(vulkan::BIND_POINT_COMPUTE, vk::PipelineBindPoint::COMPUTE.as_raw());
}

#[test]
fn dynamic_state_numbers_match_the_bindings() {
    assert_eq!(vulkan::DYNAMIC_VIEWPORT_WITH_COUNT, vk::DynamicState::VIEWPORT_WITH_COUNT.as_raw());
    assert_eq!(vulkan::DYNAMIC_SCISSOR_WITH_COUNT, vk::DynamicState::SCISSOR_WITH_COUNT.as_raw());
    assert_eq!(vulkan::DYNAMIC_DEPTH_TEST_ENABLE, vk::DynamicState::DEPTH_TEST_ENABLE.as_raw());
    assert_eq!(vulkan::DYNAMIC_DEPTH_WRITE_ENABLE, vk::DynamicState::DEPTH_WRITE_ENABLE.as_raw());
    assert_eq!(vulkan::DYNAMIC_DEPTH_COMPARE_OP, vk::DynamicState::DEPTH_COMPARE_OP.as_raw());
    assert_eq!(vulkan::DYNAMIC_STENCIL_TEST_ENABLE, vk::DynamicState::STENCIL_TEST_ENABLE.as_raw());
    assert_eq!(vulkan::DYNAMIC_STENCIL_OP, vk::DynamicState::STENCIL_OP.as_raw());
    assert_eq!(vulkan::DYNAMIC_STENCIL_COMPARE_MASK, vk::DynamicState::STENCIL_COMPARE_MASK.as_raw());
    assert_eq!(vulkan::DYNAMIC_STENCIL_WRITE_MASK, vk::DynamicState::STENCIL_WRITE_MASK.as_raw());
    assert_eq!(vulkan::DYNAMIC_STENCIL_REFERENCE, vk::DynamicState::STENCIL_REFERENCE.as_raw());
}

#[test]
fn descriptor_type_numbers_match_the_bindings() {
    assert_eq!(vulkan::DESCRIPTOR_SAMPLED_IMAGE, vk::DescriptorType::SAMPLED_IMAGE.as_raw());
    assert_eq!(vulkan::DESCRIPTOR_STORAGE_IMAGE, vk::DescriptorType::STORAGE_IMAGE.as_raw());
}

#[test]
fn stencil_face_numbers_match_the_bindings() {
    assert_eq!(vulkan::STENCIL_FACE_FRONT, vk::StencilFaceFlags::FRONT.as_raw());
    assert_eq!(vulkan::STENCIL_FACE_BACK, vk::StencilFaceFlags::BACK.as_raw());
    assert_eq!(vulkan::STENCIL_FACE_FRONT_AND_BACK, vk::StencilFaceFlags::FRONT_AND_BACK.as_raw());
}

#[test]
fn physical_device_type_numbers_match_the_bindings() {
    assert_eq!(vulkan::DEVICE_TYPE_DISCRETE_GPU, vk::PhysicalDeviceType::DISCRETE_GPU.as_raw());
}

#[test]
fn other_numbers_match_the_bindings() {
    assert_eq!(vulkan::REMAINING, vk::REMAINING_MIP_LEVELS);
    assert_eq!(vulkan::REMAINING, vk::REMAINING_ARRAY_LAYERS);
    assert_eq!(f32::from_bits(no_graphics::state::THOUSAND_BITS), vk::LOD_CLAMP_NONE);
    assert_eq!(f32::from_bits(no_graphics::state::FOUR_BITS), 4.0);
    assert_eq!(f32::from_bits(no_graphics::state::ONE_BITS), 1.0);
    assert_eq!(f32::from_bits(no_graphics::state::ZERO_BITS), 0.0);
}
