use ash::vk;
use brush_editor::brush::{DescriptorKind, LayoutBinding, PushRange, ShaderStage};
use brush_editor::vulkan::{
    brush_bindings, brush_push_constants, kind_code, stage_code, vulkan_binding, vulkan_range,
};

#[test]
fn stage_codes_are_vulkans() {
    assert_eq!(stage_code(ShaderStage::Vertex), vk::ShaderStageFlags::VERTEX.as_raw());
    assert_eq!(stage_code(ShaderStage::Fragment), vk::ShaderStageFlags::FRAGMENT.as_raw());
    assert_eq!(stage_code(ShaderStage::Compute), vk::ShaderStageFlags::COMPUTE.as_raw());
    assert_eq!(stage_code(ShaderStage::Compute), 32);
}

#[test]
fn descriptor_codes_are_vulkans() {
    assert_eq!(kind_code(DescriptorKind::StorageImage), vk::DescriptorType::STORAGE_IMAGE.as_raw());
    assert_eq!(kind_code(DescriptorKind::SampledImage), vk::DescriptorType::SAMPLED_IMAGE.as_raw());
    assert_eq!(kind_code(DescriptorKind::UniformBuffer), vk::DescriptorType::UNIFORM_BUFFER.as_raw());
    assert_eq!(kind_code(DescriptorKind::StorageBuffer), vk::DescriptorType::STORAGE_BUFFER.as_raw());
    assert_eq!(kind_code(DescriptorKind::StorageImage), 3);
}

#[test]
fn brush_binding_is_a_storage_image_at_slot_zero_for_compute() {
    let bindings = brush_bindings();
    assert_eq!(bindings.len(), 1);
    assert_eq!(bindings[0].binding, 0);
    assert_eq!(bindings[0].descriptor_count, 1);
    assert!(bindings[0].descriptor_type == vk::DescriptorType::STORAGE_IMAGE);
    assert!(bindings[0].stage_flags == vk::ShaderStageFlags::COMPUTE);
    assert!(bindings[0].p_immutable_samplers.is_null());
}

#[test]
fn brush_push_constants_are_eight_bytes_from_zero_for_compute() {
    let range = brush_push_constants();
    assert_eq!(range.offset, 0);
    assert_eq!(range.size, 8);
    assert!(range.stage_flags == vk::ShaderStageFlags::COMPUTE);
}

#[test]
fn vulkan_range_carries_every_field() {
    let range = vulkan_range(&PushRange { stage: ShaderStage::Fragment, offset: 16, size: 48 });
    assert_eq!(range.offset, 16);
    assert_eq!(range.size, 48);
    assert!(range.stage_flags == vk::ShaderStageFlags::FRAGMENT);
}

#[test]
fn vulkan_binding_carries_every_field() {
    let binding = vulkan_binding(&LayoutBinding {
        slot: 4,
        count: 2,
        kind: DescriptorKind::UniformBuffer,
        stage: ShaderStage::Vertex,
    });
    assert_eq!(binding.binding, 4);
    assert_eq!(binding.descriptor_count, 2);
    assert!(binding.descriptor_type == vk::DescriptorType::UNIFORM_BUFFER);
    assert!(binding.stage_flags == vk::ShaderStageFlags::VERTEX);
}
