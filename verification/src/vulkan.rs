//! The brush stage's declarations as the Vulkan structures that a device takes.
//!
//! The structures are built by `ash`. Verus does not look inside them: what a built
//! structure holds is named by `range_parts` and `binding_parts`, and the two builders
//! below are believed to fill the fields as their contracts say.

use vstd::prelude::*;
use crate::brush::{
    binding_declarations, push_constant_range, target_binding, cursor_range, DescriptorKind,
    LayoutBinding, PushRange, ShaderStage,
};

verus! {

/// `ash::vk::PushConstantRange`, carried through unopened.
#[verifier::external_type_specification]
#[verifier::external_body]
pub struct ExVkPushConstantRange(ash::vk::PushConstantRange);

/// `ash::vk::DescriptorSetLayoutBinding`, carried through unopened.
#[verifier::external_type_specification]
#[verifier::external_body]
pub struct ExVkDescriptorSetLayoutBinding<'a>(ash::vk::DescriptorSetLayoutBinding<'a>);

/// The fields of a Vulkan push-constant range: the bits of its stage flags, its offset
/// and its size.
pub uninterp spec fn range_parts(range: ash::vk::PushConstantRange) -> (u32, u32, u32);

/// The fields of a Vulkan layout binding: its slot, the code of its descriptor type, its
/// descriptor count and the bits of its stage flags.
pub uninterp spec fn binding_parts(binding: ash::vk::DescriptorSetLayoutBinding<'static>) -> (u32, i32, u32, u32);

/// The bit by which Vulkan names a shader stage.
pub open spec fn stage_bits(stage: ShaderStage) -> u32 {
    match stage {
        ShaderStage::Vertex => 0x01,
        ShaderStage::Fragment => 0x10,
        ShaderStage::Compute => 0x20,
    }
}

/// The code by which Vulkan names a kind of descriptor.
pub open spec fn descriptor_code(kind: DescriptorKind) -> i32 {
    match kind {
        DescriptorKind::SampledImage => 2,
        DescriptorKind::StorageImage => 3,
        DescriptorKind::UniformBuffer => 6,
        DescriptorKind::StorageBuffer => 7,
    }
}

/// The parts of the Vulkan range that stands for `range`.
pub open spec fn range_parts_of(range: PushRange) -> (u32, u32, u32) {
    (stage_bits(range.stage), range.offset, range.size)
}

/// The parts of the Vulkan binding that stands for `binding`.
pub open spec fn binding_parts_of(binding: LayoutBinding) -> (u32, i32, u32, u32) {
    (binding.slot, descriptor_code(binding.kind), binding.count, stage_bits(binding.stage))
}

/// Calls `ash::vk::PushConstantRange::default` and its setters `stage_flags`, `offset`
/// and `size`, with the flags made by `ShaderStageFlags::from_raw`. Believed: each
/// setter stores its argument in the field of its name, and `from_raw` keeps the bits.
#[verifier::external_body]
fn build_range(stage: u32, offset: u32, size: u32) -> (range: ash::vk::PushConstantRange)
    ensures
        range_parts(range) == (stage, offset, size),
{
    ash::vk::PushConstantRange::default()
        .stage_flags(ash::vk::ShaderStageFlags::from_raw(stage))
        .offset(offset)
        .size(size)
}

/// Calls `ash::vk::DescriptorSetLayoutBinding::default` and its setters `binding`,
/// `descriptor_type`, `descriptor_count` and `stage_flags`, with the type made by
/// `DescriptorType::from_raw` and the flags by `ShaderStageFlags::from_raw`. Believed:
/// each setter stores its argument in the field of its name, and both `from_raw` keep
/// what they are given.
#[verifier::external_body]
fn build_binding(slot: u32, kind: i32, count: u32, stage: u32) -> (binding: ash::vk::DescriptorSetLayoutBinding<'static>)
    ensures
        binding_parts(binding) == (slot, kind, count, stage),
{
    ash::vk::DescriptorSetLayoutBinding::default()
        .binding(slot)
        .descriptor_type(ash::vk::DescriptorType::from_raw(kind))
        .descriptor_count(count)
        .stage_flags(ash::vk::ShaderStageFlags::from_raw(stage))
}

/// The bit by which Vulkan names a shader stage.
pub fn stage_code(stage: ShaderStage) -> (bits: u32)
    ensures
        bits == stage_bits(stage),
{
    match stage {
        ShaderStage::Vertex => 0x01,
        ShaderStage::Fragment => 0x10,
        ShaderStage::Compute => 0x20,
    }
}

/// The code by which Vulkan names a kind of descriptor.
pub fn kind_code(kind: DescriptorKind) -> (code: i32)
    ensures
        code == descriptor_code(kind),
{
    match kind {
        DescriptorKind::SampledImage => 2,
        DescriptorKind::StorageImage => 3,
        DescriptorKind::UniformBuffer => 6,
        DescriptorKind::StorageBuffer => 7,
    }
}

/// The Vulkan range that stands for `range`.
pub fn vulkan_range(range: &PushRange) -> (built: ash::vk::PushConstantRange)
    ensures
        range_parts(built) == range_parts_of(*range),
{
    build_range(stage_code(range.stage), range.offset, range.size)
}

/// The Vulkan binding that stands for `binding`.
pub fn vulkan_binding(binding: &LayoutBinding) -> (built: ash::vk::DescriptorSetLayoutBinding<'static>)
    ensures
        binding_parts(built) == binding_parts_of(*binding),
{
    build_binding(binding.slot, kind_code(binding.kind), binding.count, stage_code(binding.stage))
}

/// The brush stage's bindings as Vulkan takes them: one, for a storage image at slot 0,
/// seen by the compute stage.
pub fn brush_bindings() -> (built: Vec<ash::vk::DescriptorSetLayoutBinding<'static>>)
    ensures
        built@.len() == 1,
        binding_parts(built@[0]) == binding_parts_of(target_binding()),
        binding_parts(built@[0]) == (0u32, 3i32, 1u32, 0x20u32),
{
    let declared = binding_declarations();
    let mut built: Vec<ash::vk::DescriptorSetLayoutBinding<'static>> = Vec::new();
    let mut i: usize = 0;
    while i < declared.len()
        invariant
            i <= declared.len(),
            built@.len() == i,
            forall|k: int| 0 <= k < i ==> binding_parts(#[trigger] built@[k]) == binding_parts_of(declared@[k]),
        decreases declared.len() - i,
    {
        built.push(vulkan_binding(&declared[i]));
        i += 1;
    }
    built
}

/// The brush stage's push-constant range as Vulkan takes it: eight bytes from offset 0,
/// seen by the compute stage.
pub fn brush_push_constants() -> (built: ash::vk::PushConstantRange)
    ensures
        range_parts(built) == range_parts_of(cursor_range()),
        range_parts(built) == (0x20u32, 0u32, 8u32),
{
    let declared = push_constant_range();
    vulkan_range(&declared)
}

} // verus!
