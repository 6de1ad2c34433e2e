use shader_reflect::types::{
    STAGE_FRAGMENT, STAGE_VERTEX, RAW_KIND_ACCELERATION_STRUCTURE, RAW_KIND_COMBINED_IMAGE_SAMPLER,
    RAW_KIND_INPUT_ATTACHMENT, RAW_KIND_SAMPLED_IMAGE, RAW_KIND_SAMPLER, RAW_KIND_STORAGE_BUFFER,
    RAW_KIND_STORAGE_BUFFER_DYNAMIC, RAW_KIND_STORAGE_IMAGE, RAW_KIND_STORAGE_TEXEL_BUFFER,
    RAW_KIND_UNDEFINED, RAW_KIND_UNIFORM_BUFFER, RAW_KIND_UNIFORM_BUFFER_DYNAMIC,
    RAW_KIND_UNIFORM_TEXEL_BUFFER,
};
use shader_reflect::{
    compare, convert_binding, CanonicalBinding, Comparison, ConvertError, ResourceKind,
    RawDescriptorBinding,
};

fn raw(binding: u32, kind: u32, count: u32) -> RawDescriptorBinding {
    RawDescriptorBinding { set: 0, binding, kind, count, name: String::new() }
}

fn canonical(binding: u32, ty: ResourceKind, count: u32, stage_flags: u32) -> CanonicalBinding {
    CanonicalBinding { binding, ty, count, stage_flags, immutable_samplers: false }
}

#[test]
fn conversion_keeps_index_count_and_stage() {
    let r = convert_binding(&raw(3, RAW_KIND_UNIFORM_BUFFER, 2), STAGE_VERTEX).unwrap();
    assert_eq!(r, canonical(3, ResourceKind::UniformBuffer, 2, STAGE_VERTEX));
    assert!(!r.immutable_samplers);
}

#[test]
fn the_closed_kind_table_is_complete() {
    let cases = [
        (RAW_KIND_SAMPLER, ResourceKind::Sampler),
        (RAW_KIND_COMBINED_IMAGE_SAMPLER, ResourceKind::CombinedImageSampler),
        (RAW_KIND_SAMPLED_IMAGE, ResourceKind::SampledImage),
        (RAW_KIND_STORAGE_IMAGE, ResourceKind::StorageImage),
        (RAW_KIND_UNIFORM_TEXEL_BUFFER, ResourceKind::UniformTexelBuffer),
        (RAW_KIND_STORAGE_TEXEL_BUFFER, ResourceKind::StorageTexelBuffer),
        (RAW_KIND_UNIFORM_BUFFER, ResourceKind::UniformBuffer),
        (RAW_KIND_STORAGE_BUFFER, ResourceKind::StorageBuffer),
        (RAW_KIND_UNIFORM_BUFFER_DYNAMIC, ResourceKind::UniformBufferDynamic),
        (RAW_KIND_STORAGE_BUFFER_DYNAMIC, ResourceKind::StorageBufferDynamic),
        (RAW_KIND_INPUT_ATTACHMENT, ResourceKind::InputAttachment),
    ];
    for (code, ty) in cases {
        let r = convert_binding(&raw(0, code, 1), STAGE_FRAGMENT).unwrap();
        assert_eq!(r.ty, ty);
    }
}

#[test]
fn kinds_outside_the_table_are_rejected() {
    for code in [RAW_KIND_UNDEFINED, RAW_KIND_ACCELERATION_STRUCTURE, 99] {
        assert_eq!(
            convert_binding(&raw(0, code, 1), STAGE_VERTEX),
            Err(ConvertError::UnsupportedDescriptorKind(code))
        );
    }
}

#[test]
fn a_binding_compares_equal_to_itself() {
    let a = canonical(7, ResourceKind::SampledImage, 4, STAGE_VERTEX);
    assert_eq!(compare(&a, &a), Comparison::Equal);
}

#[test]
fn stage_masks_do_not_take_part_in_equality() {
    let a = canonical(7, ResourceKind::SampledImage, 4, STAGE_VERTEX);
    let b = canonical(7, ResourceKind::SampledImage, 4, STAGE_FRAGMENT);
    assert_eq!(compare(&a, &b), Comparison::Equal);
}

#[test]
fn different_binding_indices_compare_not_equal_regardless_of_other_fields() {
    let a = canonical(0, ResourceKind::Sampler, 1, STAGE_VERTEX);
    let same_fields = canonical(1, ResourceKind::Sampler, 1, STAGE_VERTEX);
    let different_fields = canonical(1, ResourceKind::StorageBuffer, 9, STAGE_FRAGMENT);
    assert_eq!(compare(&a, &same_fields), Comparison::NotEqual);
    assert_eq!(compare(&a, &different_fields), Comparison::NotEqual);
}

#[test]
fn same_index_with_a_differing_field_is_the_conflict_signal() {
    let a = canonical(2, ResourceKind::UniformBuffer, 1, STAGE_VERTEX);
    let other_kind = canonical(2, ResourceKind::StorageBuffer, 1, STAGE_VERTEX);
    let other_count = canonical(2, ResourceKind::UniformBuffer, 3, STAGE_VERTEX);
    assert_eq!(compare(&a, &other_kind), Comparison::SameBindingNonEqual);
    assert_eq!(compare(&a, &other_count), Comparison::SameBindingNonEqual);
}
