use shader_reflect::types::{STAGE_COMPUTE, STAGE_FRAGMENT, STAGE_VERTEX};
use shader_reflect::{
    merge, merge_bindings, merge_layout, vertex_attributes, CanonicalBinding, ResourceKind,
    Element, Format, Layout, MergeError, PushConstantRange, SpirvShaderDescription,
    VertexAttribute,
};

fn binding(index: u32, ty: ResourceKind, count: u32, stage_flags: u32) -> CanonicalBinding {
    CanonicalBinding { binding: index, ty, count, stage_flags, immutable_samplers: false }
}

fn desc(stage_flag: u32, descriptor_sets: Vec<Vec<CanonicalBinding>>) -> SpirvShaderDescription {
    SpirvShaderDescription {
        output_attributes: vec![],
        input_attributes: vec![],
        descriptor_sets,
        stage_flag,
        push_constants: vec![],
        spirv: vec![],
    }
}

#[test]
fn shared_uniform_buffer_merges_into_one_binding_with_both_stages() {
    let vertex = desc(
        STAGE_VERTEX,
        vec![vec![binding(0, ResourceKind::UniformBuffer, 1, STAGE_VERTEX)]],
    );
    let fragment = desc(
        STAGE_FRAGMENT,
        vec![vec![binding(0, ResourceKind::UniformBuffer, 1, STAGE_FRAGMENT)]],
    );
    let layout = merge(&vec![vertex, fragment]).unwrap();
    assert_eq!(layout.sets.len(), 1);
    assert_eq!(layout.sets[0].len(), 1);
    assert_eq!(
        layout.sets[0][0],
        binding(0, ResourceKind::UniformBuffer, 1, STAGE_VERTEX | STAGE_FRAGMENT)
    );
}

#[test]
fn same_index_different_kind_is_a_binding_conflict() {
    let vertex = desc(
        STAGE_VERTEX,
        vec![vec![binding(2, ResourceKind::UniformBuffer, 1, STAGE_VERTEX)]],
    );
    let fragment = desc(
        STAGE_FRAGMENT,
        vec![vec![binding(2, ResourceKind::StorageBuffer, 1, STAGE_FRAGMENT)]],
    );
    assert_eq!(
        merge(&vec![vertex, fragment]),
        Err(MergeError::BindingConflict { set_index: 0, binding_index: 2 })
    );
}

#[test]
fn different_indices_keep_both_bindings() {
    let vertex = desc(
        STAGE_VERTEX,
        vec![vec![binding(0, ResourceKind::UniformBuffer, 1, STAGE_VERTEX)]],
    );
    let fragment = desc(
        STAGE_FRAGMENT,
        vec![vec![binding(1, ResourceKind::SampledImage, 1, STAGE_FRAGMENT)]],
    );
    let layout = merge(&vec![vertex, fragment]).unwrap();
    assert_eq!(layout.sets.len(), 1);
    assert_eq!(
        layout.sets[0],
        vec![
            binding(0, ResourceKind::UniformBuffer, 1, STAGE_VERTEX),
            binding(1, ResourceKind::SampledImage, 1, STAGE_FRAGMENT),
        ]
    );
}

#[test]
fn a_set_the_other_stage_lacks_passes_through() {
    let vertex = desc(
        STAGE_VERTEX,
        vec![vec![binding(0, ResourceKind::UniformBuffer, 1, STAGE_VERTEX)]],
    );
    let fragment = desc(
        STAGE_FRAGMENT,
        vec![
            vec![binding(1, ResourceKind::Sampler, 1, STAGE_FRAGMENT)],
            vec![binding(0, ResourceKind::SampledImage, 1, STAGE_FRAGMENT)],
        ],
    );
    let layout = merge(&vec![vertex, fragment]).unwrap();
    assert_eq!(layout.sets.len(), 2);
    assert_eq!(
        layout.sets[0],
        vec![
            binding(0, ResourceKind::UniformBuffer, 1, STAGE_VERTEX),
            binding(1, ResourceKind::Sampler, 1, STAGE_FRAGMENT),
        ]
    );
    assert_eq!(
        layout.sets[1],
        vec![binding(0, ResourceKind::SampledImage, 1, STAGE_FRAGMENT)]
    );
}

#[test]
fn an_empty_trailing_set_is_dropped() {
    let vertex = desc(
        STAGE_VERTEX,
        vec![vec![binding(0, ResourceKind::UniformBuffer, 1, STAGE_VERTEX)], vec![]],
    );
    let layout = merge(&vec![vertex]).unwrap();
    assert_eq!(layout.sets.len(), 1);
}

#[test]
fn an_interior_empty_set_keeps_positions_aligned() {
    let vertex = desc(
        STAGE_VERTEX,
        vec![vec![], vec![binding(0, ResourceKind::UniformBuffer, 1, STAGE_VERTEX)]],
    );
    let layout = merge(&vec![vertex]).unwrap();
    assert_eq!(layout.sets.len(), 2);
    assert!(layout.sets[0].is_empty());
    assert_eq!(layout.sets[1].len(), 1);
}

#[test]
fn a_shared_binding_among_others_merges_once_with_both_masks() {
    let vertex = desc(
        STAGE_VERTEX,
        vec![
            vec![],
            vec![
                binding(0, ResourceKind::Sampler, 1, STAGE_VERTEX),
                binding(2, ResourceKind::UniformBuffer, 1, STAGE_VERTEX),
            ],
        ],
    );
    let fragment = desc(
        STAGE_FRAGMENT,
        vec![
            vec![],
            vec![
                binding(2, ResourceKind::UniformBuffer, 1, STAGE_FRAGMENT),
                binding(7, ResourceKind::SampledImage, 1, STAGE_FRAGMENT),
            ],
        ],
    );
    let layout = merge(&vec![vertex, fragment]).unwrap();
    assert_eq!(layout.sets.len(), 2);
    assert!(layout.sets[0].is_empty());
    assert_eq!(
        layout.sets[1],
        vec![
            binding(0, ResourceKind::Sampler, 1, STAGE_VERTEX),
            binding(2, ResourceKind::UniformBuffer, 1, STAGE_VERTEX | STAGE_FRAGMENT),
            binding(7, ResourceKind::SampledImage, 1, STAGE_FRAGMENT),
        ]
    );
}

#[test]
fn merging_no_stages_yields_the_empty_layout() {
    let layout = merge(&vec![]).unwrap();
    assert!(layout.sets.is_empty());
    assert!(layout.push_constants.is_empty());
}

#[test]
fn push_constant_ranges_concatenate_without_deduplication() {
    let range = PushConstantRange { stages: STAGE_VERTEX, offset: 0, size: 8 };
    let mut vertex = desc(STAGE_VERTEX, vec![]);
    vertex.push_constants = vec![range];
    let mut fragment = desc(STAGE_FRAGMENT, vec![]);
    fragment.push_constants =
        vec![PushConstantRange { stages: STAGE_FRAGMENT, offset: 0, size: 8 }];
    let layout = merge(&vec![vertex, fragment]).unwrap();
    assert_eq!(
        layout.push_constants,
        vec![
            PushConstantRange { stages: STAGE_VERTEX, offset: 0, size: 8 },
            PushConstantRange { stages: STAGE_FRAGMENT, offset: 0, size: 8 },
        ]
    );
}

#[test]
fn folding_stages_matches_merging_an_intermediate_layout() {
    let a = desc(
        STAGE_VERTEX,
        vec![vec![binding(0, ResourceKind::UniformBuffer, 1, STAGE_VERTEX)]],
    );
    let b = desc(
        STAGE_FRAGMENT,
        vec![vec![binding(0, ResourceKind::UniformBuffer, 1, STAGE_FRAGMENT)]],
    );
    let c = desc(
        STAGE_COMPUTE,
        vec![vec![binding(5, ResourceKind::StorageBuffer, 1, STAGE_COMPUTE)]],
    );
    let all_at_once = merge(&vec![a.clone(), b.clone(), c.clone()]).unwrap();
    let intermediate = merge(&vec![a, b]).unwrap();
    let stepwise = merge_layout(&intermediate, &c).unwrap();
    assert_eq!(all_at_once, stepwise);
}

#[test]
fn merge_bindings_appends_unmatched_bindings_in_order() {
    let a = vec![binding(0, ResourceKind::UniformBuffer, 1, STAGE_VERTEX)];
    let b = vec![
        binding(4, ResourceKind::Sampler, 1, STAGE_FRAGMENT),
        binding(0, ResourceKind::UniformBuffer, 1, STAGE_FRAGMENT),
        binding(2, ResourceKind::SampledImage, 1, STAGE_FRAGMENT),
    ];
    let merged = merge_bindings(&a, &b).unwrap();
    assert_eq!(
        merged,
        vec![
            binding(0, ResourceKind::UniformBuffer, 1, STAGE_VERTEX | STAGE_FRAGMENT),
            binding(4, ResourceKind::Sampler, 1, STAGE_FRAGMENT),
            binding(2, ResourceKind::SampledImage, 1, STAGE_FRAGMENT),
        ]
    );
}

#[test]
fn attributes_come_from_the_vertex_stage() {
    let attribute = VertexAttribute {
        location: 0,
        binding: 0,
        element: Element { format: Format::Rgb32Float, offset: 0 },
    };
    let mut vertex = desc(STAGE_VERTEX, vec![]);
    vertex.input_attributes = vec![attribute];
    let fragment = desc(STAGE_FRAGMENT, vec![]);
    let attrs = vertex_attributes(&vec![fragment, vertex]).unwrap();
    assert_eq!(attrs, vec![attribute]);
}

#[test]
fn no_vertex_stage_is_fatal_for_attribute_retrieval() {
    let fragment = desc(STAGE_FRAGMENT, vec![]);
    let compute = desc(STAGE_COMPUTE, vec![]);
    assert_eq!(
        vertex_attributes(&vec![fragment, compute]),
        Err(MergeError::NoVertexStage)
    );
}

#[test]
fn merging_does_not_mutate_its_inputs() {
    let vertex = desc(
        STAGE_VERTEX,
        vec![vec![binding(0, ResourceKind::UniformBuffer, 1, STAGE_VERTEX)]],
    );
    let fragment = desc(
        STAGE_FRAGMENT,
        vec![vec![binding(0, ResourceKind::UniformBuffer, 1, STAGE_FRAGMENT)]],
    );
    let stages = vec![vertex.clone(), fragment.clone()];
    let first: Layout = merge(&stages).unwrap();
    assert_eq!(stages[0], vertex);
    assert_eq!(stages[1], fragment);
    let second: Layout = merge(&stages).unwrap();
    assert_eq!(first, second);
}
