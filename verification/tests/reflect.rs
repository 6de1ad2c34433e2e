use shader_reflect::types::{STAGE_FRAGMENT, STAGE_VERTEX};
use shader_reflect::{
    merge, vertex_attributes, BufferId, CanonicalBinding, Format, ImageId, NodeId,
    PushConstantRange, ReflectError, ResourceKind, SpirvReflectedShader, SpirvShader,
    SpirvShaderDescription,
};

/// Encodes one bytecode instruction: the first word packs the opcode with
/// the word count, the rest are the operands.
fn ins(op: u32, args: &[u32]) -> Vec<u32> {
    let mut v = vec![op | (((args.len() + 1) as u32) << 16)];
    v.extend_from_slice(args);
    v
}

/// Assembles a module: the five-word header followed by the instructions,
/// serialized as little-endian bytes.
fn module(instructions: Vec<Vec<u32>>, bound: u32) -> Vec<u8> {
    let mut words = vec![0x0723_0203u32, 0x0001_0000, 0, bound, 0];
    for i in instructions {
        words.extend(i);
    }
    words.iter().flat_map(|w| w.to_le_bytes()).collect()
}

/// The literal string "main", null-terminated, as instruction words.
const MAIN: [u32; 2] = [0x6E69_616D, 0];

/// A vertex module with an empty interface.
fn minimal_vertex() -> Vec<u8> {
    module(
        vec![
            ins(17, &[1]),                        // OpCapability Shader
            ins(14, &[0, 1]),                     // OpMemoryModel Logical GLSL450
            ins(15, &[0, 4, MAIN[0], MAIN[1]]),   // OpEntryPoint Vertex %4 "main"
            ins(19, &[2]),                        // OpTypeVoid %2
            ins(33, &[3, 2]),                     // OpTypeFunction %3 %2
            ins(54, &[2, 4, 0, 3]),               // OpFunction %2 %4 None %3
            ins(248, &[5]),                       // OpLabel %5
            ins(253, &[]),                        // OpReturn
            ins(56, &[]),                         // OpFunctionEnd
        ],
        6,
    )
}

/// A vertex module with one three-component float input at location 5.
fn vertex_with_vec3_input() -> Vec<u8> {
    module(
        vec![
            ins(17, &[1]),
            ins(14, &[0, 1]),
            ins(15, &[0, 4, MAIN[0], MAIN[1], 9]), // interface: %9
            ins(71, &[9, 30, 5]),                  // OpDecorate %9 Location 5
            ins(19, &[2]),
            ins(33, &[3, 2]),
            ins(22, &[6, 32]),                     // OpTypeFloat %6 32
            ins(23, &[7, 6, 3]),                   // OpTypeVector %7 %6 3
            ins(32, &[8, 1, 7]),                   // OpTypePointer %8 Input %7
            ins(59, &[8, 9, 1]),                   // OpVariable %8 %9 Input
            ins(54, &[2, 4, 0, 3]),
            ins(248, &[5]),
            ins(253, &[]),
            ins(56, &[]),
        ],
        10,
    )
}

/// A vertex module whose input is a three-element array of float vectors
/// at location 5.
fn vertex_with_array_input() -> Vec<u8> {
    module(
        vec![
            ins(17, &[1]),
            ins(14, &[0, 1]),
            ins(15, &[0, 4, MAIN[0], MAIN[1], 12]),
            ins(71, &[12, 30, 5]),                 // OpDecorate %12 Location 5
            ins(19, &[2]),
            ins(33, &[3, 2]),
            ins(22, &[6, 32]),                     // OpTypeFloat %6 32
            ins(23, &[7, 6, 3]),                   // OpTypeVector %7 %6 3
            ins(21, &[8, 32, 0]),                  // OpTypeInt %8 32 0
            ins(43, &[8, 9, 3]),                   // OpConstant %8 %9 3
            ins(28, &[10, 7, 9]),                  // OpTypeArray %10 %7 %9
            ins(32, &[11, 1, 10]),                 // OpTypePointer %11 Input %10
            ins(59, &[11, 12, 1]),                 // OpVariable %11 %12 Input
            ins(54, &[2, 4, 0, 3]),
            ins(248, &[5]),
            ins(253, &[]),
            ins(56, &[]),
        ],
        13,
    )
}

/// A fragment module with one uniform buffer at set 0, binding 2.
fn fragment_with_uniform_buffer() -> Vec<u8> {
    module(
        vec![
            ins(17, &[1]),
            ins(14, &[0, 1]),
            ins(15, &[4, 4, MAIN[0], MAIN[1]]),    // OpEntryPoint Fragment %4 "main"
            ins(16, &[4, 7]),                      // OpExecutionMode %4 OriginUpperLeft
            ins(71, &[7, 2]),                      // OpDecorate %7 Block
            ins(72, &[7, 0, 35, 0]),               // OpMemberDecorate %7 0 Offset 0
            ins(71, &[9, 34, 0]),                  // OpDecorate %9 DescriptorSet 0
            ins(71, &[9, 33, 2]),                  // OpDecorate %9 Binding 2
            ins(19, &[2]),
            ins(33, &[3, 2]),
            ins(22, &[6, 32]),                     // OpTypeFloat %6 32
            ins(30, &[7, 6]),                      // OpTypeStruct %7 { %6 }
            ins(32, &[8, 2, 7]),                   // OpTypePointer %8 Uniform %7
            ins(59, &[8, 9, 2]),                   // OpVariable %8 %9 Uniform
            ins(54, &[2, 4, 0, 3]),
            ins(248, &[5]),
            ins(253, &[]),
            ins(56, &[]),
        ],
        10,
    )
}

/// A vertex module with one uniform buffer at set 0, binding 2.
fn vertex_with_uniform_buffer() -> Vec<u8> {
    module(
        vec![
            ins(17, &[1]),
            ins(14, &[0, 1]),
            ins(15, &[0, 4, MAIN[0], MAIN[1]]),    // OpEntryPoint Vertex %4 "main"
            ins(71, &[7, 2]),                      // OpDecorate %7 Block
            ins(72, &[7, 0, 35, 0]),               // OpMemberDecorate %7 0 Offset 0
            ins(71, &[9, 34, 0]),                  // OpDecorate %9 DescriptorSet 0
            ins(71, &[9, 33, 2]),                  // OpDecorate %9 Binding 2
            ins(19, &[2]),
            ins(33, &[3, 2]),
            ins(22, &[6, 32]),                     // OpTypeFloat %6 32
            ins(30, &[7, 6]),                      // OpTypeStruct %7 { %6 }
            ins(32, &[8, 2, 7]),                   // OpTypePointer %8 Uniform %7
            ins(59, &[8, 9, 2]),                   // OpVariable %8 %9 Uniform
            ins(54, &[2, 4, 0, 3]),
            ins(248, &[5]),
            ins(253, &[]),
            ins(56, &[]),
        ],
        10,
    )
}

/// A vertex module with one push-constant block of a single float.
fn vertex_with_push_constant() -> Vec<u8> {
    module(
        vec![
            ins(17, &[1]),
            ins(14, &[0, 1]),
            ins(15, &[0, 4, MAIN[0], MAIN[1]]),
            ins(71, &[7, 2]),                      // OpDecorate %7 Block
            ins(72, &[7, 0, 35, 0]),               // OpMemberDecorate %7 0 Offset 0
            ins(19, &[2]),
            ins(33, &[3, 2]),
            ins(22, &[6, 32]),
            ins(30, &[7, 6]),
            ins(32, &[8, 9, 7]),                   // OpTypePointer %8 PushConstant %7
            ins(59, &[8, 9, 9]),                   // OpVariable %8 %9 PushConstant
            ins(54, &[2, 4, 0, 3]),
            ins(248, &[5]),
            ins(253, &[]),
            ins(56, &[]),
        ],
        10,
    )
}

#[test]
fn empty_input_is_invalid_bytecode() {
    assert_eq!(SpirvShaderDescription::from_bytes(&[]), Err(ReflectError::InvalidBytecode));
}

#[test]
fn misaligned_input_is_invalid_bytecode() {
    assert_eq!(
        SpirvShaderDescription::from_bytes(&[1, 2, 3]),
        Err(ReflectError::InvalidBytecode)
    );
    assert_eq!(
        SpirvShaderDescription::from_bytes(&[1, 2, 3, 4, 5]),
        Err(ReflectError::InvalidBytecode)
    );
}

#[test]
fn aligned_garbage_is_invalid_bytecode() {
    assert_eq!(
        SpirvShaderDescription::from_bytes(&[0xDE, 0xAD, 0xBE, 0xEF, 0xDE, 0xAD, 0xBE, 0xEF]),
        Err(ReflectError::InvalidBytecode)
    );
}

#[test]
fn a_valid_header_followed_by_garbage_is_invalid_bytecode() {
    // A correct magic number and header, then a malformed (zero-length)
    // instruction word.
    let bytes = module(vec![vec![0u32]], 6);
    assert_eq!(SpirvShaderDescription::from_bytes(&bytes), Err(ReflectError::InvalidBytecode));
}

#[test]
fn an_unassigned_opcode_is_invalid_bytecode() {
    // A correct header followed by a one-word instruction whose opcode
    // has no assignment in the bytecode instruction set.
    let bytes = module(vec![vec![0x0001_0009]], 6);
    assert_eq!(SpirvShaderDescription::from_bytes(&bytes), Err(ReflectError::InvalidBytecode));
}

#[test]
fn a_truncated_instruction_is_invalid_bytecode() {
    // The final instruction declares three words but only one is there.
    let bytes = module(vec![vec![0x0003_0011]], 6);
    assert_eq!(SpirvShaderDescription::from_bytes(&bytes), Err(ReflectError::InvalidBytecode));
}

#[test]
fn a_dividing_spec_constant_computation_is_invalid_bytecode() {
    // OpSpecConstantOp computing a signed division: rejected before the
    // reflection library would divide by the (unchecked) operand.
    let mut instrs = vec![
        ins(17, &[1]),
        ins(14, &[0, 1]),
        ins(15, &[0, 4, MAIN[0], MAIN[1]]),
        ins(19, &[2]),
        ins(33, &[3, 2]),
    ];
    instrs.push(ins(21, &[6, 32, 0]));         // OpTypeInt %6 32 0
    instrs.push(ins(43, &[6, 7, 8]));          // OpConstant %6 %7 8
    instrs.push(ins(43, &[6, 8, 0]));          // OpConstant %6 %8 0
    instrs.push(ins(52, &[6, 9, 135, 7, 8]));  // OpSpecConstantOp %6 %9 SDiv %7 %8
    instrs.push(ins(54, &[2, 4, 0, 3]));
    instrs.push(ins(248, &[5]));
    instrs.push(ins(253, &[]));
    instrs.push(ins(56, &[]));
    let bytes = module(instrs, 10);
    assert_eq!(SpirvShaderDescription::from_bytes(&bytes), Err(ReflectError::InvalidBytecode));
}

#[test]
fn an_overflowing_spec_constant_computation_is_invalid_bytecode() {
    // OpSpecConstantOp computing an integer multiplication (left) and a
    // signed negation (right): both evaluate with unchecked arithmetic in
    // the reflection library, so both are rejected up front.
    let multiply = module(
        vec![
            ins(17, &[1]),
            ins(14, &[0, 1]),
            ins(15, &[0, 4, MAIN[0], MAIN[1]]),
            ins(19, &[2]),
            ins(33, &[3, 2]),
            ins(21, &[6, 32, 0]),
            ins(43, &[6, 7, 0xFFFF_FFFF]),
            ins(43, &[6, 8, 0xFFFF_FFFF]),
            ins(52, &[6, 9, 132, 7, 8]),   // OpSpecConstantOp %6 %9 IMul %7 %8
            ins(54, &[2, 4, 0, 3]),
            ins(248, &[5]),
            ins(253, &[]),
            ins(56, &[]),
        ],
        10,
    );
    assert_eq!(SpirvShaderDescription::from_bytes(&multiply), Err(ReflectError::InvalidBytecode));
    let negate = module(
        vec![
            ins(17, &[1]),
            ins(14, &[0, 1]),
            ins(15, &[0, 4, MAIN[0], MAIN[1]]),
            ins(19, &[2]),
            ins(33, &[3, 2]),
            ins(21, &[6, 32, 1]),
            ins(43, &[6, 7, 0x8000_0000]),
            ins(52, &[6, 9, 126, 7]),      // OpSpecConstantOp %6 %9 SNegate %7
            ins(54, &[2, 4, 0, 3]),
            ins(248, &[5]),
            ins(253, &[]),
            ins(56, &[]),
        ],
        10,
    );
    assert_eq!(SpirvShaderDescription::from_bytes(&negate), Err(ReflectError::InvalidBytecode));
}

#[test]
fn a_self_referential_access_chain_is_invalid_bytecode() {
    // An access chain whose base is its own result id would make the
    // reflection library's resolution loop run forever.
    let bytes = module(
        vec![
            ins(17, &[1]),
            ins(14, &[0, 1]),
            ins(15, &[0, 4, MAIN[0], MAIN[1]]),
            ins(19, &[2]),
            ins(33, &[3, 2]),
            ins(54, &[2, 4, 0, 3]),
            ins(248, &[5]),
            ins(65, &[2, 10, 10]),         // OpAccessChain %2 %10, based on %10
            ins(253, &[]),
            ins(56, &[]),
        ],
        11,
    );
    assert_eq!(SpirvShaderDescription::from_bytes(&bytes), Err(ReflectError::InvalidBytecode));
}

#[test]
fn mutually_referential_access_chains_are_invalid_bytecode() {
    // Two chains based on each other's results form a resolution cycle.
    let bytes = module(
        vec![
            ins(17, &[1]),
            ins(14, &[0, 1]),
            ins(15, &[0, 4, MAIN[0], MAIN[1]]),
            ins(19, &[2]),
            ins(33, &[3, 2]),
            ins(54, &[2, 4, 0, 3]),
            ins(248, &[5]),
            ins(65, &[2, 10, 11]),         // OpAccessChain %2 %10, based on %11
            ins(65, &[2, 11, 10]),         // OpAccessChain %2 %11, based on %10
            ins(253, &[]),
            ins(56, &[]),
        ],
        12,
    );
    assert_eq!(SpirvShaderDescription::from_bytes(&bytes), Err(ReflectError::InvalidBytecode));
}

#[test]
fn a_backward_access_chain_is_accepted() {
    // A well-formed chain based on an earlier variable, read through a
    // load: reflection still succeeds and reports the buffer.
    let bytes = module(
        vec![
            ins(17, &[1]),
            ins(14, &[0, 1]),
            ins(15, &[0, 4, MAIN[0], MAIN[1]]),    // OpEntryPoint Vertex %4 "main"
            ins(71, &[7, 2]),                      // OpDecorate %7 Block
            ins(72, &[7, 0, 35, 0]),               // OpMemberDecorate %7 0 Offset 0
            ins(71, &[9, 34, 0]),                  // OpDecorate %9 DescriptorSet 0
            ins(71, &[9, 33, 2]),                  // OpDecorate %9 Binding 2
            ins(19, &[2]),
            ins(33, &[3, 2]),
            ins(22, &[6, 32]),                     // OpTypeFloat %6 32
            ins(30, &[7, 6]),                      // OpTypeStruct %7 { %6 }
            ins(32, &[8, 2, 7]),                   // OpTypePointer %8 Uniform %7
            ins(59, &[8, 9, 2]),                   // OpVariable %8 %9 Uniform
            ins(54, &[2, 4, 0, 3]),
            ins(248, &[5]),
            ins(65, &[8, 10, 9]),                  // OpAccessChain %8 %10, based on %9
            ins(61, &[6, 11, 10]),                 // OpLoad %6 %11 %10
            ins(253, &[]),
            ins(56, &[]),
        ],
        12,
    );
    let d = SpirvShaderDescription::from_bytes(&bytes).unwrap();
    assert_eq!(d.stage_flag, STAGE_VERTEX);
    assert_eq!(d.descriptor_sets.len(), 1);
    assert_eq!(d.descriptor_sets[0].len(), 1);
    assert_eq!(d.descriptor_sets[0][0].binding, 2);
}

#[test]
fn a_header_only_module_reflects_to_an_empty_description() {
    // No entry point is declared, so no stage bit is set and every record
    // list is empty.
    let bytes = module(vec![], 1);
    let d = SpirvShaderDescription::from_bytes(&bytes).unwrap();
    assert_eq!(d.stage_flag, 0);
    assert!(d.input_attributes.is_empty());
    assert!(d.descriptor_sets.is_empty());
}

#[test]
fn minimal_module_reflects_its_stage_and_nothing_else() {
    let bytes = minimal_vertex();
    let d = SpirvShaderDescription::from_bytes(&bytes).unwrap();
    assert_eq!(d.stage_flag, STAGE_VERTEX);
    assert!(d.input_attributes.is_empty());
    assert!(d.output_attributes.is_empty());
    assert!(d.descriptor_sets.is_empty());
    assert!(d.push_constants.is_empty());
    assert_eq!(d.spirv, bytes);
}

#[test]
fn reflection_is_deterministic() {
    let bytes = vertex_with_vec3_input();
    let first = SpirvShaderDescription::from_bytes(&bytes).unwrap();
    let second = SpirvShaderDescription::from_bytes(&bytes).unwrap();
    assert_eq!(first, second);
}

#[test]
fn a_vec3_float_input_reflects_to_one_attribute() {
    let d = SpirvShaderDescription::from_bytes(&vertex_with_vec3_input()).unwrap();
    assert_eq!(d.stage_flag, STAGE_VERTEX);
    assert_eq!(d.input_attributes.len(), 1);
    let a = d.input_attributes[0];
    assert_eq!(a.location, 5);
    assert_eq!(a.binding, 5);
    assert_eq!(a.element.format, Format::Rgb32Float);
    assert_eq!(a.element.offset, 0);
}

#[test]
fn an_array_input_expands_to_consecutive_locations() {
    let d = SpirvShaderDescription::from_bytes(&vertex_with_array_input()).unwrap();
    let locations: Vec<u32> = d.input_attributes.iter().map(|a| a.location).collect();
    assert_eq!(locations, vec![5, 6, 7]);
    assert!(d.input_attributes.iter().all(|a| a.binding == 5));
    assert!(d.input_attributes.iter().all(|a| a.element.format == Format::Rgb32Float));
}

#[test]
fn a_uniform_buffer_binding_reflects_with_the_fragment_stage_mask() {
    let d = SpirvShaderDescription::from_bytes(&fragment_with_uniform_buffer()).unwrap();
    assert_eq!(d.stage_flag, STAGE_FRAGMENT);
    assert_eq!(d.descriptor_sets.len(), 1);
    assert_eq!(
        d.descriptor_sets[0],
        vec![CanonicalBinding {
            binding: 2,
            ty: ResourceKind::UniformBuffer,
            count: 1,
            stage_flags: STAGE_FRAGMENT,
            immutable_samplers: false,
        }]
    );
}

#[test]
fn a_push_constant_block_reflects_with_offset_and_size() {
    let d = SpirvShaderDescription::from_bytes(&vertex_with_push_constant()).unwrap();
    assert_eq!(
        d.push_constants,
        vec![PushConstantRange { stages: STAGE_VERTEX, offset: 0, size: 4 }]
    );
}

#[test]
fn reflected_stages_merge_into_a_pipeline_layout() {
    let vertex = SpirvShaderDescription::from_bytes(&vertex_with_vec3_input()).unwrap();
    let fragment = SpirvShaderDescription::from_bytes(&fragment_with_uniform_buffer()).unwrap();
    let layout = merge(&vec![vertex.clone(), fragment.clone()]).unwrap();
    assert_eq!(layout.sets.len(), 1);
    assert_eq!(
        layout.sets[0],
        vec![CanonicalBinding {
            binding: 2,
            ty: ResourceKind::UniformBuffer,
            count: 1,
            stage_flags: STAGE_FRAGMENT,
            immutable_samplers: false,
        }]
    );
    let attrs = vertex_attributes(&vec![vertex, fragment]).unwrap();
    assert_eq!(attrs.len(), 1);
    assert_eq!(attrs[0].location, 5);
    assert_eq!(attrs[0].element.format, Format::Rgb32Float);
}

#[test]
fn a_buffer_shared_by_two_reflected_stages_merges_with_both_masks() {
    let vertex = SpirvShaderDescription::from_bytes(&vertex_with_uniform_buffer()).unwrap();
    let fragment = SpirvShaderDescription::from_bytes(&fragment_with_uniform_buffer()).unwrap();
    let layout = merge(&vec![vertex, fragment]).unwrap();
    assert_eq!(layout.sets.len(), 1);
    assert_eq!(
        layout.sets[0],
        vec![CanonicalBinding {
            binding: 2,
            ty: ResourceKind::UniformBuffer,
            count: 1,
            stage_flags: STAGE_VERTEX | STAGE_FRAGMENT,
            immutable_samplers: false,
        }]
    );
}

#[test]
fn spirv_shader_keeps_its_bytes() {
    let bytes = minimal_vertex();
    let shader = SpirvShader::new(bytes.clone());
    assert_eq!(shader.spirv(), &bytes);
}

#[test]
fn reflected_shader_agrees_with_direct_reflection() {
    let bytes = minimal_vertex();
    let shader = SpirvReflectedShader::new(bytes.clone()).unwrap();
    assert_eq!(shader.spirv(), &bytes);
    assert_eq!(shader.reflect(), &SpirvShaderDescription::from_bytes(&bytes).unwrap());
}

#[test]
fn reflected_shader_reports_reflection_failures() {
    // Aligned, non-empty, but not a bytecode module.
    let bytes = vec![0xFF, 0xFF, 0xFF, 0xFF];
    assert!(matches!(SpirvReflectedShader::new(bytes), Err(ReflectError::InvalidBytecode)));
}

#[test]
fn graph_ids_round_trip_their_index() {
    assert_eq!(BufferId::new(3).index(), 3);
    assert_eq!(ImageId::new(7).index(), 7);
    assert_eq!(NodeId::new(11).index(), 11);
}
