use shader_reflect::{
    build_attributes, convert_variable, Format, FormatError, RawInterfaceVariable,
    RawTypeDescriptor, ReflectError,
};

const FLOAT: u32 = 0x8;

fn vec3_f32() -> RawTypeDescriptor {
    RawTypeDescriptor { flags: FLOAT, signedness: 0, width: 32, components: 3 }
}

fn var(location: u32, dims: Vec<u32>, ty: Option<RawTypeDescriptor>) -> RawInterfaceVariable {
    RawInterfaceVariable { name: String::new(), location, dims, ty }
}

#[test]
fn scalar_variable_yields_one_descriptor() {
    let r = build_attributes(&vec![var(4, vec![], Some(vec3_f32()))]).unwrap();
    assert_eq!(r.len(), 1);
    assert_eq!(r[0].location, 4);
    assert_eq!(r[0].binding, 4);
    assert_eq!(r[0].element.format, Format::Rgb32Float);
    assert_eq!(r[0].element.offset, 0);
}

#[test]
fn array_dimension_expands_to_consecutive_locations() {
    let r = build_attributes(&vec![var(5, vec![3], Some(vec3_f32()))]).unwrap();
    assert_eq!(r.len(), 3);
    assert_eq!(r[0].location, 5);
    assert_eq!(r[1].location, 6);
    assert_eq!(r[2].location, 7);
    // The binding mirrors the declared location and is not incremented.
    assert!(r.iter().all(|a| a.binding == 5));
    assert!(r.iter().all(|a| a.element.format == Format::Rgb32Float));
}

#[test]
fn only_the_first_dimension_expands() {
    let r = build_attributes(&vec![var(0, vec![2, 4], Some(vec3_f32()))]).unwrap();
    assert_eq!(r.len(), 2);
}

#[test]
fn zero_extent_first_dimension_yields_no_descriptor() {
    let r = build_attributes(&vec![var(0, vec![0], Some(vec3_f32()))]).unwrap();
    assert_eq!(r.len(), 0);
}

#[test]
fn missing_type_descriptor_is_rejected() {
    assert_eq!(
        build_attributes(&vec![var(0, vec![], None)]),
        Err(ReflectError::MissingTypeDescription)
    );
}

#[test]
fn format_errors_propagate() {
    let bad = RawTypeDescriptor { flags: FLOAT, signedness: 0, width: 16, components: 1 };
    assert_eq!(
        build_attributes(&vec![var(0, vec![], Some(bad))]),
        Err(ReflectError::Format(FormatError::UnsupportedWidth))
    );
}

#[test]
fn expansion_past_the_location_range_is_rejected() {
    assert_eq!(
        build_attributes(&vec![var(u32::MAX, vec![3], Some(vec3_f32()))]),
        Err(ReflectError::LocationOutOfRange)
    );
    // The largest expansion that still fits is accepted.
    let r = build_attributes(&vec![var(u32::MAX - 2, vec![3], Some(vec3_f32()))]).unwrap();
    assert_eq!(r[2].location, u32::MAX);
}

#[test]
fn enumeration_order_is_kept() {
    let vars = vec![var(9, vec![], Some(vec3_f32())), var(2, vec![2], Some(vec3_f32()))];
    let r = build_attributes(&vars).unwrap();
    let locations: Vec<u32> = r.iter().map(|a| a.location).collect();
    assert_eq!(locations, vec![9, 2, 3]);
}

#[test]
fn first_rejected_variable_aborts_the_build() {
    let vars = vec![var(0, vec![], None), var(1, vec![], Some(vec3_f32()))];
    assert_eq!(build_attributes(&vars), Err(ReflectError::MissingTypeDescription));
}

#[test]
fn convert_variable_matches_build_attributes() {
    let v = var(5, vec![3], Some(vec3_f32()));
    let single = convert_variable(&v).unwrap();
    let whole = build_attributes(&vec![v]).unwrap();
    assert_eq!(single, whole);
}
