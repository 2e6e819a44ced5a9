use xla_types::ElementType;

#[test]
fn element_sizes_in_bytes() {
    assert_eq!(ElementType::Pred.element_size_in_bytes(), 1);
    assert_eq!(ElementType::S8.element_size_in_bytes(), 1);
    assert_eq!(ElementType::S16.element_size_in_bytes(), 2);
    assert_eq!(ElementType::S32.element_size_in_bytes(), 4);
    assert_eq!(ElementType::S64.element_size_in_bytes(), 8);
    assert_eq!(ElementType::U8.element_size_in_bytes(), 1);
    assert_eq!(ElementType::U16.element_size_in_bytes(), 2);
    assert_eq!(ElementType::U32.element_size_in_bytes(), 4);
    assert_eq!(ElementType::U64.element_size_in_bytes(), 8);
    assert_eq!(ElementType::F16.element_size_in_bytes(), 2);
    assert_eq!(ElementType::F32.element_size_in_bytes(), 4);
    assert_eq!(ElementType::Bf16.element_size_in_bytes(), 2);
    assert_eq!(ElementType::F64.element_size_in_bytes(), 8);
    assert_eq!(ElementType::C64.element_size_in_bytes(), 8);
    assert_eq!(ElementType::C128.element_size_in_bytes(), 16);
}

#[test]
fn float_sizes_are_those_of_the_host_floats() {
    assert_eq!(ElementType::F32.element_size_in_bytes(), std::mem::size_of::<f32>());
    assert_eq!(ElementType::F64.element_size_in_bytes(), std::mem::size_of::<f64>());
}

#[test]
fn a_complex_number_takes_two_floats() {
    assert_eq!(
        ElementType::C64.element_size_in_bytes(),
        2 * ElementType::F32.element_size_in_bytes()
    );
    assert_eq!(
        ElementType::C128.element_size_in_bytes(),
        2 * ElementType::F64.element_size_in_bytes()
    );
}

#[test]
fn element_type_is_copied_and_compared() {
    let a = ElementType::U16;
    let b = a;
    assert_eq!(a, b);
    assert_ne!(a, ElementType::S16);
    assert_eq!(format!("{:?}", a), "U16");
}
