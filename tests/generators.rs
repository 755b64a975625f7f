use small_iter_fields::decl::{variant_count, variant_names, Declaration, GenError, Payload, Shape, Variant};
use small_iter_fields::helpers::{derive_hash_fields, derive_iter_fields, derive_len_fields};
use small_iter_fields::render::{push_decimal, push_path_list};
use std::collections::HashMap;

fn variant(name: &str, payload: Payload) -> Variant {
    Variant { name: name.to_string(), payload }
}

fn enumeration(name: &str, variants: &[&str]) -> Declaration {
    Declaration {
        name: name.to_string(),
        shape: Shape::Enum(variants.iter().map(|v| variant(v, Payload::Unit)).collect()),
    }
}

fn stage() -> Declaration {
    enumeration("Stage", &["Start", "Middle", "End"])
}

const STAGE_ITER: &str = "impl Stage {\n    pub fn iter_fields() -> impl Iterator<Item = Stage> {\n        vec![Stage::Start, Stage::Middle, Stage::End].into_iter()\n    }\n}\n";
const STAGE_LEN: &str = "impl Stage {\n    pub fn len() -> usize {\n        3\n    }\n}\n";
const STAGE_HASH: &str = "impl Stage {\n    pub fn to_hashmap<T: Clone>(value: T) -> ::std::collections::HashMap<Self, T> {\n        ::std::collections::HashMap::from_iter(Self::iter_fields().map(|field| (field, value.clone())))\n    }\n}\n";

// The three helpers exactly as the generators write them for `Stage`.
#[derive(Debug, Hash, PartialEq, Eq, Clone, Copy)]
enum Stage {
    Start,
    Middle,
    End,
}

impl Stage {
    pub fn iter_fields() -> impl Iterator<Item = Stage> {
        vec![Stage::Start, Stage::Middle, Stage::End].into_iter()
    }
}

impl Stage {
    pub fn len() -> usize {
        3
    }
}

impl Stage {
    pub fn to_hashmap<T: Clone>(value: T) -> ::std::collections::HashMap<Self, T> {
        ::std::collections::HashMap::from_iter(Self::iter_fields().map(|field| (field, value.clone())))
    }
}

#[test]
fn stage_sources_match_expansion() {
    assert_eq!(derive_iter_fields(&stage()).unwrap(), STAGE_ITER);
    assert_eq!(derive_len_fields(&stage()).unwrap(), STAGE_LEN);
    assert_eq!(derive_hash_fields(&stage()).unwrap(), STAGE_HASH);
}

#[test]
fn stage_len_is_three() {
    assert_eq!(variant_count(&stage()), Ok(3));
    assert_eq!(Stage::len(), 3);
}

#[test]
fn stage_iter_fields_in_order_and_restartable() {
    let first: Vec<Stage> = Stage::iter_fields().collect();
    let second: Vec<Stage> = Stage::iter_fields().collect();
    assert_eq!(first, vec![Stage::Start, Stage::Middle, Stage::End]);
    assert_eq!(first, second);
    assert_eq!(first.len(), Stage::len());
}

#[test]
fn stage_to_hashmap_has_independent_values() {
    let mut map: HashMap<Stage, Vec<i32>> = Stage::to_hashmap(Vec::new());
    assert_eq!(map.len(), 3);
    assert!(map.capacity() >= 3);
    assert_eq!(map.get(&Stage::Start), Some(&Vec::new()));
    assert_eq!(map.get(&Stage::Middle), Some(&Vec::new()));
    assert_eq!(map.get(&Stage::End), Some(&Vec::new()));
    map.get_mut(&Stage::Start).unwrap().push(1);
    assert_eq!(map.get(&Stage::Start), Some(&vec![1]));
    assert_eq!(map.get(&Stage::Middle), Some(&Vec::new()));
    assert_eq!(map.get(&Stage::End), Some(&Vec::new()));
}

#[test]
fn variant_names_in_declaration_order() {
    let names = variant_names(&stage()).unwrap();
    assert_eq!(names, vec!["Start".to_string(), "Middle".to_string(), "End".to_string()]);
}

#[test]
fn struct_is_rejected_by_every_generator() {
    let d = Declaration { name: "Point".to_string(), shape: Shape::Struct };
    assert_eq!(derive_iter_fields(&d), Err(GenError::NotAnEnum));
    assert_eq!(derive_len_fields(&d), Err(GenError::NotAnEnum));
    assert_eq!(derive_hash_fields(&d), Err(GenError::NotAnEnum));
    assert_eq!(variant_count(&d), Err(GenError::NotAnEnum));
}

#[test]
fn union_is_rejected() {
    let d = Declaration { name: "Bits".to_string(), shape: Shape::Union };
    assert_eq!(derive_iter_fields(&d), Err(GenError::NotAnEnum));
}

#[test]
fn data_variant_is_rejected_by_every_generator() {
    let d = Declaration {
        name: "DataEnum".to_string(),
        shape: Shape::Enum(vec![
            variant("Plain", Payload::Unit),
            variant("Data", Payload::Tuple),
            variant("Named", Payload::Named),
        ]),
    };
    assert_eq!(derive_iter_fields(&d), Err(GenError::VariantHasData(1)));
    assert_eq!(derive_len_fields(&d), Err(GenError::VariantHasData(1)));
    assert_eq!(derive_hash_fields(&d), Err(GenError::VariantHasData(1)));
    assert_eq!(variant_names(&d), Err(GenError::VariantHasData(1)));
}

#[test]
fn named_fields_variant_is_rejected() {
    let d = Declaration {
        name: "E".to_string(),
        shape: Shape::Enum(vec![variant("Data", Payload::Named)]),
    };
    assert_eq!(derive_len_fields(&d), Err(GenError::VariantHasData(0)));
}

#[test]
fn empty_enum_has_no_variants() {
    let d = enumeration("Never", &[]);
    assert_eq!(variant_count(&d), Ok(0));
    assert_eq!(
        derive_iter_fields(&d).unwrap(),
        "impl Never {\n    pub fn iter_fields() -> impl Iterator<Item = Never> {\n        vec![].into_iter()\n    }\n}\n"
    );
    assert_eq!(
        derive_len_fields(&d).unwrap(),
        "impl Never {\n    pub fn len() -> usize {\n        0\n    }\n}\n"
    );
}

#[test]
fn single_variant_has_no_separator() {
    let d = enumeration("One", &["Only"]);
    assert_eq!(
        derive_iter_fields(&d).unwrap(),
        "impl One {\n    pub fn iter_fields() -> impl Iterator<Item = One> {\n        vec![One::Only].into_iter()\n    }\n}\n"
    );
}

#[test]
fn count_of_twelve_is_written_in_decimal() {
    let names: Vec<String> = (0..12).map(|i| format!("V{}", i)).collect();
    let refs: Vec<&str> = names.iter().map(|s| s.as_str()).collect();
    let d = enumeration("Month", &refs);
    assert_eq!(
        derive_len_fields(&d).unwrap(),
        "impl Month {\n    pub fn len() -> usize {\n        12\n    }\n}\n"
    );
}

#[test]
fn regeneration_is_identical() {
    assert_eq!(derive_iter_fields(&stage()), derive_iter_fields(&stage()));
    assert_eq!(derive_len_fields(&stage()), derive_len_fields(&stage()));
    assert_eq!(derive_hash_fields(&stage()), derive_hash_fields(&stage()));
}

#[test]
fn decimal_digits() {
    let mut s = String::from("n=");
    push_decimal(&mut s, 0);
    assert_eq!(s, "n=0");
    let mut s = String::new();
    push_decimal(&mut s, 1234567890);
    assert_eq!(s, "1234567890");
    let mut s = String::new();
    push_decimal(&mut s, usize::MAX);
    assert_eq!(s, usize::MAX.to_string());
}

#[test]
fn path_list_separates_with_commas() {
    let mut s = String::from("[");
    push_path_list(&mut s, &"T".to_string(), &vec!["A".to_string(), "B".to_string()]);
    assert_eq!(s, "[T::A, T::B");
    let mut s = String::new();
    push_path_list(&mut s, &"T".to_string(), &Vec::new());
    assert_eq!(s, "");
}
