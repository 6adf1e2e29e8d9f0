use union_resolver::kind::{KindTag, KIND_COUNT};
use union_resolver::schema::{SchemaError, UnionSchema};

fn all_kinds() -> Vec<KindTag> {
    vec![
        KindTag::Null,
        KindTag::Boolean,
        KindTag::Int32,
        KindTag::Int64,
        KindTag::Float,
        KindTag::Double,
        KindTag::String,
        KindTag::Bytes,
    ]
}

#[test]
fn ordinals_follow_the_declaration() {
    let ordinals: Vec<usize> = all_kinds().into_iter().map(KindTag::ordinal).collect();

    assert_eq!(vec![0, 1, 2, 3, 4, 5, 6, 7], ordinals);
    assert_eq!(8, KIND_COUNT);
}

#[test]
fn build_keeps_the_declaration_order() {
    let schema = UnionSchema::build(vec![KindTag::Int32, KindTag::Int64, KindTag::Boolean]).unwrap();

    assert_eq!(
        &[KindTag::Int32, KindTag::Int64, KindTag::Boolean][..],
        schema.kinds()
    );
    assert_eq!(3, schema.len());
}

#[test]
fn build_accepts_no_variants() {
    let schema = UnionSchema::build(Vec::new()).unwrap();

    assert_eq!(0, schema.len());
    assert!(schema.kinds().is_empty());
    for kind in all_kinds() {
        assert_eq!(None, schema.lookup(kind));
        assert!(!schema.declares(kind));
    }
}

#[test]
fn build_accepts_every_kind_once() {
    let schema = UnionSchema::build(all_kinds()).unwrap();

    assert_eq!(KIND_COUNT, schema.len());
    for (position, kind) in all_kinds().into_iter().enumerate() {
        assert_eq!(Some(position), schema.lookup(kind));
    }
}

#[test]
fn build_refuses_a_kind_declared_twice() {
    let built = UnionSchema::build(vec![KindTag::Int32, KindTag::Int32]);

    assert_eq!(Some(SchemaError::DuplicateKind(KindTag::Int32)), built.err());
}

#[test]
fn build_refuses_duplicates_in_any_order() {
    let orders = vec![
        vec![KindTag::Int32, KindTag::Int32, KindTag::Int64],
        vec![KindTag::Int32, KindTag::Int64, KindTag::Int32],
        vec![KindTag::Int64, KindTag::Int32, KindTag::Int32],
    ];
    for variants in orders {
        let built = UnionSchema::build(variants);
        assert_eq!(Some(SchemaError::DuplicateKind(KindTag::Int32)), built.err());
    }
}

#[test]
fn build_reports_the_first_kind_that_repeats() {
    let built = UnionSchema::build(vec![
        KindTag::Int32,
        KindTag::Int64,
        KindTag::Int64,
        KindTag::Int32,
    ]);
    assert_eq!(Some(SchemaError::DuplicateKind(KindTag::Int64)), built.err());

    let built = UnionSchema::build(vec![
        KindTag::Bytes,
        KindTag::Null,
        KindTag::Boolean,
        KindTag::Bytes,
        KindTag::Null,
    ]);
    assert_eq!(Some(SchemaError::DuplicateKind(KindTag::Bytes)), built.err());
}

#[test]
fn build_refuses_a_duplicate_at_the_far_end() {
    let mut variants = all_kinds();
    variants.push(KindTag::Null);

    let built = UnionSchema::build(variants);
    assert_eq!(Some(SchemaError::DuplicateKind(KindTag::Null)), built.err());
}

#[test]
fn lookup_finds_the_position_of_a_declared_kind() {
    let schema = UnionSchema::build(vec![KindTag::Int32, KindTag::Int64, KindTag::Boolean]).unwrap();

    assert_eq!(Some(0), schema.lookup(KindTag::Int32));
    assert_eq!(Some(1), schema.lookup(KindTag::Int64));
    assert_eq!(Some(2), schema.lookup(KindTag::Boolean));
}

#[test]
fn lookup_finds_nothing_for_an_undeclared_kind() {
    let schema = UnionSchema::build(vec![KindTag::Int32, KindTag::Int64, KindTag::Boolean]).unwrap();

    assert_eq!(None, schema.lookup(KindTag::Null));
    assert_eq!(None, schema.lookup(KindTag::Float));
    assert_eq!(None, schema.lookup(KindTag::Double));
    assert_eq!(None, schema.lookup(KindTag::String));
    assert_eq!(None, schema.lookup(KindTag::Bytes));
}

#[test]
fn declares_tells_declared_from_undeclared() {
    let schema = UnionSchema::build(vec![KindTag::String, KindTag::Null]).unwrap();

    assert!(schema.declares(KindTag::String));
    assert!(schema.declares(KindTag::Null));
    assert!(!schema.declares(KindTag::Bytes));
    assert!(!schema.declares(KindTag::Int32));
}

#[test]
fn clone_declares_the_same_variants() {
    let schema = UnionSchema::build(vec![KindTag::Double, KindTag::Float]).unwrap();
    let copy = schema.clone();

    assert_eq!(schema.kinds(), copy.kinds());
    assert_eq!(Some(0), copy.lookup(KindTag::Double));
    assert_eq!(Some(1), copy.lookup(KindTag::Float));
    assert_eq!(None, copy.lookup(KindTag::Int32));
}
