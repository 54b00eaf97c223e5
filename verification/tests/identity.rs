use provider_ty::identity::{IdentityGenerator, TypeIdentity};

#[test]
fn fresh_generator_has_issued_nothing() {
    let generator = IdentityGenerator::new();
    assert_eq!(generator.issued_count(), 0);
    assert!(!generator.is_exhausted());
}

#[test]
fn serial_numbers_count_from_one() {
    let mut generator = IdentityGenerator::new();
    let first = generator.generate();
    let second = generator.generate();
    let third = generator.generate();
    assert_eq!(first.value(), 1);
    assert_eq!(second.value(), 2);
    assert_eq!(third.value(), 3);
    assert_eq!(generator.issued_count(), 3);
}

#[test]
fn generated_identities_are_pairwise_distinct() {
    let mut generator = IdentityGenerator::new();
    let mut issued: Vec<TypeIdentity> = Vec::new();
    for _ in 0..200 {
        issued.push(generator.generate());
    }
    for i in 0..issued.len() {
        for j in (i + 1)..issued.len() {
            assert_ne!(issued[i], issued[j]);
        }
    }
}

#[test]
fn one_call_yields_one_identity() {
    let mut generator = IdentityGenerator::new();
    let only = generator.generate();
    assert_eq!(only, only);
    assert_eq!(generator.issued_count(), 1);
}

#[test]
fn identities_can_be_copied_and_compared() {
    let mut generator = IdentityGenerator::new();
    let id = generator.generate();
    let copy = id;
    assert_eq!(id, copy);
    assert_eq!(id.value(), copy.value());
}
