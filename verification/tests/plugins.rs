use provider_ty::descriptor::{BaseShape, Documentation, FieldSpec};
use provider_ty::matcher::{Matcher, MatcherFactory, ProviderMatcher, TypeMatcher};
use provider_ty::registry::TypeRegistry;
use provider_ty::value::{UserProvider, Value, ValueKind};

/// Accepts the integers that are not negative.
struct Natural;

impl TypeMatcher for Natural {
    fn accepts(&self, value: &Value) -> bool {
        matches!(value, Value::Int(i) if *i >= 0)
    }

    fn matches(&self, value: &Value) -> bool {
        matches!(value, Value::Int(i) if *i >= 0)
    }
}

impl MatcherFactory for Natural {
    fn yields(&self, value: &Value) -> bool {
        Natural.accepts(value)
    }

    fn make(&self) -> Matcher {
        Matcher::new(Box::new(Natural))
    }
}

#[test]
fn a_boxed_predicate_decides_for_its_matcher() {
    let providers = Matcher::new(Box::new(ProviderMatcher));
    let provider = Value::UserProvider(UserProvider { name: "FooInfo".to_owned(), fields: vec![] });
    assert!(providers.matches(&provider));
    assert!(!providers.matches(&Value::Int(1)));
    let naturals = Matcher::new(Box::new(Natural));
    assert!(naturals.matches(&Value::Int(0)));
    assert!(!naturals.matches(&Value::Int(-1)));
    assert!(!naturals.matches(&provider));
}

#[test]
fn a_matcher_of_the_caller_can_be_bound_to_a_type() {
    let mut registry = TypeRegistry::new();
    let id = registry.generate();
    let built = registry
        .build_user_type(
            "natural".to_owned(),
            BaseShape::of(ValueKind::Int),
            vec![],
            Some(&Natural),
            id,
            FieldSpec::no_fields(),
            Documentation::default(),
        )
        .unwrap();
    assert!(built.matches(&Value::Int(5)));
    assert!(!built.matches(&Value::Int(-5)));
    assert!(!built.matches(&Value::Str("5".to_owned())));
}
