//! Runtime type matchers and the factories that produce them.

use vstd::prelude::*;
use crate::value::Value;

verus! {

/// A runtime predicate that decides whether a value satisfies a logical
/// type, whatever the value's concrete representation.
///
/// An implementation states what it accepts as a specification function, and
/// `matches` is held to it: the answer depends on the value alone, and asking
/// changes nothing.
pub trait TypeMatcher: Send + Sync {
    /// The values that satisfy the type.
    spec fn accepts(&self, value: &Value) -> bool;

    /// Decides whether `value` satisfies the type.
    fn matches(&self, value: &Value) -> (accepted: bool)
        ensures
            accepted == self.accepts(value),
    ;
}

/// Holds one value. Verus loses sight of a boxed trait object that is stored
/// in a struct field directly; stored in this cell it stays known.
struct Held<T> {
    item: T,
}

/// A matcher bound for use by one descriptor, with its concrete type erased.
pub struct Matcher {
    rule: Held<Box<dyn TypeMatcher>>,
}

impl Matcher {
    /// The values that this matcher accepts.
    pub closed spec fn accepts(&self, value: &Value) -> bool {
        self.rule.item.accepts(value)
    }

    /// Binds a boxed predicate.
    pub fn new(rule: Box<dyn TypeMatcher>) -> (matcher: Matcher)
        ensures
            forall|value: Value| #[trigger] matcher.accepts(&value) == rule.accepts(&value),
    {
        let held = Held { item: rule };
        assert(held.item == rule);
        let matcher = Matcher { rule: held };
        assert(matcher.rule == held);
        matcher
    }

    /// Decides whether `value` satisfies the type that this matcher stands
    /// for.
    pub fn matches(&self, value: &Value) -> (accepted: bool)
        ensures
            accepted == self.accepts(value),
    {
        self.rule.item.matches(value)
    }
}

/// Produces matchers. Every matcher that one factory makes accepts the same
/// values, so two descriptors built from the same factory behave alike.
pub trait MatcherFactory: Send + Sync {
    /// The values accepted by the matchers that this factory makes.
    spec fn yields(&self, value: &Value) -> bool;

    /// Makes a matcher.
    fn make(&self) -> (matcher: Matcher)
        ensures
            forall|value: Value| #[trigger] matcher.accepts(&value) == self.yields(&value),
    ;
}

/// Matches any provider instance, of whatever concrete kind.
#[derive(Clone, Copy, Debug)]
pub struct ProviderMatcher;

impl TypeMatcher for ProviderMatcher {
    open spec fn accepts(&self, value: &Value) -> bool {
        value.is_provider()
    }

    fn matches(&self, value: &Value) -> (accepted: bool) {
        value.as_provider_view().is_some()
    }
}

impl MatcherFactory for ProviderMatcher {
    open spec fn yields(&self, value: &Value) -> bool {
        value.is_provider()
    }

    fn make(&self) -> (matcher: Matcher) {
        Matcher::new(Box::new(ProviderMatcher))
    }
}

/// Matcher correctness: the provider matcher accepts a value exactly when the
/// capability probe answers for it. It accepts every value of each provider
/// representation, and rejects integers, strings and records.
pub proof fn lemma_provider_matcher_agrees_with_probe(value: Value)
    ensures
        ProviderMatcher.accepts(&value) <==> value.is_provider(),
        value is BuiltinProvider ==> ProviderMatcher.accepts(&value),
        value is UserProvider ==> ProviderMatcher.accepts(&value),
        value is Int ==> !ProviderMatcher.accepts(&value),
        value is Str ==> !ProviderMatcher.accepts(&value),
        value is Record ==> !ProviderMatcher.accepts(&value),
{
}

} // verus!
