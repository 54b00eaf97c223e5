//! The type of any provider instance.

use vstd::prelude::*;
use crate::descriptor::{
    BaseShape, ConstructionError, Documentation, FieldSpec, TypeDescriptor,
};
use crate::identity::TypeIdentity;
use crate::matcher::ProviderMatcher;
use crate::registry::TypeRegistry;
use crate::value::{Value, ValueKind};

verus! {

/// Whether `descriptor` describes the abstract provider type: a user type
/// called `provider` that behaves like a user-declared provider, has no
/// supertypes and open fields, carries no documentation, and is satisfied by
/// exactly the values that have the provider capability.
pub open spec fn is_abstract_provider_type(descriptor: TypeDescriptor) -> bool {
    &&& descriptor matches TypeDescriptor::User(ty)
    &&& ty@.name == "provider"@
    &&& ty@.base == (BaseShape { kind: ValueKind::UserProvider })
    &&& ty@.supertypes.len() == 0
    &&& ty@.has_matcher
    &&& ty@.fields is Open
    &&& ty@.docs.field_docs is None
    &&& ty@.docs.summary_doc is None
    &&& ty@.docs.extra_metadata is None
    &&& forall|value: Value| #[trigger] descriptor.accepts(&value) == value.is_provider()
}

/// Builds the descriptor of the abstract provider type under a fresh
/// identity. Built-in providers behave like user-declared ones, so that is
/// its base shape.
///
/// The construction cannot fail: the name is not empty, open fields are
/// consistent, and the identity comes straight from the generator.
pub fn mk_ty_provider(registry: &mut TypeRegistry) -> (built: Result<
    TypeDescriptor,
    ConstructionError,
>)
    requires
        old(registry).wf(),
        !old(registry).exhausted(),
    ensures
        final(registry).wf(),
        built matches Ok(descriptor) && {
            &&& is_abstract_provider_type(descriptor)
            &&& descriptor.spec_identity().unwrap().serial() == final(registry).issued()
            &&& forall|other: TypeIdentity| #[trigger]
                final(registry).is_bound(other) == (old(registry).is_bound(other) || Some(other)
                    == descriptor.spec_identity())
        },
        final(registry).issued() == old(registry).issued() + 1,
        final(registry).abstract_provider() == old(registry).abstract_provider(),
{
    let identity = registry.generate();
    proof {
        reveal_strlit("provider");
    }
    registry.build_user_type(
        "provider".to_owned(),
        BaseShape::of(ValueKind::UserProvider),
        Vec::new(),
        Some(&ProviderMatcher),
        identity,
        FieldSpec::unknown(),
        Documentation::default(),
    )
}

/// Type of any provider instance. In Starlark it is available as `Provider`.
pub struct AbstractProvider;

impl AbstractProvider {
    /// The descriptor of the abstract provider type: built when first asked
    /// for, the same for every caller after that.
    pub fn starlark_type_repr(registry: &mut TypeRegistry) -> (descriptor: TypeDescriptor)
        requires
            old(registry).wf(),
            old(registry).abstract_provider() is None ==> !old(registry).exhausted(),
        ensures
            final(registry).wf(),
            TypeRegistry::lookup_step(*old(registry), *final(registry), descriptor),
    {
        registry.abstract_provider_type()
    }
}

} // verus!
