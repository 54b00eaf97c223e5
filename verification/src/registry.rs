//! The registry: the one owner of everything that types share.

use vstd::prelude::*;
use crate::abstract_provider::{is_abstract_provider_type, mk_ty_provider};
use crate::descriptor::{
    BaseShape, ConstructionError, Documentation, FieldSpec, TypeDescriptor, UserType,
    UserTypeView,
};
use crate::identity::{IdentityGenerator, TypeIdentity};
use crate::matcher::{Matcher, MatcherFactory};
use crate::slot::LazySlot;
use crate::value::Value;

verus! {

/// Owns the identity generator, the record of which identities are bound to
/// a descriptor, and the slots of the descriptors that are built once and
/// then shared.
///
/// Whoever sets up type checking creates one registry and hands it to all
/// who ask for descriptors. Every operation that changes it takes it by
/// exclusive reference, so callers come one at a time; a program with several
/// threads keeps the registry behind a lock.
pub struct TypeRegistry {
    generator: IdentityGenerator,
    bound: Vec<TypeIdentity>,
    abstract_provider: LazySlot<TypeDescriptor>,
}

impl TypeRegistry {
    /// How many identities the registry has issued.
    pub closed spec fn issued(&self) -> nat {
        self.generator.issued()
    }

    /// Whether `id` was issued by this registry.
    pub open spec fn has_issued(&self, id: TypeIdentity) -> bool {
        1 <= id.serial() <= self.issued()
    }

    /// Whether the registry can issue no further identity.
    pub open spec fn exhausted(&self) -> bool {
        self.issued() >= u64::MAX
    }

    /// Whether `id` belongs to a descriptor that this registry built.
    pub closed spec fn is_bound(&self, id: TypeIdentity) -> bool {
        self.bound@.contains(id)
    }

    /// The cached descriptor of the abstract provider type, once it exists.
    pub closed spec fn abstract_provider(&self) -> Option<TypeDescriptor> {
        self.abstract_provider@
    }

    /// The registry's invariant: only issued identities are bound, none is
    /// bound twice, and the abstract provider slot, once filled, holds the
    /// abstract provider type under a bound identity.
    pub closed spec fn wf(&self) -> bool {
        &&& forall|i: int|
            0 <= i < self.bound@.len() ==> self.generator.has_issued(#[trigger] self.bound@[i])
        &&& self.bound@.no_duplicates()
        &&& self.abstract_provider@ matches Some(descriptor) ==> {
            &&& is_abstract_provider_type(descriptor)
            &&& self.bound@.contains(descriptor.spec_identity().unwrap())
        }
    }

    /// In a well-formed registry every bound identity was issued by it, and
    /// the cached abstract provider type is what it should be.
    pub proof fn lemma_bound_identities_were_issued(&self)
        requires
            self.wf(),
        ensures
            forall|id: TypeIdentity| #[trigger] self.is_bound(id) ==> self.has_issued(id),
            self.abstract_provider() matches Some(descriptor) ==> {
                &&& is_abstract_provider_type(descriptor)
                &&& self.is_bound(descriptor.spec_identity().unwrap())
            },
    {
    }

    /// Which error, if any, stops the construction of a user type from these
    /// arguments. The checks come in this order: the name, the fields, then
    /// the identity.
    pub open spec fn construction_error(
        &self,
        name: Seq<char>,
        identity: TypeIdentity,
        fields: FieldSpec,
    ) -> Option<ConstructionError> {
        if name.len() == 0 {
            Some(ConstructionError::EmptyName)
        } else if !fields.consistent() {
            Some(ConstructionError::DuplicateField)
        } else if !self.has_issued(identity) {
            Some(ConstructionError::IdentityNotIssued)
        } else if self.is_bound(identity) {
            Some(ConstructionError::IdentityAlreadyBound)
        } else {
            None
        }
    }

    /// A registry that has issued no identity and built no descriptor.
    pub fn new() -> (registry: TypeRegistry)
        ensures
            registry.wf(),
            registry.issued() == 0,
            registry.abstract_provider() is None,
            forall|id: TypeIdentity| !registry.is_bound(id),
    {
        TypeRegistry {
            generator: IdentityGenerator::new(),
            bound: Vec::new(),
            abstract_provider: LazySlot::new(),
        }
    }

    /// The number of identities issued so far.
    pub fn issued_count(&self) -> (n: u64)
        ensures
            n == self.issued(),
    {
        self.generator.issued_count()
    }

    /// Tells whether [`generate`](Self::generate) may still be called.
    pub fn is_exhausted(&self) -> (b: bool)
        ensures
            b == self.exhausted(),
    {
        self.generator.is_exhausted()
    }

    /// Issues a fresh identity: one that was never issued, and so is bound to
    /// no descriptor.
    pub fn generate(&mut self) -> (id: TypeIdentity)
        requires
            old(self).wf(),
            !old(self).exhausted(),
        ensures
            final(self).wf(),
            final(self).issued() == old(self).issued() + 1,
            id.serial() == final(self).issued(),
            !final(self).is_bound(id),
            forall|other: TypeIdentity|
                #[trigger] final(self).is_bound(other) == old(self).is_bound(other),
            final(self).abstract_provider() == old(self).abstract_provider(),
    {
        let id = self.generator.generate();
        proof {
            if self.bound@.contains(id) {
                let i = choose|i: int| 0 <= i < self.bound@.len() && self.bound@[i] == id;
                assert(old(self).generator.has_issued(self.bound@[i]));
            }
        }
        id
    }

    /// Whether `id` is bound to a descriptor.
    pub fn is_identity_bound(&self, id: TypeIdentity) -> (bound: bool)
        ensures
            bound == self.is_bound(id),
    {
        let mut i: usize = 0;
        while i < self.bound.len()
            invariant
                i <= self.bound.len(),
                forall|j: int| 0 <= j < i ==> self.bound@[j] != id,
            decreases self.bound.len() - i,
        {
            if self.bound[i] == id {
                return true;
            }
            i = i + 1;
        }
        false
    }

    /// Builds the descriptor of a user type.
    ///
    /// Fails, and leaves the registry as it was, when the name is empty, when
    /// closed fields name a field twice, or when the identity was not issued
    /// by this registry or is already bound. Otherwise the descriptor holds
    /// exactly what was passed in, with a matcher made by the factory if there
    /// is one, and the identity is bound from then on.
    pub fn build_user_type(
        &mut self,
        name: String,
        base: BaseShape,
        supertypes: Vec<BaseShape>,
        matcher_factory: Option<&dyn MatcherFactory>,
        identity: TypeIdentity,
        fields: FieldSpec,
        docs: Documentation,
    ) -> (built: Result<TypeDescriptor, ConstructionError>)
        requires
            old(self).wf(),
        ensures
            final(self).wf(),
            final(self).issued() == old(self).issued(),
            final(self).abstract_provider() == old(self).abstract_provider(),
            match old(self).construction_error(name@, identity, fields) {
                Some(error) => {
                    &&& built == Err::<TypeDescriptor, ConstructionError>(error)
                    &&& *final(self) == *old(self)
                },
                None => {
                    &&& built matches Ok(TypeDescriptor::User(ty))
                    &&& ty@ == (UserTypeView {
                        name: name@,
                        base,
                        supertypes: supertypes@,
                        has_matcher: matcher_factory is Some,
                        identity,
                        fields,
                        docs,
                    })
                    &&& forall|value: Value| #[trigger]
                        ty.accepts(&value) == match matcher_factory {
                            Some(factory) => factory.yields(&value),
                            None => value.spec_kind() == base.kind,
                        }
                    &&& forall|other: TypeIdentity| #[trigger]
                        final(self).is_bound(other) == (old(self).is_bound(other) || other
                            == identity)
                },
            },
    {
        if name.as_str().is_empty() {
            return Err(ConstructionError::EmptyName);
        }
        if !fields.is_consistent() {
            return Err(ConstructionError::DuplicateField);
        }
        if identity.value() < 1 || identity.value() > self.generator.issued_count() {
            return Err(ConstructionError::IdentityNotIssued);
        }
        if self.is_identity_bound(identity) {
            return Err(ConstructionError::IdentityAlreadyBound);
        }
        let matcher: Option<Matcher> = match matcher_factory {
            Some(factory) => Some(factory.make()),
            None => None,
        };
        let ty = UserType::assemble(name, base, supertypes, matcher, identity, fields, docs);
        self.bound.push(identity);
        proof {
            assert forall|other: TypeIdentity| #[trigger]
                self.is_bound(other) == (old(self).is_bound(other) || other == identity) by {
                if old(self).bound@.contains(other) {
                    let i = choose|i: int|
                        0 <= i < old(self).bound@.len() && old(self).bound@[i] == other;
                    assert(self.bound@[i] == other);
                }
                if other == identity {
                    assert(self.bound@[old(self).bound@.len() as int] == other);
                }
            }
            if let Some(descriptor) = self.abstract_provider@ {
                let i = choose|i: int|
                    0 <= i < old(self).bound@.len() && old(self).bound@[i]
                        == descriptor.spec_identity().unwrap();
                assert(self.bound@[i] == descriptor.spec_identity().unwrap());
            }
        }
        Ok(TypeDescriptor::custom(ty))
    }

    /// The descriptor of the abstract provider type, built on the first call
    /// and shared by every later one.
    pub fn abstract_provider_type(&mut self) -> (descriptor: TypeDescriptor)
        requires
            old(self).wf(),
            old(self).abstract_provider() is None ==> !old(self).exhausted(),
        ensures
            final(self).wf(),
            Self::lookup_step(*old(self), *final(self), descriptor),
    {
        if !self.abstract_provider.is_initialized() {
            match mk_ty_provider(self) {
                Ok(built) => {
                    let factory = move || -> (made: TypeDescriptor)
                        ensures
                            made == built,
                        { built };
                    let ghost minted = *self;
                    self.abstract_provider.get_or_init(factory);
                    proof {
                        assert(minted.is_bound(built.spec_identity().unwrap()));
                        assert forall|other: TypeIdentity| #[trigger]
                            self.is_bound(other) == (old(self).is_bound(other) || Some(other)
                                == built.spec_identity()) by {
                            assert(self.is_bound(other) == minted.is_bound(other));
                        }
                    }
                },
                Err(_) => {},
            }
        }
        match self.abstract_provider.get() {
            Some(cached) => cached.dupe(),
            None => vstd::pervasive::unreached(),
        }
    }

    /// What one call of [`abstract_provider_type`](Self::abstract_provider_type)
    /// does.
    ///
    /// With the slot filled the registry stays as it is and the caller gets
    /// the cached descriptor. With the slot empty one descriptor is built,
    /// under one fresh identity, cached and returned.
    pub open spec fn lookup_step(
        pre: TypeRegistry,
        post: TypeRegistry,
        descriptor: TypeDescriptor,
    ) -> bool {
        match pre.abstract_provider() {
            Some(cached) => post == pre && descriptor == cached,
            None => {
                &&& post.abstract_provider() == Some(descriptor)
                &&& is_abstract_provider_type(descriptor)
                &&& post.issued() == pre.issued() + 1
                &&& descriptor.spec_identity().unwrap().serial() == post.issued()
                &&& forall|other: TypeIdentity| #[trigger]
                    post.is_bound(other) == (pre.is_bound(other) || Some(other)
                        == descriptor.spec_identity())
            },
        }
    }

    /// Whether `states` and `results` record a run of lookups of the abstract
    /// provider type: `results[i]` is what the lookup that led from
    /// `states[i]` to `states[i + 1]` returned.
    pub open spec fn lookup_run(states: Seq<TypeRegistry>, results: Seq<TypeDescriptor>) -> bool {
        &&& states.len() == results.len() + 1
        &&& forall|i: int|
            0 <= i < results.len() ==> #[trigger] Self::lookup_step(
                states[i],
                states[i + 1],
                results[i],
            )
    }

    /// After the first lookup of a run nothing moves any more: every later
    /// lookup returns the first one's descriptor and leaves the registry in
    /// the state that the first one left it in.
    proof fn lemma_run_settles(states: Seq<TypeRegistry>, results: Seq<TypeDescriptor>, k: int)
        requires
            Self::lookup_run(states, results),
            0 <= k < results.len(),
        ensures
            results[k] == results[0],
            states[k + 1] == states[1],
            states[k + 1].abstract_provider() == Some(results[0]),
        decreases k,
    {
        assert(Self::lookup_step(states[k], states[k + 1], results[k]));
        if k > 0 {
            Self::lemma_run_settles(states, results, k - 1);
        }
    }

    /// Single construction: however many callers ask for the abstract
    /// provider type of a registry that has none yet, one descriptor is
    /// built, under one fresh identity, and every caller receives that
    /// descriptor, equal in identity, fields and all else.
    pub proof fn lemma_single_construction(
        states: Seq<TypeRegistry>,
        results: Seq<TypeDescriptor>,
    )
        requires
            Self::lookup_run(states, results),
            results.len() >= 1,
            states[0].abstract_provider() is None,
        ensures
            states.last().issued() == states[0].issued() + 1,
            forall|i: int| 0 <= i < results.len() ==> #[trigger] results[i] == results[0],
            forall|i: int| 1 <= i < states.len() ==> #[trigger] states[i] == states[1],
            is_abstract_provider_type(results[0]),
    {
        assert(Self::lookup_step(states[0], states[0int + 1], results[0]));
        Self::lemma_run_settles(states, results, results.len() - 1);
        assert forall|i: int| 0 <= i < results.len() implies #[trigger] results[i]
            == results[0] by {
            Self::lemma_run_settles(states, results, i);
        }
        assert forall|i: int| 1 <= i < states.len() implies #[trigger] states[i] == states[1] by {
            Self::lemma_run_settles(states, results, i - 1);
        }
    }

    /// Idempotence: in any run of lookups, from whatever state it starts,
    /// every lookup returns a descriptor with the identity that the first one
    /// returned, and no lookup after the first issues an identity.
    pub proof fn lemma_lookups_keep_identity(
        states: Seq<TypeRegistry>,
        results: Seq<TypeDescriptor>,
    )
        requires
            Self::lookup_run(states, results),
        ensures
            forall|i: int|
                0 <= i < results.len() ==> (#[trigger] results[i]).spec_identity()
                    == results[0].spec_identity(),
            forall|i: int|
                1 <= i < states.len() ==> (#[trigger] states[i]).issued() == states[1].issued(),
    {
        assert forall|i: int| 0 <= i < results.len() implies (#[trigger] results[i]).spec_identity()
            == results[0].spec_identity() by {
            Self::lemma_run_settles(states, results, i);
        }
        assert forall|i: int| 1 <= i < states.len() implies (#[trigger] states[i]).issued()
            == states[1].issued() by {
            Self::lemma_run_settles(states, results, i - 1);
        }
    }

    /// No two descriptors share an identity: once an identity is bound, every
    /// further construction under it is refused, whatever else is passed.
    pub proof fn lemma_bound_identity_is_refused(
        &self,
        name: Seq<char>,
        identity: TypeIdentity,
        fields: FieldSpec,
    )
        requires
            self.wf(),
            self.is_bound(identity),
        ensures
            self.construction_error(name, identity, fields) is Some,
            name.len() > 0 && fields.consistent() ==> self.construction_error(
                name,
                identity,
                fields,
            ) == Some(ConstructionError::IdentityAlreadyBound),
    {
        self.lemma_bound_identities_were_issued();
    }

    /// Construction validation: an empty name is refused as such, whatever
    /// else is passed; a name that is not empty, open fields and an identity
    /// that was issued and is not bound are accepted.
    pub proof fn lemma_construction_validation(
        &self,
        name: Seq<char>,
        identity: TypeIdentity,
        fields: FieldSpec,
    )
        ensures
            name.len() == 0 ==> self.construction_error(name, identity, fields) == Some(
                ConstructionError::EmptyName,
            ),
            name.len() > 0 && fields is Open && self.has_issued(identity) && !self.is_bound(
                identity,
            ) ==> self.construction_error(name, identity, fields) is None,
    {
    }
}

} // verus!
