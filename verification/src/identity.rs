//! Type identities and the generator that issues them.

use vstd::prelude::*;

verus! {

/// An opaque token that tells logically distinct type descriptors apart.
///
/// One identity is minted per descriptor, never per value of the described
/// type. The only way to obtain one is [`IdentityGenerator::generate`].
#[derive(Clone, Copy, Debug, PartialEq, Eq, Hash, Structural)]
pub struct TypeIdentity {
    serial: u64,
}

impl TypeIdentity {
    /// The position of this identity in its generator's order of issue,
    /// counted from 1.
    pub closed spec fn serial(self) -> nat {
        self.serial as nat
    }

    /// The serial number as a machine integer.
    pub fn value(&self) -> (v: u64)
        ensures
            v == self.serial(),
    {
        self.serial
    }

    /// Two identities with the same serial number are the same identity.
    pub proof fn lemma_serial_injective(a: TypeIdentity, b: TypeIdentity)
        ensures
            a.serial() == b.serial() <==> a == b,
    {
    }
}

/// Issues identities, each one different from all it issued before.
pub struct IdentityGenerator {
    last: u64,
}

impl IdentityGenerator {
    /// How many identities this generator has issued so far.
    pub closed spec fn issued(&self) -> nat {
        self.last as nat
    }

    /// Whether `id` is one of the identities issued so far.
    pub open spec fn has_issued(&self, id: TypeIdentity) -> bool {
        1 <= id.serial() <= self.issued()
    }

    /// Whether every identity that fits the machine word has been issued.
    pub open spec fn exhausted(&self) -> bool {
        self.issued() >= u64::MAX
    }

    /// What one call of [`generate`](Self::generate) does: the count goes up
    /// by one and the identity handed out carries the new count.
    pub open spec fn generate_step(
        pre: IdentityGenerator,
        post: IdentityGenerator,
        id: TypeIdentity,
    ) -> bool {
        &&& post.issued() == pre.issued() + 1
        &&& id.serial() == post.issued()
    }

    /// A generator that has issued nothing yet.
    pub fn new() -> (g: IdentityGenerator)
        ensures
            g.issued() == 0,
            !g.exhausted(),
    {
        IdentityGenerator { last: 0 }
    }

    /// The number of identities issued so far.
    pub fn issued_count(&self) -> (n: u64)
        ensures
            n == self.issued(),
    {
        self.last
    }

    /// Tells whether [`generate`](Self::generate) may still be called.
    pub fn is_exhausted(&self) -> (b: bool)
        ensures
            b == self.exhausted(),
    {
        self.last == u64::MAX
    }

    /// Issues a fresh identity.
    ///
    /// The result was never issued before, and everything issued before
    /// stays issued.
    pub fn generate(&mut self) -> (id: TypeIdentity)
        requires
            !old(self).exhausted(),
        ensures
            Self::generate_step(*old(self), *final(self), id),
            !old(self).has_issued(id),
            final(self).has_issued(id),
            forall|other: TypeIdentity|
                old(self).has_issued(other) ==> #[trigger] final(self).has_issued(other),
    {
        self.last = self.last + 1;
        TypeIdentity { serial: self.last }
    }

    /// Along any run of `generate` calls the count of issued identities grows
    /// by one per call.
    proof fn lemma_run_counts(states: Seq<IdentityGenerator>, ids: Seq<TypeIdentity>, k: int)
        requires
            states.len() == ids.len() + 1,
            forall|i: int|
                0 <= i < ids.len() ==> #[trigger] Self::generate_step(
                    states[i],
                    states[i + 1],
                    ids[i],
                ),
            0 <= k < states.len(),
        ensures
            states[k].issued() == states[0].issued() + k,
        decreases k,
    {
        if k > 0 {
            Self::lemma_run_counts(states, ids, k - 1);
            assert(Self::generate_step(states[k - 1], states[k - 1 + 1], ids[k - 1]));
        }
    }

    /// Identity uniqueness: however many times a generator is asked, the
    /// identities it hands out are pairwise distinct.
    ///
    /// `states` are the generator's successive states and `ids[i]` is what the
    /// call that led from `states[i]` to `states[i + 1]` returned.
    pub proof fn lemma_generated_identities_distinct(
        states: Seq<IdentityGenerator>,
        ids: Seq<TypeIdentity>,
    )
        requires
            states.len() == ids.len() + 1,
            forall|i: int|
                0 <= i < ids.len() ==> #[trigger] Self::generate_step(
                    states[i],
                    states[i + 1],
                    ids[i],
                ),
        ensures
            forall|i: int, j: int| 0 <= i < j < ids.len() ==> ids[i] != ids[j],
    {
        assert forall|i: int, j: int| 0 <= i < j < ids.len() implies ids[i] != ids[j] by {
            Self::lemma_run_counts(states, ids, i + 1);
            Self::lemma_run_counts(states, ids, j + 1);
            assert(Self::generate_step(states[i], states[i + 1], ids[i]));
            assert(Self::generate_step(states[j], states[j + 1], ids[j]));
        }
    }
}

} // verus!
