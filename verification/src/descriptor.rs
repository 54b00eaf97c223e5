//! Type descriptors: what static typing holds for each type.

use vstd::prelude::*;
use std::sync::Arc;
use dupe::Dupe;
use crate::identity::TypeIdentity;
use crate::matcher::Matcher;
use crate::value::{Value, ValueKind};

verus! {

/// The fixed structural shape of a built-in value kind.
#[derive(Clone, Copy, Debug, PartialEq, Eq, Hash, Structural)]
pub struct BaseShape {
    pub kind: ValueKind,
}

impl BaseShape {
    /// The shape of the values of `kind`.
    pub fn of(kind: ValueKind) -> (shape: BaseShape)
        ensures
            shape.kind == kind,
    {
        BaseShape { kind }
    }

    /// Whether `value` is of this shape's kind.
    pub fn matches(&self, value: &Value) -> (accepted: bool)
        ensures
            accepted == (value.spec_kind() == self.kind),
    {
        value.kind() == self.kind
    }
}

/// One declared field of a composite type: its name and its type.
pub struct FieldDecl {
    pub name: String,
    pub ty: TypeDescriptor,
}

/// The fields of a composite type.
pub enum FieldSpec {
    /// The fields are not known: the type stands for a family of values
    /// whose fields vary from one instance to the next.
    Open,
    /// Exactly these fields.
    Closed(Vec<FieldDecl>),
}

/// Whether the names of `decls` are pairwise distinct.
pub open spec fn names_distinct(decls: Seq<FieldDecl>) -> bool {
    forall|i: int, j: int|
        0 <= i < j < decls.len() ==> (#[trigger] decls[i]).name@ != (#[trigger] decls[j]).name@
}

impl FieldSpec {
    /// Whether the fields are open.
    pub open spec fn spec_is_open(&self) -> bool {
        self is Open
    }

    /// Whether the specification is consistent: a closed one names no field
    /// twice; an open one always is.
    pub open spec fn consistent(&self) -> bool {
        match self {
            FieldSpec::Open => true,
            FieldSpec::Closed(decls) => names_distinct(decls@),
        }
    }

    /// The specification of a type whose fields are all unknown.
    pub fn unknown() -> (spec: FieldSpec)
        ensures
            spec is Open,
    {
        FieldSpec::Open
    }

    /// The specification of a type that has no fields at all.
    pub fn no_fields() -> (spec: FieldSpec)
        ensures
            spec matches FieldSpec::Closed(decls) && decls@.len() == 0,
    {
        FieldSpec::Closed(Vec::new())
    }

    /// Whether the fields are open.
    #[verifier::when_used_as_spec(spec_is_open)]
    pub fn is_open(&self) -> (open: bool)
        ensures
            open == self.spec_is_open(),
    {
        match self {
            FieldSpec::Open => true,
            FieldSpec::Closed(_) => false,
        }
    }

    /// Checks the specification for consistency.
    #[verifier::loop_isolation(false)]
    pub fn is_consistent(&self) -> (ok: bool)
        ensures
            ok == self.consistent(),
    {
        match self {
            FieldSpec::Open => true,
            FieldSpec::Closed(decls) => {
                let mut j: usize = 0;
                while j < decls.len()
                    invariant
                        j <= decls.len(),
                        forall|a: int, b: int|
                            0 <= a < b < j ==> (#[trigger] decls@[a]).name@ != (
                            #[trigger] decls@[b]).name@,
                    decreases decls.len() - j,
                {
                    let mut i: usize = 0;
                    while i < j
                        invariant
                            i <= j < decls.len(),
                            forall|a: int, b: int|
                                0 <= a < b < j ==> (#[trigger] decls@[a]).name@ != (
                                #[trigger] decls@[b]).name@,
                            forall|a: int|
                                0 <= a < i ==> (#[trigger] decls@[a]).name@ != decls@[j as int].name@,
                        decreases j - i,
                    {
                        if decls[i].name == decls[j].name {
                            assert(decls@[i as int].name@ == decls@[j as int].name@);
                            return false;
                        }
                        i = i + 1;
                    }
                    j = j + 1;
                }
                true
            },
        }
    }
}

/// Documentation of one field.
pub struct FieldDoc {
    pub field: String,
    pub text: String,
}

/// One entry of free-form metadata.
pub struct MetadataEntry {
    pub key: String,
    pub text: String,
}

/// Why a descriptor could not be built.
#[derive(Clone, Copy, Debug, PartialEq, Eq, Hash, Structural)]
pub enum ConstructionError {
    /// The name is empty.
    EmptyName,
    /// A closed field specification names a field twice.
    DuplicateField,
    /// The identity did not come from the registry's generator.
    IdentityNotIssued,
    /// The identity already belongs to another descriptor.
    IdentityAlreadyBound,
}

impl ConstructionError {
    /// What went wrong, in words.
    pub open spec fn spec_message(&self) -> Seq<char> {
        match self {
            ConstructionError::EmptyName => "the name of a type must not be empty"@,
            ConstructionError::DuplicateField => "a field is declared more than once"@,
            ConstructionError::IdentityNotIssued => "the identity was not issued by this registry"@,
            ConstructionError::IdentityAlreadyBound => "the identity belongs to another type"@,
        }
    }

    /// What went wrong, in words.
    pub fn message(&self) -> (text: &'static str)
        ensures
            text@ == self.spec_message(),
    {
        match self {
            ConstructionError::EmptyName => "the name of a type must not be empty",
            ConstructionError::DuplicateField => "a field is declared more than once",
            ConstructionError::IdentityNotIssued => "the identity was not issued by this registry",
            ConstructionError::IdentityAlreadyBound => "the identity belongs to another type",
        }
    }
}

/// The optional documentation of a user type. [`Documentation::default`]
/// leaves all of it out.
pub struct Documentation {
    /// Documentation of single fields.
    pub field_docs: Option<Vec<FieldDoc>>,
    /// A summary of what the type is.
    pub summary_doc: Option<String>,
    /// Anything else worth recording.
    pub extra_metadata: Option<Vec<MetadataEntry>>,
}

impl Default for Documentation {
    /// No documentation at all.
    fn default() -> (docs: Documentation)
        ensures
            docs.field_docs is None,
            docs.summary_doc is None,
            docs.extra_metadata is None,
    {
        Documentation { field_docs: None, summary_doc: None, extra_metadata: None }
    }
}

/// What a user type consists of, as the contracts speak of it.
pub struct UserTypeView {
    pub name: Seq<char>,
    pub base: BaseShape,
    pub supertypes: Seq<BaseShape>,
    pub has_matcher: bool,
    pub identity: TypeIdentity,
    pub fields: FieldSpec,
    pub docs: Documentation,
}

/// A user-declared or composite type. Once built it never changes.
pub struct UserType {
    name: String,
    base: BaseShape,
    supertypes: Vec<BaseShape>,
    matcher: Option<Matcher>,
    identity: TypeIdentity,
    fields: FieldSpec,
    docs: Documentation,
}

impl View for UserType {
    type V = UserTypeView;

    closed spec fn view(&self) -> UserTypeView {
        UserTypeView {
            name: self.name@,
            base: self.base,
            supertypes: self.supertypes@,
            has_matcher: self.matcher is Some,
            identity: self.identity,
            fields: self.fields,
            docs: self.docs,
        }
    }
}

impl UserType {
    /// Every user type has a name and a consistent field specification.
    #[verifier::type_invariant]
    closed spec fn well_formed(&self) -> bool {
        &&& self.name@.len() > 0
        &&& self.fields.consistent()
    }

    /// The values that satisfy this type: those that its matcher accepts,
    /// or, without a matcher, those of its base shape's kind.
    pub closed spec fn accepts(&self, value: &Value) -> bool {
        match self.matcher {
            Some(matcher) => matcher.accepts(value),
            None => value.spec_kind() == self.base.kind,
        }
    }

    /// Puts a user type together from parts that were checked.
    pub(crate) fn assemble(
        name: String,
        base: BaseShape,
        supertypes: Vec<BaseShape>,
        matcher: Option<Matcher>,
        identity: TypeIdentity,
        fields: FieldSpec,
        docs: Documentation,
    ) -> (ty: UserType)
        requires
            name@.len() > 0,
            fields.consistent(),
        ensures
            ty@ == (UserTypeView {
                name: name@,
                base,
                supertypes: supertypes@,
                has_matcher: matcher is Some,
                identity,
                fields,
                docs,
            }),
            forall|value: Value| #[trigger]
                ty.accepts(&value) == match matcher {
                    Some(m) => m.accepts(&value),
                    None => value.spec_kind() == base.kind,
                },
    {
        UserType { name, base, supertypes, matcher, identity, fields, docs }
    }

    /// The name of the type; never empty.
    pub fn name(&self) -> (name: &String)
        ensures
            name@ == self@.name,
            name@.len() > 0,
    {
        proof {
            use_type_invariant(self);
        }
        &self.name
    }

    /// The shape that values of this type have.
    pub fn base(&self) -> (base: BaseShape)
        ensures
            base == self@.base,
    {
        self.base
    }

    /// The supertypes of this type, not counting its base shape.
    pub fn supertypes(&self) -> (supertypes: &Vec<BaseShape>)
        ensures
            supertypes@ == self@.supertypes,
    {
        &self.supertypes
    }

    /// Whether a matcher is bound to this type.
    pub fn has_matcher(&self) -> (bound: bool)
        ensures
            bound == self@.has_matcher,
    {
        self.matcher.is_some()
    }

    /// The identity of this type.
    pub fn identity(&self) -> (identity: TypeIdentity)
        ensures
            identity == self@.identity,
    {
        self.identity
    }

    /// The fields of this type; always consistent.
    pub fn fields(&self) -> (fields: &FieldSpec)
        ensures
            *fields == self@.fields,
            fields.consistent(),
    {
        proof {
            use_type_invariant(self);
        }
        &self.fields
    }

    /// The documentation that the type was built with.
    pub fn docs(&self) -> (docs: &Documentation)
        ensures
            *docs == self@.docs,
    {
        &self.docs
    }

    /// Decides whether `value` satisfies this type.
    pub fn matches(&self, value: &Value) -> (accepted: bool)
        ensures
            accepted == self.accepts(value),
    {
        match &self.matcher {
            Some(matcher) => matcher.matches(value),
            None => self.base.matches(value),
        }
    }
}

/// An immutable, shareable description of a type.
pub enum TypeDescriptor {
    /// The fixed shape of a built-in value kind.
    Base(BaseShape),
    /// A user-declared or composite type, shared by all who hold it.
    User(Arc<UserType>),
}

/// Calls `dupe` of the `dupe` crate on the shared pointer. That method is
/// `clone`, which for `Arc` hands out another pointer to the same allocation:
/// the copy points at the very user type that `shared` points at.
#[verifier::external_body]
fn dupe_shared(shared: &Arc<UserType>) -> (copy: Arc<UserType>)
    ensures
        copy == *shared,
{
    shared.dupe()
}

impl TypeDescriptor {
    /// The values that satisfy the described type.
    pub open spec fn accepts(&self, value: &Value) -> bool {
        match self {
            TypeDescriptor::Base(shape) => value.spec_kind() == shape.kind,
            TypeDescriptor::User(ty) => ty.accepts(value),
        }
    }

    /// The identity of the described type; built-in shapes have none.
    pub open spec fn spec_identity(&self) -> Option<TypeIdentity> {
        match self {
            TypeDescriptor::Base(_) => None,
            TypeDescriptor::User(ty) => Some(ty@.identity),
        }
    }

    /// The shape that values of the described type have.
    pub open spec fn spec_base(&self) -> BaseShape {
        match self {
            TypeDescriptor::Base(shape) => *shape,
            TypeDescriptor::User(ty) => ty@.base,
        }
    }

    /// The descriptor of a built-in shape.
    pub fn basic(shape: BaseShape) -> (descriptor: TypeDescriptor)
        ensures
            descriptor == TypeDescriptor::Base(shape),
    {
        TypeDescriptor::Base(shape)
    }

    /// The descriptor of a user type.
    pub fn custom(ty: UserType) -> (descriptor: TypeDescriptor)
        ensures
            descriptor matches TypeDescriptor::User(shared) && *shared == ty,
    {
        TypeDescriptor::User(Arc::new(ty))
    }

    /// The user type behind this descriptor, if it describes one.
    pub fn as_user(&self) -> (ty: Option<&UserType>)
        ensures
            match self {
                TypeDescriptor::Base(_) => ty is None,
                TypeDescriptor::User(shared) => ty == Some(&**shared),
            },
    {
        match self {
            TypeDescriptor::Base(_) => None,
            TypeDescriptor::User(shared) => Some(&**shared),
        }
    }

    /// The identity of the described type; built-in shapes have none.
    #[verifier::when_used_as_spec(spec_identity)]
    pub fn identity(&self) -> (identity: Option<TypeIdentity>)
        ensures
            identity == self.spec_identity(),
    {
        match self {
            TypeDescriptor::Base(_) => None,
            TypeDescriptor::User(shared) => Some(shared.identity()),
        }
    }

    /// The shape that values of the described type have.
    #[verifier::when_used_as_spec(spec_base)]
    pub fn base(&self) -> (base: BaseShape)
        ensures
            base == self.spec_base(),
    {
        match self {
            TypeDescriptor::Base(shape) => *shape,
            TypeDescriptor::User(shared) => shared.base(),
        }
    }

    /// Decides whether `value` satisfies the described type. Total: every
    /// value gets an answer.
    pub fn matches(&self, value: &Value) -> (accepted: bool)
        ensures
            accepted == self.accepts(value),
    {
        match self {
            TypeDescriptor::Base(shape) => shape.matches(value),
            TypeDescriptor::User(shared) => shared.matches(value),
        }
    }

    /// A cheap copy that shares the described type with `self`.
    pub fn dupe(&self) -> (copy: TypeDescriptor)
        ensures
            copy == *self,
    {
        match self {
            TypeDescriptor::Base(shape) => TypeDescriptor::Base(*shape),
            TypeDescriptor::User(shared) => TypeDescriptor::User(dupe_shared(shared)),
        }
    }
}

} // verus!
