//! Runtime values as the matchers see them, and the provider capability.

use vstd::prelude::*;

verus! {

/// The host-level kind of a runtime value: which concrete representation
/// holds it.
#[derive(Clone, Copy, Debug, PartialEq, Eq, Hash, Structural)]
pub enum ValueKind {
    /// A plain integer.
    Int,
    /// A plain string.
    Str,
    /// A composite of named fields without the provider capability.
    Record,
    /// A provider of a built-in, fixed-shape kind.
    BuiltinProvider,
    /// An instance of a provider that a user of the build system declared.
    UserProvider,
}

/// A named field of a composite value.
pub struct Field {
    pub name: String,
    pub value: Value,
}

/// A provider of a built-in kind; `name` is the kind's name.
pub struct BuiltinProvider {
    pub name: String,
    pub fields: Vec<Field>,
}

/// An instance of a user-declared provider; `name` is the declared name.
pub struct UserProvider {
    pub name: String,
    pub fields: Vec<Field>,
}

/// A runtime value, one variant per concrete representation.
pub enum Value {
    Int(i64),
    Str(String),
    Record(Vec<Field>),
    BuiltinProvider(BuiltinProvider),
    UserProvider(UserProvider),
}

/// What a provider exposes, whatever its representation: its name and its
/// fields, borrowed from the value.
pub struct ProviderView<'a> {
    pub name: &'a String,
    pub fields: &'a Vec<Field>,
}

/// Whether no field before position `upto` is called `name`.
pub open spec fn none_named_before(fields: Seq<Field>, name: Seq<char>, upto: int) -> bool {
    forall|j: int| 0 <= j < upto && j < fields.len() ==> (#[trigger] fields[j]).name@ != name
}

/// Whether `at` is the position of the first field called `name`.
pub open spec fn first_named(fields: Seq<Field>, name: Seq<char>, at: int) -> bool {
    &&& 0 <= at < fields.len()
    &&& fields[at].name@ == name
    &&& none_named_before(fields, name, at)
}

impl Value {
    /// The kind of this value.
    pub open spec fn spec_kind(&self) -> ValueKind {
        match self {
            Value::Int(_) => ValueKind::Int,
            Value::Str(_) => ValueKind::Str,
            Value::Record(_) => ValueKind::Record,
            Value::BuiltinProvider(_) => ValueKind::BuiltinProvider,
            Value::UserProvider(_) => ValueKind::UserProvider,
        }
    }

    /// Whether this value has the provider capability.
    pub open spec fn is_provider(&self) -> bool {
        self is BuiltinProvider || self is UserProvider
    }

    /// The kind of this value.
    #[verifier::when_used_as_spec(spec_kind)]
    pub fn kind(&self) -> (k: ValueKind)
        ensures
            k == self.spec_kind(),
    {
        match self {
            Value::Int(_) => ValueKind::Int,
            Value::Str(_) => ValueKind::Str,
            Value::Record(_) => ValueKind::Record,
            Value::BuiltinProvider(_) => ValueKind::BuiltinProvider,
            Value::UserProvider(_) => ValueKind::UserProvider,
        }
    }

    /// The capability probe: the provider view of this value, if it is a
    /// provider.
    ///
    /// Each provider representation answers with its own name and fields;
    /// every other value answers `None`.
    pub fn as_provider_view(&self) -> (view: Option<ProviderView<'_>>)
        ensures
            view is Some <==> self.is_provider(),
            self matches Value::BuiltinProvider(p) ==> view == Some(
                (ProviderView { name: &p.name, fields: &p.fields }),
            ),
            self matches Value::UserProvider(p) ==> view == Some(
                (ProviderView { name: &p.name, fields: &p.fields }),
            ),
    {
        match self {
            Value::BuiltinProvider(p) => Some(ProviderView { name: &p.name, fields: &p.fields }),
            Value::UserProvider(p) => Some(ProviderView { name: &p.name, fields: &p.fields }),
            _ => None,
        }
    }
}

impl<'a> ProviderView<'a> {
    /// Looks a field up by name.
    ///
    /// Returns the value of the first field called `name`, and `None` exactly
    /// when the provider has no such field.
    pub fn get(&self, name: &str) -> (found: Option<&'a Value>)
        ensures
            found is None <==> none_named_before(self.fields@, name@, self.fields@.len() as int),
            found matches Some(v) ==> exists|at: int|
                #[trigger] first_named(self.fields@, name@, at) && *v == self.fields@[at].value,
    {
        let fields: &'a Vec<Field> = self.fields;
        let wanted: String = name.to_owned();
        let mut i: usize = 0;
        while i < fields.len()
            invariant
                i <= fields.len(),
                fields == self.fields,
                wanted@ == name@,
                none_named_before(fields@, name@, i as int),
            decreases fields.len() - i,
        {
            if fields[i].name == wanted {
                assert(first_named(fields@, name@, i as int));
                return Some(&fields[i].value);
            }
            i = i + 1;
        }
        None
    }
}

} // verus!
