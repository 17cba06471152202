//! The normalized description of one type declaration, and the extraction of
//! its field descriptors.
use vstd::prelude::*;

verus! {

/// One field as the declaration parser reports it: tuple fields carry no name.
/// Types and visibilities are kept as source text.
#[derive(Clone, Debug, PartialEq, Eq)]
pub struct RawField {
    pub name: Option<String>,
    pub ty: String,
    pub vis: String,
}

/// The shape of a declaration's storage.
#[derive(Clone, Debug, PartialEq, Eq)]
pub enum DeclarationBody {
    /// A struct, with its fields in declaration order (empty for a unit struct).
    Record(Vec<RawField>),
    /// An enum.
    TaggedUnion,
    /// A union.
    OpaqueAggregate,
}

/// Declaration-level metadata: the type's name, visibility and generics, as
/// source text. `impl_generics` is the parameter list with its bounds (and
/// without defaults), `type_generics` the parameters alone, `where_clause` the
/// where clause, if any.
#[derive(Clone, Debug, PartialEq, Eq)]
pub struct DeclarationMetadata {
    pub ident: String,
    pub vis: String,
    pub impl_generics: String,
    pub type_generics: String,
    pub where_clause: String,
}

/// One type declaration, normalized.
#[derive(Clone, Debug, PartialEq, Eq)]
pub struct Declaration {
    pub metadata: DeclarationMetadata,
    pub body: DeclarationBody,
}

/// A named field of a record: name, declared type and visibility.
#[derive(Clone, Debug, PartialEq, Eq)]
pub struct FieldDescriptor {
    pub name: String,
    pub ty: String,
    pub vis: String,
}

/// Why no builder can be generated for a declaration.
#[derive(Clone, Copy, Debug, PartialEq, Eq)]
pub enum GenerationError {
    /// The declaration is an enum.
    TaggedUnion,
    /// The declaration is a union.
    OpaqueAggregate,
    /// The declaration is a tuple struct with at least one field: its fields
    /// have no names. (A tuple struct with no fields, like a unit struct, has
    /// nothing unnamed and gets a builder.)
    UnnamedFields,
}

/// The diagnostic for a declaration named `ident` that has no builder.
pub open spec fn message_text(e: GenerationError, ident: Seq<char>) -> Seq<char> {
    "cannot derive a builder for `"@ + ident + "`: "@ + match e {
        GenerationError::TaggedUnion => "it is an enum (a tagged union)"@,
        GenerationError::OpaqueAggregate => "it is a union (an opaque aggregate)"@,
        GenerationError::UnnamedFields => "its fields have no names"@,
    } + "; only structs with named fields are supported"@
}

impl GenerationError {
    /// The diagnostic for a declaration named `ident`: names the declaration
    /// and the shape that was refused.
    pub fn message(&self, ident: &str) -> (r: String)
        ensures
            r@ == message_text(*self, ident@),
    {
        let mut s = String::from_str("cannot derive a builder for `");
        s.append(ident);
        s.append("`: ");
        match self {
            GenerationError::TaggedUnion => s.append("it is an enum (a tagged union)"),
            GenerationError::OpaqueAggregate => s.append("it is a union (an opaque aggregate)"),
            GenerationError::UnnamedFields => s.append("its fields have no names"),
        }
        s.append("; only structs with named fields are supported");
        s
    }
}

/// The text of a field descriptor.
pub ghost struct FieldText {
    pub name: Seq<char>,
    pub ty: Seq<char>,
    pub vis: Seq<char>,
}

impl View for FieldDescriptor {
    type V = FieldText;

    open spec fn view(&self) -> FieldText {
        FieldText { name: self.name@, ty: self.ty@, vis: self.vis@ }
    }
}

/// The texts of a list of field descriptors, in order.
pub open spec fn field_texts(fields: Seq<FieldDescriptor>) -> Seq<FieldText> {
    fields.map_values(|f: FieldDescriptor| f@)
}

/// The descriptor text of a raw field that has a name.
pub open spec fn raw_field_text(f: RawField) -> FieldText {
    FieldText { name: f.name->Some_0@, ty: f.ty@, vis: f.vis@ }
}

pub open spec fn all_named(fields: Seq<RawField>) -> bool {
    forall|i: int| 0 <= i < fields.len() ==> (#[trigger] fields[i]).name is Some
}

/// The field descriptors of a declaration body, in declaration order, or the
/// reason it has none.
pub open spec fn extracted(body: DeclarationBody) -> Result<Seq<FieldText>, GenerationError> {
    match body {
        DeclarationBody::Record(fields) => if all_named(fields@) {
            Ok(fields@.map_values(|f: RawField| raw_field_text(f)))
        } else {
            Err(GenerationError::UnnamedFields)
        },
        DeclarationBody::TaggedUnion => Err(GenerationError::TaggedUnion),
        DeclarationBody::OpaqueAggregate => Err(GenerationError::OpaqueAggregate),
    }
}

/// Why a declaration body has no builder, if it has one.
pub open spec fn body_error(body: DeclarationBody) -> Option<GenerationError> {
    match body {
        DeclarationBody::Record(fields) => if all_named(fields@) {
            None
        } else {
            Some(GenerationError::UnnamedFields)
        },
        DeclarationBody::TaggedUnion => Some(GenerationError::TaggedUnion),
        DeclarationBody::OpaqueAggregate => Some(GenerationError::OpaqueAggregate),
    }
}

/// Extracts the ordered field descriptors of a record declaration; enums,
/// unions and tuple structs with fields are rejected.
pub fn extract_fields(body: &DeclarationBody) -> (r: Result<Vec<FieldDescriptor>, GenerationError>)
    ensures
        match r {
            Ok(fields) => extracted(*body) == Ok::<Seq<FieldText>, GenerationError>(
                field_texts(fields@),
            ),
            Err(e) => extracted(*body) == Err::<Seq<FieldText>, GenerationError>(e),
        },
{
    match body {
        DeclarationBody::Record(raw) => {
            let mut fields: Vec<FieldDescriptor> = Vec::new();
            let mut i: usize = 0;
            while i < raw.len()
                invariant
                    *body == DeclarationBody::Record(*raw),
                    i <= raw@.len(),
                    fields@.len() == i,
                    all_named(raw@.subrange(0, i as int)),
                    forall|j: int|
                        0 <= j < i ==> (#[trigger] fields@[j])@ == raw_field_text(raw@[j]),
                decreases raw@.len() - i,
            {
                let field = &raw[i];
                match &field.name {
                    Some(name) => {
                        fields.push(
                            FieldDescriptor {
                                name: name.clone(),
                                ty: field.ty.clone(),
                                vis: field.vis.clone(),
                            },
                        );
                    },
                    None => {
                        assert(!all_named(raw@)) by {
                            assert(raw@[i as int].name is None);
                        }
                        return Err(GenerationError::UnnamedFields);
                    },
                }
                assert(all_named(raw@.subrange(0, i + 1))) by {
                    assert forall|j: int| 0 <= j < i + 1 implies (#[trigger] raw@.subrange(
                        0,
                        i + 1,
                    )[j]).name is Some by {
                        if j < i {
                            assert(raw@.subrange(0, i + 1)[j] == raw@.subrange(0, i as int)[j]);
                        }
                    }
                }
                i = i + 1;
            }
            assert(raw@.subrange(0, raw@.len() as int) =~= raw@);
            assert(field_texts(fields@) =~= raw@.map_values(|f: RawField| raw_field_text(f)));
            Ok(fields)
        },
        DeclarationBody::TaggedUnion => Err(GenerationError::TaggedUnion),
        DeclarationBody::OpaqueAggregate => Err(GenerationError::OpaqueAggregate),
    }
}

} // verus!
