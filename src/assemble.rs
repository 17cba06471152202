//! Assembly of the fragment lists into the generated declarations: the builder
//! type, its setters and build method, and the factory method of the target.
use vstd::prelude::*;
use crate::declaration::{
    Declaration,
    DeclarationBody,
    DeclarationMetadata,
    GenerationError,
    extract_fields,
    extracted,
    all_named,
    raw_field_text,
};
use crate::fragments::{
    BuilderShape,
    texts,
    slot_text,
    default_text,
    setter_text,
    check_text,
    assembly_text,
    slot_texts,
    default_texts,
    setter_texts,
    check_texts,
    assembly_texts,
    synthesize,
};

verus! {

/// The parts joined in order, with `sep` between each two.
pub open spec fn join(parts: Seq<Seq<char>>, sep: Seq<char>) -> Seq<char>
    decreases parts.len(),
{
    if parts.len() == 0 {
        Seq::empty()
    } else if parts.len() == 1 {
        parts[0]
    } else {
        join(parts.drop_last(), sep) + sep + parts.last()
    }
}

/// Name of the builder type: the target's name with `Builder` appended.
pub open spec fn builder_name(m: DeclarationMetadata) -> Seq<char> {
    m.ident@ + "Builder"@
}

/// The builder type: one storage slot per field, with the target's visibility
/// and generic parameters.
pub open spec fn struct_text(m: DeclarationMetadata, slots: Seq<Seq<char>>) -> Seq<char> {
    m.vis@ + " struct "@ + builder_name(m) + m.impl_generics@ + " "@ + m.where_clause@ + " { "@
        + join(slots, ", "@) + " }"@
}

/// The build method: every presence check in field order, then the target
/// value from the bound names.
pub open spec fn build_text(
    m: DeclarationMetadata,
    checks: Seq<Seq<char>>,
    assembly: Seq<Seq<char>>,
) -> Seq<char> {
    "pub fn build(&self) -> ::std::result::Result<"@ + m.ident@ + m.type_generics@
        + ", ::std::boxed::Box<dyn ::std::error::Error>> { "@ + join(checks, " "@)
        + " ::std::result::Result::Ok("@ + m.ident@ + " { "@ + join(assembly, ", "@) + " }) }"@
}

/// The methods of the builder type: the setters, then the build method.
pub open spec fn methods_text(
    m: DeclarationMetadata,
    setters: Seq<Seq<char>>,
    checks: Seq<Seq<char>>,
    assembly: Seq<Seq<char>>,
) -> Seq<char> {
    "impl"@ + m.impl_generics@ + " "@ + builder_name(m) + m.type_generics@ + " "@
        + m.where_clause@ + " { "@ + join(setters, " "@) + " "@ + build_text(m, checks, assembly)
        + " }"@
}

/// The factory method of the target type: a builder with every slot absent.
pub open spec fn factory_text(m: DeclarationMetadata, defaults: Seq<Seq<char>>) -> Seq<char> {
    "impl"@ + m.impl_generics@ + " "@ + m.ident@ + m.type_generics@ + " "@ + m.where_clause@
        + " { pub fn builder() -> "@ + builder_name(m) + m.type_generics@ + " { "@ + builder_name(
        m,
    ) + " { "@ + join(defaults, ", "@) + " } } }"@
}

/// The generated declarations, from the metadata and the five fragment lists.
pub open spec fn builder_text(
    m: DeclarationMetadata,
    slots: Seq<Seq<char>>,
    defaults: Seq<Seq<char>>,
    setters: Seq<Seq<char>>,
    checks: Seq<Seq<char>>,
    assembly: Seq<Seq<char>>,
) -> Seq<char> {
    struct_text(m, slots) + " "@ + methods_text(m, setters, checks, assembly) + " "@
        + factory_text(m, defaults)
}

/// What generation gives for a declaration: the builder's source text, or the
/// reason the declaration has no builder.
pub open spec fn generated(decl: Declaration) -> Result<Seq<char>, GenerationError> {
    match extracted(decl.body) {
        Ok(fields) => Ok(
            builder_text(
                decl.metadata,
                slot_texts(fields),
                default_texts(fields),
                setter_texts(fields),
                check_texts(fields),
                assembly_texts(fields),
            ),
        ),
        Err(e) => Err(e),
    }
}

/// Joins the strings in order, with `sep` between each two.
pub fn join_texts(parts: &Vec<String>, sep: &str) -> (r: String)
    ensures
        r@ == join(texts(parts@), sep@),
{
    let mut out = String::new();
    let mut i: usize = 0;
    while i < parts.len()
        invariant
            i <= parts@.len(),
            out@ == join(texts(parts@.subrange(0, i as int)), sep@),
        decreases parts@.len() - i,
    {
        let ghost before = texts(parts@.subrange(0, i as int));
        let ghost after = texts(parts@.subrange(0, i + 1));
        assert(after.drop_last() =~= before);
        assert(after.last() == parts@[i as int]@);
        if i > 0 {
            out.append(sep);
        } else {
            assert(out@ + parts@[0]@ =~= parts@[0]@);
        }
        out.append(parts[i].as_str());
        i = i + 1;
    }
    assert(parts@.subrange(0, parts@.len() as int) =~= parts@);
    out
}

fn builder_name_of(m: &DeclarationMetadata) -> (r: String)
    ensures
        r@ == builder_name(*m),
{
    let mut s = m.ident.clone();
    s.append("Builder");
    s
}

fn build_method(m: &DeclarationMetadata, shape: &BuilderShape) -> (r: String)
    ensures
        r@ == build_text(*m, texts(shape.checks@), texts(shape.assembly@)),
{
    let mut s = String::from_str("pub fn build(&self) -> ::std::result::Result<");
    s.append(m.ident.as_str());
    s.append(m.type_generics.as_str());
    s.append(", ::std::boxed::Box<dyn ::std::error::Error>> { ");
    s.append(join_texts(&shape.checks, " ").as_str());
    s.append(" ::std::result::Result::Ok(");
    s.append(m.ident.as_str());
    s.append(" { ");
    s.append(join_texts(&shape.assembly, ", ").as_str());
    s.append(" }) }");
    s
}

/// Combines the metadata and the five fragment lists into the generated
/// declarations.
pub fn assemble(m: &DeclarationMetadata, shape: &BuilderShape) -> (r: String)
    ensures
        r@ == builder_text(
            *m,
            texts(shape.slots@),
            texts(shape.defaults@),
            texts(shape.setters@),
            texts(shape.checks@),
            texts(shape.assembly@),
        ),
{
    let name = builder_name_of(m);
    let mut decl = m.vis.clone();
    decl.append(" struct ");
    decl.append(name.as_str());
    decl.append(m.impl_generics.as_str());
    decl.append(" ");
    decl.append(m.where_clause.as_str());
    decl.append(" { ");
    decl.append(join_texts(&shape.slots, ", ").as_str());
    decl.append(" }");

    let mut methods = String::from_str("impl");
    methods.append(m.impl_generics.as_str());
    methods.append(" ");
    methods.append(name.as_str());
    methods.append(m.type_generics.as_str());
    methods.append(" ");
    methods.append(m.where_clause.as_str());
    methods.append(" { ");
    methods.append(join_texts(&shape.setters, " ").as_str());
    methods.append(" ");
    methods.append(build_method(m, shape).as_str());
    methods.append(" }");

    let mut factory = String::from_str("impl");
    factory.append(m.impl_generics.as_str());
    factory.append(" ");
    factory.append(m.ident.as_str());
    factory.append(m.type_generics.as_str());
    factory.append(" ");
    factory.append(m.where_clause.as_str());
    factory.append(" { pub fn builder() -> ");
    factory.append(name.as_str());
    factory.append(m.type_generics.as_str());
    factory.append(" { ");
    factory.append(name.as_str());
    factory.append(" { ");
    factory.append(join_texts(&shape.defaults, ", ").as_str());
    factory.append(" } } }");

    decl.append(" ");
    decl.append(methods.as_str());
    decl.append(" ");
    decl.append(factory.as_str());
    decl
}

/// Generates the builder declarations for a declaration: the builder type, its
/// methods and the factory method, or the reason no builder can be generated
/// (then nothing is emitted).
pub fn generate(decl: &Declaration) -> (r: Result<String, GenerationError>)
    ensures
        match r {
            Ok(text) => generated(*decl) == Ok::<Seq<char>, GenerationError>(text@),
            Err(e) => generated(*decl) == Err::<Seq<char>, GenerationError>(e),
        },
{
    match extract_fields(&decl.body) {
        Ok(fields) => {
            let shape = synthesize(&fields);
            Ok(assemble(&decl.metadata, &shape))
        },
        Err(e) => Err(e),
    }
}

/// For a struct whose fields all have names, the generated builder has one
/// storage slot, one default entry, one setter, one presence check and one
/// assembly entry per field: as many as the struct has fields, each list in
/// declaration order, entry `i` made from field `i`.
pub proof fn law_one_fragment_per_field(decl: Declaration)
    requires
        decl.body matches DeclarationBody::Record(raw) && all_named(raw@),
    ensures
        ({
            let raw = decl.body->Record_0@;
            let fields = raw.map_values(|f| raw_field_text(f));
            &&& generated(decl) == Ok::<Seq<char>, GenerationError>(
                builder_text(
                    decl.metadata,
                    slot_texts(fields),
                    default_texts(fields),
                    setter_texts(fields),
                    check_texts(fields),
                    assembly_texts(fields),
                ),
            )
            &&& slot_texts(fields).len() == raw.len()
            &&& default_texts(fields).len() == raw.len()
            &&& setter_texts(fields).len() == raw.len()
            &&& check_texts(fields).len() == raw.len()
            &&& assembly_texts(fields).len() == raw.len()
            &&& forall|i: int|
                0 <= i < raw.len() ==> {
                    &&& (#[trigger] fields[i]) == raw_field_text(raw[i])
                    &&& slot_texts(fields)[i] == slot_text(fields[i])
                    &&& default_texts(fields)[i] == default_text(fields[i])
                    &&& setter_texts(fields)[i] == setter_text(fields[i])
                    &&& check_texts(fields)[i] == check_text(fields[i])
                    &&& assembly_texts(fields)[i] == assembly_text(fields[i])
                }
        }),
{
}

/// Enums and unions are rejected: generation gives the matching error and no
/// text at all.
pub proof fn law_unsupported_shapes_rejected(decl: Declaration)
    ensures
        decl.body is TaggedUnion ==> generated(decl) == Err::<Seq<char>, GenerationError>(
            GenerationError::TaggedUnion,
        ),
        decl.body is OpaqueAggregate ==> generated(decl) == Err::<Seq<char>, GenerationError>(
            GenerationError::OpaqueAggregate,
        ),
{
}

} // verus!
