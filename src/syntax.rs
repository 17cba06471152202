//! From the source text of a declaration to the source text of its builder:
//! syn parses the declaration and prints its parts; the rest is the verified
//! generator.
use vstd::prelude::*;
use quote::ToTokens;
use syn::{parse_str, Data, DeriveInput};
use crate::declaration::DeclarationBody::{OpaqueAggregate, Record, TaggedUnion};
use crate::declaration::{
    Declaration,
    DeclarationBody,
    DeclarationMetadata,
    GenerationError,
    RawField,
    body_error,
};
use crate::assemble::{generate, generated};

verus! {

#[verifier::external_type_specification]
#[verifier::external_body]
pub struct ExSynError(syn::Error);

/// Why the type that the text declares, once it parses as a declaration, has
/// no builder: an enum, a union or a tuple struct with fields; `None` for a
/// struct with named fields or none.
pub uninterp spec fn declared_shape(source: Seq<char>) -> Option<GenerationError>;

/// Relies on `syn::parse_str::<syn::DeriveInput>` to parse one struct, enum or
/// union declaration, on `Generics::split_for_impl`, and on `quote::ToTokens`
/// to print visibilities, generics and field types as source text. Whether the
/// text parses, and how names and types are spelled, can differ between
/// processes (inside the compiler, proc-macro2 lexes with the compiler's own
/// lexer); once the text parses, which kind of declaration it is and whether
/// its fields have names are the same under both lexers. syn parses by
/// recursive descent with no depth limit: a type or expression nested deeply
/// enough for the calling thread's stack overflows it and aborts the process.
#[verifier::external_body]
fn parse_declaration(source: &str) -> (r: Result<Declaration, syn::Error>)
    ensures
        r matches Ok(d) ==> body_error(d.body) == declared_shape(source@),
{
    let input: DeriveInput = parse_str(source)?;
    let text = |t: &dyn ToTokens| t.to_token_stream().to_string();
    let split = input.generics.split_for_impl();
    Ok(Declaration {
        metadata: DeclarationMetadata { ident: input.ident.to_string(), vis: text(&input.vis), impl_generics: text(&split.0), type_generics: text(&split.1), where_clause: text(&split.2) },
        body: match &input.data {
            Data::Struct(data) => Record(data.fields.iter().map(|f| RawField { name: f.ident.as_ref().map(ToString::to_string), ty: text(&f.ty), vis: text(&f.vis) }).collect()),
            Data::Enum(_) => TaggedUnion,
            Data::Union(_) => OpaqueAggregate,
        },
    })
}

/// Why `derive` produced no builder.
#[derive(Debug)]
pub enum DeriveError {
    /// The text is not a declaration.
    Syntax(syn::Error),
    /// The parsed declaration has a shape that no builder is made for.
    Unsupported { declaration: Declaration, reason: GenerationError },
}

/// Parses the source text of a declaration and generates its builder's source
/// text, handing back the parsed declaration with it. Whether the text parses
/// is up to syn (and, inside the compiler, the compiler's lexer); once it does,
/// a struct with named fields (or none) gets exactly the text that `generate`
/// gives for the parsed declaration, and any other shape gets the error that
/// `generate` gives for it. Nesting deep enough to overflow the calling
/// thread's stack in syn's parser aborts the process; callers that take
/// untrusted text run this on a thread with a stack to match.
pub fn derive(source: &str) -> (r: Result<(Declaration, String), DeriveError>)
    ensures
        !(r is Err && r->Err_0 is Syntax) ==> (r is Ok <==> declared_shape(source@) is None),
        r matches Ok((d, text)) ==> generated(d) == Ok::<Seq<char>, GenerationError>(text@),
        r matches Err(DeriveError::Unsupported { declaration, reason }) ==> generated(declaration)
            == Err::<Seq<char>, GenerationError>(reason) && declared_shape(source@) == Some(reason),
{
    match parse_declaration(source) {
        Err(e) => Err(DeriveError::Syntax(e)),
        Ok(decl) => match generate(&decl) {
            Ok(text) => Ok((decl, text)),
            Err(reason) => Err(DeriveError::Unsupported { declaration: decl, reason }),
        },
    }
}

} // verus!
