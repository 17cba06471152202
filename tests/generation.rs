use builder::assemble::{assemble, generate, join_texts};
use builder::declaration::{
    extract_fields, Declaration, DeclarationBody, DeclarationMetadata, FieldDescriptor,
    GenerationError, RawField,
};
use builder::fragments::{
    assembly_fragment, check_fragment, default_fragment, setter_fragment, slot_fragment,
    synthesize,
};
use builder::syntax::DeriveError;

const PERSON: &str = " struct PersonBuilder  {  name: ::std::option::Option<String>,  age: ::std::option::Option<u32> } impl PersonBuilder  { pub fn name(&mut self, name: String) -> &mut Self { self.name = ::std::option::Option::Some(name); self } pub fn age(&mut self, age: u32) -> &mut Self { self.age = ::std::option::Option::Some(age); self } pub fn build(&self) -> ::std::result::Result<Person, ::std::boxed::Box<dyn ::std::error::Error>> { let name: String = match self.name.clone() { ::std::option::Option::Some(value) => value, ::std::option::Option::None => return ::std::result::Result::Err(::std::boxed::Box::from(\"missing required field `name`\")), }; let age: u32 = match self.age.clone() { ::std::option::Option::Some(value) => value, ::std::option::Option::None => return ::std::result::Result::Err(::std::boxed::Box::from(\"missing required field `age`\")), }; ::std::result::Result::Ok(Person { name: name, age: age }) } } impl Person  { pub fn builder() -> PersonBuilder { PersonBuilder { name: ::std::option::Option::None, age: ::std::option::Option::None } } }";
const EMPTY: &str = "pub struct EmptyBuilder  {  } impl EmptyBuilder  {  pub fn build(&self) -> ::std::result::Result<Empty, ::std::boxed::Box<dyn ::std::error::Error>> {  ::std::result::Result::Ok(Empty {  }) } } impl Empty  { pub fn builder() -> EmptyBuilder { EmptyBuilder {  } } }";
const WRAPPER: &str = "pub struct WrapperBuilder< T : Clone > where T : Default { pub inner: ::std::option::Option<T> } impl< T : Clone > WrapperBuilder< T > where T : Default { pub fn inner(&mut self, inner: T) -> &mut Self { self.inner = ::std::option::Option::Some(inner); self } pub fn build(&self) -> ::std::result::Result<Wrapper< T >, ::std::boxed::Box<dyn ::std::error::Error>> { let inner: T = match self.inner.clone() { ::std::option::Option::Some(value) => value, ::std::option::Option::None => return ::std::result::Result::Err(::std::boxed::Box::from(\"missing required field `inner`\")), }; ::std::result::Result::Ok(Wrapper { inner: inner }) } } impl< T : Clone > Wrapper< T > where T : Default { pub fn builder() -> WrapperBuilder< T > { WrapperBuilder { inner: ::std::option::Option::None } } }";

fn metadata(ident: &str, vis: &str) -> DeclarationMetadata {
    DeclarationMetadata {
        ident: ident.to_string(),
        vis: vis.to_string(),
        impl_generics: String::new(),
        type_generics: String::new(),
        where_clause: String::new(),
    }
}

fn raw(name: Option<&str>, ty: &str, vis: &str) -> RawField {
    RawField { name: name.map(|n| n.to_string()), ty: ty.to_string(), vis: vis.to_string() }
}

fn person() -> Declaration {
    Declaration {
        metadata: metadata("Person", ""),
        body: DeclarationBody::Record(vec![raw(Some("name"), "String", ""), raw(Some("age"), "u32", "")]),
    }
}

fn field(name: &str, ty: &str, vis: &str) -> FieldDescriptor {
    FieldDescriptor { name: name.to_string(), ty: ty.to_string(), vis: vis.to_string() }
}

#[test]
fn fragments_of_one_field() {
    let f = field("age", "u32", "pub");
    assert_eq!(slot_fragment(&f), "pub age: ::std::option::Option<u32>");
    assert_eq!(default_fragment(&f), "age: ::std::option::Option::None");
    assert_eq!(
        setter_fragment(&f),
        "pub fn age(&mut self, age: u32) -> &mut Self { self.age = ::std::option::Option::Some(age); self }"
    );
    assert_eq!(
        check_fragment(&f),
        "let age: u32 = match self.age.clone() { ::std::option::Option::Some(value) => value, ::std::option::Option::None => return ::std::result::Result::Err(::std::boxed::Box::from(\"missing required field `age`\")), };"
    );
    assert_eq!(assembly_fragment(&f), "age: age");
}

#[test]
fn synthesized_lists_follow_field_order() {
    let fields = vec![field("a", "u8", ""), field("b", "String", "pub"), field("c", "bool", "")];
    let shape = synthesize(&fields);
    assert_eq!(shape.slots.len(), 3);
    assert_eq!(shape.defaults.len(), 3);
    assert_eq!(shape.setters.len(), 3);
    assert_eq!(shape.checks.len(), 3);
    assert_eq!(shape.assembly.len(), 3);
    for (i, f) in fields.iter().enumerate() {
        assert_eq!(shape.slots[i], slot_fragment(f));
        assert_eq!(shape.defaults[i], default_fragment(f));
        assert_eq!(shape.setters[i], setter_fragment(f));
        assert_eq!(shape.checks[i], check_fragment(f));
        assert_eq!(shape.assembly[i], assembly_fragment(f));
    }
    assert_eq!(shape.assembly, vec!["a: a".to_string(), "b: b".to_string(), "c: c".to_string()]);
}

#[test]
fn join_puts_separator_between_parts() {
    let parts = vec!["x".to_string(), "y".to_string(), "z".to_string()];
    assert_eq!(join_texts(&parts, ", "), "x, y, z");
    assert_eq!(join_texts(&vec!["only".to_string()], ", "), "only");
    assert_eq!(join_texts(&Vec::new(), ", "), "");
}

#[test]
fn extraction_keeps_declaration_order() {
    let fields = extract_fields(&person().body).unwrap();
    assert_eq!(fields, vec![field("name", "String", ""), field("age", "u32", "")]);
}

#[test]
fn extraction_rejects_other_shapes() {
    assert_eq!(extract_fields(&DeclarationBody::TaggedUnion), Err(GenerationError::TaggedUnion));
    assert_eq!(extract_fields(&DeclarationBody::OpaqueAggregate), Err(GenerationError::OpaqueAggregate));
    let tuple = DeclarationBody::Record(vec![raw(None, "u8", ""), raw(None, "u16", "")]);
    assert_eq!(extract_fields(&tuple), Err(GenerationError::UnnamedFields));
    let mixed = DeclarationBody::Record(vec![raw(Some("a"), "u8", ""), raw(None, "u16", "")]);
    assert_eq!(extract_fields(&mixed), Err(GenerationError::UnnamedFields));
}

#[test]
fn generate_two_field_record() {
    assert_eq!(generate(&person()).unwrap(), PERSON);
}

#[test]
fn assemble_matches_generate() {
    let decl = person();
    let shape = synthesize(&extract_fields(&decl.body).unwrap());
    assert_eq!(assemble(&decl.metadata, &shape), PERSON);
}

#[test]
fn generate_zero_fields() {
    let decl = Declaration { metadata: metadata("Empty", "pub"), body: DeclarationBody::Record(Vec::new()) };
    assert_eq!(generate(&decl).unwrap(), EMPTY);
}

#[test]
fn generate_rejects_enum_and_union() {
    let mut decl = person();
    decl.body = DeclarationBody::TaggedUnion;
    assert_eq!(generate(&decl), Err(GenerationError::TaggedUnion));
    decl.body = DeclarationBody::OpaqueAggregate;
    assert_eq!(generate(&decl), Err(GenerationError::OpaqueAggregate));
}

#[test]
fn messages_name_declaration_and_shape() {
    assert_eq!(
        GenerationError::TaggedUnion.message("Shape"),
        "cannot derive a builder for `Shape`: it is an enum (a tagged union); only structs with named fields are supported"
    );
    assert_eq!(
        GenerationError::OpaqueAggregate.message("Bits"),
        "cannot derive a builder for `Bits`: it is a union (an opaque aggregate); only structs with named fields are supported"
    );
    assert_eq!(
        GenerationError::UnnamedFields.message("Pair"),
        "cannot derive a builder for `Pair`: its fields have no names; only structs with named fields are supported"
    );
}

#[test]
fn derive_from_source_text() {
    assert_eq!(builder::syntax::derive("struct Person { name: String, age: u32 }").unwrap().1, PERSON);
    assert_eq!(builder::syntax::derive("pub struct Empty {}").unwrap().1, EMPTY);
    assert_eq!(builder::syntax::derive("pub struct Empty;").unwrap().1, EMPTY);
}

#[test]
fn derive_keeps_generics_and_where_clause() {
    let text = builder::syntax::derive("pub struct Wrapper<T: Clone> where T: Default { pub inner: T }").unwrap().1;
    assert_eq!(text, WRAPPER);
}

#[test]
fn derived_text_is_rust_items() {
    for source in [
        "struct Person { name: String, age: u32 }",
        "pub struct Empty;",
        "pub struct Wrapper<T: Clone> where T: Default { pub inner: T }",
        "pub(crate) struct Conf<'a> { pub(crate) path: &'a str, retries: Vec<u8> }",
    ] {
        let text = builder::syntax::derive(source).unwrap().1;
        let file: syn::File = syn::parse_str(&text).unwrap();
        assert_eq!(file.items.len(), 3);
    }
}

#[test]
fn derive_reports_unsupported_shapes() {
    match builder::syntax::derive("enum Shape { Circle, Square }") {
        Err(DeriveError::Unsupported { declaration, reason }) => {
            assert_eq!(declaration.metadata.ident, "Shape");
            assert_eq!(reason, GenerationError::TaggedUnion);
        }
        other => panic!("unexpected: {:?}", other),
    }
    match builder::syntax::derive("union Bits { a: u32, b: f32 }") {
        Err(DeriveError::Unsupported { declaration, reason }) => {
            assert_eq!(declaration.metadata.ident, "Bits");
            assert_eq!(reason, GenerationError::OpaqueAggregate);
        }
        other => panic!("unexpected: {:?}", other),
    }
    match builder::syntax::derive("struct Pair(u8, u16);") {
        Err(DeriveError::Unsupported { declaration, reason }) => {
            assert_eq!(declaration.metadata.ident, "Pair");
            assert_eq!(reason, GenerationError::UnnamedFields);
        }
        other => panic!("unexpected: {:?}", other),
    }
}

#[test]
fn derive_reports_syntax_errors() {
    assert!(matches!(builder::syntax::derive("fn not_a_type() {}"), Err(DeriveError::Syntax(_))));
    assert!(matches!(builder::syntax::derive("struct {"), Err(DeriveError::Syntax(_))));
}

#[test]
fn derive_hands_back_the_parsed_declaration() {
    let (decl, text) = builder::syntax::derive("struct Person { name: String, age: u32 }").unwrap();
    assert_eq!(decl, person());
    assert_eq!(text, PERSON);
}
