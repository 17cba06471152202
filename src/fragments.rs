//! The per-field fragments of a builder: storage slot, default initializer,
//! setter, presence check and assembly expression, and the synthesis of the
//! five index-aligned lists.
use vstd::prelude::*;
use crate::declaration::{FieldDescriptor, FieldText, field_texts};

verus! {

/// The views of a list of strings, in order.
pub open spec fn texts(v: Seq<String>) -> Seq<Seq<char>> {
    v.map_values(|s: String| s@)
}

/// Storage slot of the builder type: `vis name: Option<ty>`.
pub open spec fn slot_text(f: FieldText) -> Seq<char> {
    f.vis + " "@ + f.name + ": ::std::option::Option<"@ + f.ty + ">"@
}

/// Entry of the factory's initializer: the slot starts absent.
pub open spec fn default_text(f: FieldText) -> Seq<char> {
    f.name + ": ::std::option::Option::None"@
}

/// Setter named after the field: takes a value of the field's type, stores it
/// and returns the builder for chaining.
pub open spec fn setter_text(f: FieldText) -> Seq<char> {
    "pub fn "@ + f.name + "(&mut self, "@ + f.name + ": "@ + f.ty
        + ") -> &mut Self { self."@ + f.name + " = ::std::option::Option::Some("@ + f.name
        + "); self }"@
}

/// Presence check of the build method: binds a clone of the stored value under
/// the field's name, or returns an error that names the missing field.
pub open spec fn check_text(f: FieldText) -> Seq<char> {
    "let "@ + f.name + ": "@ + f.ty + " = match self."@ + f.name
        + ".clone() { ::std::option::Option::Some(value) => value, ::std::option::Option::None => return ::std::result::Result::Err(::std::boxed::Box::from(\"missing required field `"@
        + f.name + "`\")), };"@
}

/// Field initializer of the assembled value: `name: name`.
pub open spec fn assembly_text(f: FieldText) -> Seq<char> {
    f.name + ": "@ + f.name
}

pub fn slot_fragment(f: &FieldDescriptor) -> (r: String)
    ensures
        r@ == slot_text(f@),
{
    let mut s = f.vis.clone();
    s.append(" ");
    s.append(f.name.as_str());
    s.append(": ::std::option::Option<");
    s.append(f.ty.as_str());
    s.append(">");
    s
}

pub fn default_fragment(f: &FieldDescriptor) -> (r: String)
    ensures
        r@ == default_text(f@),
{
    let mut s = f.name.clone();
    s.append(": ::std::option::Option::None");
    s
}

pub fn setter_fragment(f: &FieldDescriptor) -> (r: String)
    ensures
        r@ == setter_text(f@),
{
    let mut s = String::from_str("pub fn ");
    s.append(f.name.as_str());
    s.append("(&mut self, ");
    s.append(f.name.as_str());
    s.append(": ");
    s.append(f.ty.as_str());
    s.append(") -> &mut Self { self.");
    s.append(f.name.as_str());
    s.append(" = ::std::option::Option::Some(");
    s.append(f.name.as_str());
    s.append("); self }");
    s
}

pub fn check_fragment(f: &FieldDescriptor) -> (r: String)
    ensures
        r@ == check_text(f@),
{
    let mut s = String::from_str("let ");
    s.append(f.name.as_str());
    s.append(": ");
    s.append(f.ty.as_str());
    s.append(" = match self.");
    s.append(f.name.as_str());
    s.append(
        ".clone() { ::std::option::Option::Some(value) => value, ::std::option::Option::None => return ::std::result::Result::Err(::std::boxed::Box::from(\"missing required field `",
    );
    s.append(f.name.as_str());
    s.append("`\")), };");
    s
}

pub fn assembly_fragment(f: &FieldDescriptor) -> (r: String)
    ensures
        r@ == assembly_text(f@),
{
    let mut s = f.name.clone();
    s.append(": ");
    s.append(f.name.as_str());
    s
}

/// The five fragment lists of a builder, one entry per field, index-aligned.
pub struct BuilderShape {
    pub slots: Vec<String>,
    pub defaults: Vec<String>,
    pub setters: Vec<String>,
    pub checks: Vec<String>,
    pub assembly: Vec<String>,
}

pub open spec fn slot_texts(fields: Seq<FieldText>) -> Seq<Seq<char>> {
    fields.map_values(|f: FieldText| slot_text(f))
}

pub open spec fn default_texts(fields: Seq<FieldText>) -> Seq<Seq<char>> {
    fields.map_values(|f: FieldText| default_text(f))
}

pub open spec fn setter_texts(fields: Seq<FieldText>) -> Seq<Seq<char>> {
    fields.map_values(|f: FieldText| setter_text(f))
}

pub open spec fn check_texts(fields: Seq<FieldText>) -> Seq<Seq<char>> {
    fields.map_values(|f: FieldText| check_text(f))
}

pub open spec fn assembly_texts(fields: Seq<FieldText>) -> Seq<Seq<char>> {
    fields.map_values(|f: FieldText| assembly_text(f))
}

/// Whether `shape` holds, at every index, the five fragments of the field at
/// that index, and nothing else.
pub open spec fn shape_of(shape: BuilderShape, fields: Seq<FieldText>) -> bool {
    &&& texts(shape.slots@) == slot_texts(fields)
    &&& texts(shape.defaults@) == default_texts(fields)
    &&& texts(shape.setters@) == setter_texts(fields)
    &&& texts(shape.checks@) == check_texts(fields)
    &&& texts(shape.assembly@) == assembly_texts(fields)
}

proof fn lemma_texts_push(v: Seq<String>, s: String)
    ensures
        texts(v.push(s)) == texts(v).push(s@),
{
    assert(texts(v.push(s)) =~= texts(v).push(s@));
}

/// Adding a field adds its five fragments at the end of the five lists.
proof fn lemma_fragment_texts_push(fields: Seq<FieldText>, f: FieldText)
    ensures
        slot_texts(fields.push(f)) == slot_texts(fields).push(slot_text(f)),
        default_texts(fields.push(f)) == default_texts(fields).push(default_text(f)),
        setter_texts(fields.push(f)) == setter_texts(fields).push(setter_text(f)),
        check_texts(fields.push(f)) == check_texts(fields).push(check_text(f)),
        assembly_texts(fields.push(f)) == assembly_texts(fields).push(assembly_text(f)),
{
    assert(slot_texts(fields.push(f)) =~= slot_texts(fields).push(slot_text(f)));
    assert(default_texts(fields.push(f)) =~= default_texts(fields).push(default_text(f)));
    assert(setter_texts(fields.push(f)) =~= setter_texts(fields).push(setter_text(f)));
    assert(check_texts(fields.push(f)) =~= check_texts(fields).push(check_text(f)));
    assert(assembly_texts(fields.push(f)) =~= assembly_texts(fields).push(assembly_text(f)));
}

/// Maps the field descriptors to the five fragment lists, keeping their order.
pub fn synthesize(fields: &Vec<FieldDescriptor>) -> (r: BuilderShape)
    ensures
        shape_of(r, field_texts(fields@)),
{
    let mut shape = BuilderShape {
        slots: Vec::new(),
        defaults: Vec::new(),
        setters: Vec::new(),
        checks: Vec::new(),
        assembly: Vec::new(),
    };
    let mut i: usize = 0;
    proof {
        let none = field_texts(fields@.subrange(0, 0));
        assert(texts(shape.slots@) =~= slot_texts(none));
        assert(texts(shape.defaults@) =~= default_texts(none));
        assert(texts(shape.setters@) =~= setter_texts(none));
        assert(texts(shape.checks@) =~= check_texts(none));
        assert(texts(shape.assembly@) =~= assembly_texts(none));
    }
    while i < fields.len()
        invariant
            i <= fields@.len(),
            shape.slots@.len() == i,
            shape.defaults@.len() == i,
            shape.setters@.len() == i,
            shape.checks@.len() == i,
            shape.assembly@.len() == i,
            shape_of(shape, field_texts(fields@.subrange(0, i as int))),
        decreases fields@.len() - i,
    {
        let f = &fields[i];
        let ghost before = field_texts(fields@.subrange(0, i as int));
        let ghost slots = shape.slots@;
        let ghost defaults = shape.defaults@;
        let ghost setters = shape.setters@;
        let ghost checks = shape.checks@;
        let ghost assembly = shape.assembly@;
        let slot = slot_fragment(f);
        let default = default_fragment(f);
        let setter = setter_fragment(f);
        let check = check_fragment(f);
        let assign = assembly_fragment(f);
        proof {
            assert(field_texts(fields@.subrange(0, i + 1)) =~= before.push(f@));
            lemma_fragment_texts_push(before, f@);
            lemma_texts_push(slots, slot);
            lemma_texts_push(defaults, default);
            lemma_texts_push(setters, setter);
            lemma_texts_push(checks, check);
            lemma_texts_push(assembly, assign);
        }
        shape.slots.push(slot);
        shape.defaults.push(default);
        shape.setters.push(setter);
        shape.checks.push(check);
        shape.assembly.push(assign);
        i = i + 1;
    }
    assert(fields@.subrange(0, fields@.len() as int) =~= fields@);
    shape
}

} // verus!
