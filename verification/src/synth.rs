//! The struct synthesizer and the link emitter.
//!
//! Given the classified fields of a source struct, the synthesizer produces
//! the generated struct's shape: its name (the source name with a fixed
//! suffix appended) and one output field per source field, in declaration
//! order. Two divergent policies pick each output type; they share the single
//! classifier and are deliberately not unified:
//!
//! - simple: ignored or already-optional fields pass through; counterpart
//!   candidates become the optional wrapper around the candidate's own
//!   generated companion; everything else becomes the optional wrapper
//!   around the declared type;
//! - ignore-aware: ignored or already-optional fields pass through;
//!   everything else becomes the optional wrapper around the declared type
//!   (no counterpart rewrite).

use vstd::prelude::*;

use crate::model::ClassifiedField;
use crate::model::TypeExpr;

verus! {

/// Which of the two generation policies a derivation runs under. The two are
/// mutually exclusive targets, never combined in one derivation.
#[derive(Clone, Copy, Debug, PartialEq, Eq)]
pub enum GenerationMode {
    /// Emit the struct and the trait link only; attempt the nested
    /// counterpart rewrite.
    Simple,
    /// Emit the struct, the conversion method and the trait link; no
    /// counterpart rewrite.
    IgnoreAware,
}

/// The type a generated field is declared with.
#[derive(Debug, PartialEq, Eq)]
pub enum OutputType {
    /// The declared type, unchanged.
    Same(TypeExpr),
    /// The optional wrapper around the declared type.
    Wrapped(TypeExpr),
    /// The optional wrapper around the declared type's own generated
    /// companion, reached through the trait link.
    WrappedCounterpart(TypeExpr),
}

impl OutputType {
    /// Whether the output type is wrapped in the optional wrapper.
    pub open spec fn is_wrapped(self) -> bool {
        self is Wrapped || self is WrappedCounterpart
    }
}

/// The simple policy's output type for one classified field.
pub open spec fn output_type_simple(c: ClassifiedField) -> OutputType {
    if c.is_ignored || c.is_already_optional {
        OutputType::Same(c.field.declared_type)
    } else if c.has_optional_counterpart {
        OutputType::WrappedCounterpart(c.field.declared_type)
    } else {
        OutputType::Wrapped(c.field.declared_type)
    }
}

/// The ignore-aware policy's output type for one classified field.
pub open spec fn output_type_ignore_aware(c: ClassifiedField) -> OutputType {
    if c.is_ignored || c.is_already_optional {
        OutputType::Same(c.field.declared_type)
    } else {
        OutputType::Wrapped(c.field.declared_type)
    }
}

/// The output type a mode assigns to one classified field.
pub open spec fn output_type_for(mode: GenerationMode, c: ClassifiedField) -> OutputType {
    match mode {
        GenerationMode::Simple => output_type_simple(c),
        GenerationMode::IgnoreAware => output_type_ignore_aware(c),
    }
}

/// One field of the generated struct.
#[derive(Debug, PartialEq, Eq)]
pub struct GeneratedField {
    /// Same name as the source field.
    pub name: String,
    /// The rewritten declared type.
    pub ty: OutputType,
}

/// The generated struct's shape: its name and its fields, in the source
/// struct's declaration order.
#[derive(Debug, PartialEq, Eq)]
pub struct GeneratedStructSpec {
    /// The source struct's name with the fixed suffix appended.
    pub name: String,
    /// One output field per source field, order preserved.
    pub fields: Vec<GeneratedField>,
}

/// The generated struct's name: the source name with the fixed suffix.
pub open spec fn generated_name_spec(name: Seq<char>) -> Seq<char> {
    name + "Optional"@
}

/// Appends the fixed suffix to a struct name.
pub fn generated_name(name: &String) -> (r: String)
    ensures
        r@ == generated_name_spec(name@),
{
    let mut r = name.clone();
    r.append("Optional");
    r
}

/// What the synthesizer guarantees of its output: the suffixed name, one
/// field per source field in declaration order, each field keeping its name
/// and carrying the mode's output type.
pub open spec fn generated_struct_matches(
    mode: GenerationMode,
    name: Seq<char>,
    fields: Seq<ClassifiedField>,
    g: GeneratedStructSpec,
) -> bool {
    &&& g.name@ == generated_name_spec(name)
    &&& g.fields@.len() == fields.len()
    &&& forall|i: int|
        0 <= i < fields.len() ==> (#[trigger] g.fields@[i]).name@ == fields[i].field.name@
            && g.fields@[i].ty == output_type_for(mode, fields[i])
}

/// Synthesizes the generated struct's shape from the classified fields.
pub fn synthesize_struct(mode: GenerationMode, name: &String, fields: &Vec<ClassifiedField>) -> (g:
    GeneratedStructSpec)
    ensures
        generated_struct_matches(mode, name@, fields@, g),
{
    let mut out: Vec<GeneratedField> = Vec::new();
    let mut idx: usize = 0;
    while idx < fields.len()
        invariant
            idx <= fields@.len(),
            out@.len() == idx,
            forall|i: int|
                0 <= i < idx ==> (#[trigger] out@[i]).name@ == fields@[i].field.name@
                    && out@[i].ty == output_type_for(mode, fields@[i]),
        decreases fields@.len() - idx,
    {
        let c = &fields[idx];
        let ty = match mode {
            GenerationMode::Simple => {
                if c.is_ignored || c.is_already_optional {
                    OutputType::Same(c.field.declared_type.duplicate())
                } else if c.has_optional_counterpart {
                    OutputType::WrappedCounterpart(c.field.declared_type.duplicate())
                } else {
                    OutputType::Wrapped(c.field.declared_type.duplicate())
                }
            },
            GenerationMode::IgnoreAware => {
                if c.is_ignored || c.is_already_optional {
                    OutputType::Same(c.field.declared_type.duplicate())
                } else {
                    OutputType::Wrapped(c.field.declared_type.duplicate())
                }
            },
        };
        out.push(GeneratedField { name: c.field.name.clone(), ty });
        idx += 1;
    }
    GeneratedStructSpec { name: generated_name(name), fields: out }
}

/// The association between a source struct and its generated companion: one
/// binding per source struct, attachable as an associated-type link.
#[derive(Debug, PartialEq, Eq)]
pub struct LinkSpec {
    /// The source struct's name.
    pub original: String,
    /// The generated companion's name.
    pub generated: String,
}

/// Emits the single link from a source struct to its generated companion.
pub fn emit_link(name: &String) -> (l: LinkSpec)
    ensures
        l.original@ == name@,
        l.generated@ == generated_name_spec(name@),
{
    LinkSpec { original: name.clone(), generated: generated_name(name) }
}

/// A struct none of whose fields is ignored or already optional comes out
/// with exactly as many fields as it declares, in declaration order, every
/// one wrapped in the optional wrapper, under either mode. Under the
/// ignore-aware mode the wrapper sits directly around the declared type.
pub proof fn lemma_plain_struct_fully_wrapped(
    mode: GenerationMode,
    name: Seq<char>,
    fields: Seq<ClassifiedField>,
    g: GeneratedStructSpec,
)
    requires
        generated_struct_matches(mode, name, fields, g),
        forall|i: int|
            0 <= i < fields.len() ==> !(#[trigger] fields[i]).is_ignored
                && !fields[i].is_already_optional,
    ensures
        g.fields@.len() == fields.len(),
        forall|i: int| 0 <= i < fields.len() ==> (#[trigger] g.fields@[i]).ty.is_wrapped(),
        forall|i: int|
            0 <= i < fields.len() ==> (#[trigger] g.fields@[i]).name@ == fields[i].field.name@,
        mode == GenerationMode::IgnoreAware ==> forall|i: int|
            0 <= i < fields.len() ==> (#[trigger] g.fields@[i]).ty == OutputType::Wrapped(
                fields[i].field.declared_type,
            ),
{
}

/// An already-optional field that is not ignored keeps its declared type
/// unchanged under either mode: the wrapper is never doubled.
pub proof fn lemma_already_optional_unchanged(mode: GenerationMode, c: ClassifiedField)
    requires
        c.is_already_optional,
        !c.is_ignored,
    ensures
        output_type_for(mode, c) == OutputType::Same(c.field.declared_type),
{
}

/// An ignored field keeps its declared type unchanged under either mode,
/// whether or not it is already optional.
pub proof fn lemma_ignored_unchanged(mode: GenerationMode, c: ClassifiedField)
    requires
        c.is_ignored,
    ensures
        output_type_for(mode, c) == OutputType::Same(c.field.declared_type),
{
}

} // verus!
