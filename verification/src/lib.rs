//! A schema-driven code generator for "optionalized" companion structs.
//!
//! Given a description of a data-record struct (field names, declared types,
//! and an ignore marker per field), the library classifies each field,
//! synthesizes a companion struct in which every plain field becomes
//! optional, selects a per-field conversion rule toward a persistence-layer
//! update value (set / leave unchanged / not set), and emits the source text
//! of the companion struct, its conversion method, and the trait link that
//! binds the original struct to its companion.

pub mod convert;
pub mod model;
pub mod render;
pub mod synth;

use vstd::prelude::*;

use crate::convert::conversion_rules;
use crate::convert::rule_for;
use crate::convert::ConversionRule;
use crate::model::classify_fields;
use crate::model::classify_spec;
use crate::model::FieldDescriptor;
use crate::synth::emit_link;
use crate::synth::generated_struct_matches;
use crate::synth::synthesize_struct;
use crate::synth::GeneratedStructSpec;
use crate::synth::GenerationMode;
use crate::synth::LinkSpec;

verus! {

/// Links a struct to its generated optional companion: the companion is the
/// single canonical "all fields optional" counterpart of the original.
pub trait OptionalizeTrait {
    type Optional;
}

/// The item a derivation is attached to: only a struct with named fields is
/// supported.
#[derive(Debug, PartialEq, Eq)]
pub enum SourceItem {
    /// A struct with named fields, in declaration order.
    NamedStruct { name: String, fields: Vec<FieldDescriptor> },
    /// A tuple struct: unsupported.
    TupleStruct { name: String },
    /// An enum: unsupported.
    EnumItem { name: String },
    /// A union: unsupported.
    UnionItem { name: String },
}

/// The shape that made a derivation fail.
#[derive(Clone, Copy, Debug, PartialEq, Eq)]
pub enum UnsupportedKind {
    TupleStruct,
    Enumeration,
    Union,
}

/// A derivation failure, surfaced at generation time; nothing is emitted for
/// a failed derivation.
#[derive(Debug, PartialEq, Eq)]
pub enum DeriveError {
    /// The derivation target is not a struct with named fields. The
    /// diagnostic names the offending item and its shape.
    UnsupportedShape { item_name: String, kind: UnsupportedKind },
}

/// Everything one successful derivation emits.
#[derive(Debug, PartialEq, Eq)]
pub struct DeriveOutput {
    /// The generated companion struct's shape.
    pub generated: GeneratedStructSpec,
    /// Per-field conversion rules, in field order; present exactly under the
    /// ignore-aware mode, which alone emits the conversion method.
    pub rules: Option<Vec<ConversionRule>>,
    /// The trait link from the source struct to its companion.
    pub link: LinkSpec,
}

/// The classifier's verdicts for a field sequence, in order.
pub open spec fn classified_of(fields: Seq<FieldDescriptor>) -> Seq<model::ClassifiedField> {
    fields.map_values(|f: FieldDescriptor| classify_spec(f))
}

/// Whether a rule sequence is the rule table applied to each classified
/// field, in order.
pub open spec fn rules_match(
    fields: Seq<model::ClassifiedField>,
    rules: Seq<ConversionRule>,
) -> bool {
    &&& rules.len() == fields.len()
    &&& forall|i: int|
        0 <= i < fields.len() ==> rules[i] == rule_for(
            (#[trigger] fields[i]).is_ignored,
            fields[i].is_already_optional,
        )
}

/// What a successful derivation guarantees: the synthesized struct matches
/// the mode's policy over the classified fields, the link binds the source
/// name to the suffixed name, and the conversion rules are present exactly
/// under the ignore-aware mode.
pub open spec fn derive_ok(
    mode: GenerationMode,
    name: Seq<char>,
    fields: Seq<FieldDescriptor>,
    out: DeriveOutput,
) -> bool {
    &&& generated_struct_matches(mode, name, classified_of(fields), out.generated)
    &&& out.link.original@ == name
    &&& out.link.generated@ == synth::generated_name_spec(name)
    &&& match out.rules {
        Some(rules) => mode == GenerationMode::IgnoreAware && rules_match(
            classified_of(fields),
            rules@,
        ),
        None => mode == GenerationMode::Simple,
    }
}

/// Runs one derivation: classifies every field once, feeds the verdicts to
/// the struct synthesizer and (under the ignore-aware mode) the conversion
/// synthesizer, and emits the trait link. A target that is not a struct with
/// named fields fails with `UnsupportedShape` and emits nothing.
pub fn derive_optionalize(mode: GenerationMode, item: SourceItem) -> (r: Result<
    DeriveOutput,
    DeriveError,
>)
    ensures
        match item {
            SourceItem::NamedStruct { name, fields } => r matches Ok(out) && derive_ok(
                mode,
                name@,
                fields@,
                out,
            ),
            SourceItem::TupleStruct { name } => r matches Err(e) && e == (
            DeriveError::UnsupportedShape { item_name: name, kind: UnsupportedKind::TupleStruct }),
            SourceItem::EnumItem { name } => r matches Err(e) && e == (
            DeriveError::UnsupportedShape { item_name: name, kind: UnsupportedKind::Enumeration }),
            SourceItem::UnionItem { name } => r matches Err(e) && e == (
            DeriveError::UnsupportedShape { item_name: name, kind: UnsupportedKind::Union }),
        },
{
    match item {
        SourceItem::NamedStruct { name, fields } => {
            let classified = classify_fields(&fields);
            proof {
                assert(classified@ =~= classified_of(fields@));
            }
            let generated = synthesize_struct(mode, &name, &classified);
            let rules = match mode {
                GenerationMode::Simple => None,
                GenerationMode::IgnoreAware => Some(conversion_rules(&classified)),
            };
            let link = emit_link(&name);
            Ok(DeriveOutput { generated, rules, link })
        },
        SourceItem::TupleStruct { name } => Err(
            DeriveError::UnsupportedShape { item_name: name, kind: UnsupportedKind::TupleStruct },
        ),
        SourceItem::EnumItem { name } => Err(
            DeriveError::UnsupportedShape { item_name: name, kind: UnsupportedKind::Enumeration },
        ),
        SourceItem::UnionItem { name } => Err(
            DeriveError::UnsupportedShape { item_name: name, kind: UnsupportedKind::Union },
        ),
    }
}

/// The diagnostic text of a derivation failure: it names the offending item
/// and the unsupported shape.
pub open spec fn error_message_spec(e: DeriveError) -> Seq<char> {
    match e {
        DeriveError::UnsupportedShape { item_name, kind } => {
            let shape = match kind {
                UnsupportedKind::TupleStruct => "a tuple struct"@,
                UnsupportedKind::Enumeration => "an enum"@,
                UnsupportedKind::Union => "a union"@,
            };
            "Optionalize can only be used on structs with named fields: `"@ + item_name@ + "` is "@
                + shape
        },
    }
}

impl DeriveError {
    /// The diagnostic text of the failure.
    pub fn message(&self) -> (r: String)
        ensures
            r@ == error_message_spec(*self),
    {
        match self {
            DeriveError::UnsupportedShape { item_name, kind } => {
                let mut s: String =
                    "Optionalize can only be used on structs with named fields: `".to_owned();
                s.append(item_name.as_str());
                s.append("` is ");
                match kind {
                    UnsupportedKind::TupleStruct => s.append("a tuple struct"),
                    UnsupportedKind::Enumeration => s.append("an enum"),
                    UnsupportedKind::Union => s.append("a union"),
                }
                assert(s@ =~= error_message_spec(*self));
                s
            },
        }
    }
}

/// The full source text one successful derivation emits: the generated
/// struct, then (when the rules are present) the conversion method, then the
/// trait link.
pub open spec fn render_output_spec(out: DeriveOutput) -> Seq<char> {
    render::render_struct_spec(out.generated) + (match out.rules {
        Some(rules) => render::render_to_active_spec(out.generated, rules@),
        None => Seq::<char>::empty(),
    }) + render::render_link_spec(out.link)
}

/// Renders everything a successful derivation emits, in emission order.
pub fn render_derivation(out: &DeriveOutput) -> (r: String)
    requires
        (out.rules matches Some(rules) ==> rules@.len() == out.generated.fields@.len()),
    ensures
        r@ == render_output_spec(*out),
{
    let mut s = render::render_struct(&out.generated);
    match &out.rules {
        Some(rules) => {
            let method = render::render_to_active(&out.generated, rules);
            s.append(method.as_str());
        },
        None => {},
    }
    let link = render::render_link(&out.link);
    s.append(link.as_str());
    assert(s@ =~= render_output_spec(*out));
    s
}

} // verus!
