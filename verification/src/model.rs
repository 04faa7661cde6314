//! Field descriptors and the field classifier.
//!
//! A field is described by its name, its declared type (inspected only
//! syntactically), and whether it carries the ignore marker. The classifier
//! computes a verdict for each descriptor: ignored, already optional, and,
//! for plain named types outside an explicit denylist of scalar names, a
//! candidate for the nested-counterpart rewrite.

use vstd::prelude::*;

verus! {

/// A field's declared type, as far as the generator inspects it.
///
/// Inspection is purely syntactic: type aliases are not resolved, so a field
/// declared through an alias of the optional wrapper is not recognized as
/// optional. That is a documented heuristic limitation.
#[derive(Debug, PartialEq, Eq)]
pub enum TypeExpr {
    /// A plain path type. `text` is the whole type's source text, `outer` its
    /// outermost path identifier, `has_args` whether generic arguments follow
    /// that identifier.
    Named { text: String, outer: String, has_args: bool },
    /// Any other shape (tuple, reference, slice, ...), kept only as source
    /// text: never optional, never a counterpart candidate.
    Other { text: String },
}

impl TypeExpr {
    /// The full source text of the type expression.
    pub open spec fn source_text(self) -> Seq<char> {
        match self {
            TypeExpr::Named { text, .. } => text@,
            TypeExpr::Other { text } => text@,
        }
    }

    /// Whether the outermost identifier is exactly the optional wrapper's
    /// name.
    pub open spec fn is_optional_wrapper(self) -> bool {
        match self {
            TypeExpr::Named { outer, .. } => outer@ == "Option"@,
            TypeExpr::Other { .. } => false,
        }
    }

    /// The full source text of the type expression, for emission.
    pub fn text_ref(&self) -> (r: &String)
        ensures
            r@ == self.source_text(),
    {
        match self {
            TypeExpr::Named { text, .. } => text,
            TypeExpr::Other { text } => text,
        }
    }

    /// An equal copy of the type expression.
    pub fn duplicate(&self) -> (r: TypeExpr)
        ensures
            r == *self,
    {
        match self {
            TypeExpr::Named { text, outer, has_args } => TypeExpr::Named {
                text: text.clone(),
                outer: outer.clone(),
                has_args: *has_args,
            },
            TypeExpr::Other { text } => TypeExpr::Other { text: text.clone() },
        }
    }
}

/// The denylist of scalar type names that never count as having an optional
/// counterpart of their own. The list is deliberately explicit and auditable;
/// membership is by exact name, never inferred.
pub open spec fn is_scalar_name(name: Seq<char>) -> bool {
    ||| name == "i32"@
    ||| name == "i64"@
    ||| name == "u32"@
    ||| name == "u64"@
    ||| name == "f32"@
    ||| name == "f64"@
    ||| name == "String"@
    ||| name == "bool"@
}

/// Whether a declared type is shaped like a counterpart candidate: a bare
/// named path (no generic arguments; tuples, references and the like fail the
/// shape test) whose outermost identifier is not on the scalar denylist.
pub open spec fn counterpart_shape(t: TypeExpr) -> bool {
    match t {
        TypeExpr::Named { outer, has_args, .. } => !has_args && !is_scalar_name(outer@),
        TypeExpr::Other { .. } => false,
    }
}

/// One field of the source struct, as declared.
#[derive(Debug, PartialEq, Eq)]
pub struct FieldDescriptor {
    /// The field's identifier, unique within its struct.
    pub name: String,
    /// The field's declared type.
    pub declared_type: TypeExpr,
    /// True iff the field carries the ignore marker.
    pub is_ignored: bool,
}

impl FieldDescriptor {
    /// An equal copy of the descriptor.
    pub fn duplicate(&self) -> (r: FieldDescriptor)
        ensures
            r == *self,
    {
        FieldDescriptor {
            name: self.name.clone(),
            declared_type: self.declared_type.duplicate(),
            is_ignored: self.is_ignored,
        }
    }
}

/// A field together with the classifier's verdict.
#[derive(Debug, PartialEq, Eq)]
pub struct ClassifiedField {
    /// The descriptor the verdict was computed from.
    pub field: FieldDescriptor,
    /// Copied from the descriptor's ignore marker.
    pub is_ignored: bool,
    /// The declared type's outermost identifier is exactly the optional
    /// wrapper's name.
    pub is_already_optional: bool,
    /// Candidate for the nested-counterpart rewrite. Only meaningful, and
    /// only ever set, when the field is neither ignored nor already
    /// optional.
    pub has_optional_counterpart: bool,
}

/// The classifier's verdict as a function of the descriptor alone.
pub open spec fn classify_spec(f: FieldDescriptor) -> ClassifiedField {
    ClassifiedField {
        field: f,
        is_ignored: f.is_ignored,
        is_already_optional: f.declared_type.is_optional_wrapper(),
        has_optional_counterpart: !f.is_ignored && !f.declared_type.is_optional_wrapper()
            && counterpart_shape(f.declared_type),
    }
}

/// Compares a string against an expected name, by contents.
fn string_is(s: &String, expected: &str) -> (r: bool)
    ensures
        r == (s@ == expected@),
{
    s.eq(&expected.to_owned())
}

/// Whether a name is on the scalar denylist.
fn is_scalar(name: &String) -> (r: bool)
    ensures
        r == is_scalar_name(name@),
{
    string_is(name, "i32") || string_is(name, "i64") || string_is(name, "u32") || string_is(
        name,
        "u64",
    ) || string_is(name, "f32") || string_is(name, "f64") || string_is(name, "String")
        || string_is(name, "bool")
}

/// Classifies one field: total over all descriptors, and deterministic: the
/// verdict is pinned to `classify_spec` of the descriptor alone.
pub fn classify(f: &FieldDescriptor) -> (c: ClassifiedField)
    ensures
        c == classify_spec(*f),
{
    let is_already_optional = match &f.declared_type {
        TypeExpr::Named { outer, .. } => string_is(outer, "Option"),
        TypeExpr::Other { .. } => false,
    };
    let has_optional_counterpart = if f.is_ignored || is_already_optional {
        false
    } else {
        match &f.declared_type {
            TypeExpr::Named { outer, has_args, .. } => !*has_args && !is_scalar(outer),
            TypeExpr::Other { .. } => false,
        }
    };
    ClassifiedField {
        field: f.duplicate(),
        is_ignored: f.is_ignored,
        is_already_optional,
        has_optional_counterpart,
    }
}

/// Classifies every field of a struct, in declaration order.
pub fn classify_fields(fields: &Vec<FieldDescriptor>) -> (cs: Vec<ClassifiedField>)
    ensures
        cs@.len() == fields@.len(),
        forall|i: int| 0 <= i < fields@.len() ==> cs@[i] == classify_spec(#[trigger] fields@[i]),
{
    let mut cs: Vec<ClassifiedField> = Vec::new();
    let mut idx: usize = 0;
    while idx < fields.len()
        invariant
            idx <= fields@.len(),
            cs@.len() == idx,
            forall|i: int| 0 <= i < idx ==> cs@[i] == classify_spec(#[trigger] fields@[i]),
        decreases fields@.len() - idx,
    {
        cs.push(classify(&fields[idx]));
        idx += 1;
    }
    cs
}

/// Classification is deterministic: any two verdicts on the same field
/// descriptor are identical.
pub proof fn lemma_classification_deterministic(
    f: FieldDescriptor,
    c1: ClassifiedField,
    c2: ClassifiedField,
)
    requires
        c1 == classify_spec(f),
        c2 == classify_spec(f),
    ensures
        c1 == c2,
{
}

/// The classifier's invariant: the counterpart flag is set only for fields
/// that are neither ignored nor already optional.
pub proof fn lemma_counterpart_flag_guarded(f: FieldDescriptor)
    ensures
        classify_spec(f).has_optional_counterpart ==> !classify_spec(f).is_ignored
            && !classify_spec(f).is_already_optional,
{
}

} // verus!
