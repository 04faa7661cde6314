//! The conversion synthesizer's rule table and its value-level semantics.
//!
//! Under the ignore-aware mode the generated struct carries a one-shot
//! conversion method toward the persistence layer's update representation,
//! in which every field is one of: set to a value, left unchanged, or not
//! set. This module selects the per-field conversion rule from the
//! classifier's verdict and models what the emitted method does to an
//! instance's field values.

use vstd::prelude::*;

use crate::model::ClassifiedField;

verus! {

/// The per-field conversion directive, selected from the (ignored,
/// already-optional) pair alone.
#[derive(Clone, Copy, Debug, PartialEq, Eq)]
pub enum ConversionRule {
    /// Pass the field's raw value straight through as "leave unchanged".
    Unchanged,
    /// Present becomes "set to the value"; absent becomes "not set".
    SetOrNotSet,
    /// Present becomes "set to the present optional"; absent becomes "not
    /// set". Used where the original field was itself optional, so that the
    /// set value keeps its optional shape.
    SetSomeOrNotSet,
}

/// The rule table: ignored fields always pass through unchanged, whatever
/// their optionality; otherwise an already-optional field sets the present
/// optional, and a plain field sets the bare value.
pub open spec fn rule_for(ignored: bool, already_optional: bool) -> ConversionRule {
    if ignored {
        ConversionRule::Unchanged
    } else if already_optional {
        ConversionRule::SetSomeOrNotSet
    } else {
        ConversionRule::SetOrNotSet
    }
}

/// Selects the conversion rule for one classified field.
pub fn conversion_rule(c: &ClassifiedField) -> (r: ConversionRule)
    ensures
        r == rule_for(c.is_ignored, c.is_already_optional),
{
    if c.is_ignored {
        ConversionRule::Unchanged
    } else if c.is_already_optional {
        ConversionRule::SetSomeOrNotSet
    } else {
        ConversionRule::SetOrNotSet
    }
}

/// Selects the conversion rule for every field, in declaration order.
pub fn conversion_rules(fields: &Vec<ClassifiedField>) -> (rs: Vec<ConversionRule>)
    ensures
        rs@.len() == fields@.len(),
        forall|i: int|
            0 <= i < fields@.len() ==> rs@[i] == rule_for(
                (#[trigger] fields@[i]).is_ignored,
                fields@[i].is_already_optional,
            ),
{
    let mut rs: Vec<ConversionRule> = Vec::new();
    let mut idx: usize = 0;
    while idx < fields.len()
        invariant
            idx <= fields@.len(),
            rs@.len() == idx,
            forall|i: int|
                0 <= i < idx ==> rs@[i] == rule_for(
                    (#[trigger] fields@[i]).is_ignored,
                    fields@[i].is_already_optional,
                ),
        decreases fields@.len() - idx,
    {
        rs.push(conversion_rule(&fields[idx]));
        idx += 1;
    }
    rs
}

/// A field value of a generated-struct instance, as the conversion method
/// sees it: a scalar, a text, or an optional slot.
#[derive(Debug, PartialEq, Eq)]
pub enum FieldValue {
    /// An integer value.
    Int(i64),
    /// A textual value.
    Text(String),
    /// An optional slot: the shape every optional-wrapped generated field
    /// has, and the shape an ignored already-optional field passes through.
    Opt(Option<Box<FieldValue>>),
}

/// A field of the persistence layer's update value.
#[derive(Debug, PartialEq, Eq)]
pub enum UpdateValue {
    /// Apply this value.
    SetTo(FieldValue),
    /// Leave the stored value unchanged; carries the raw passed-through
    /// value.
    Unchanged(FieldValue),
    /// Leave the field unset.
    NotSet,
}

/// The shape the generated struct gives a field's slot: fields converted by
/// a present-or-absent rule are optional slots by construction; a field
/// passed through unchanged may hold any value.
pub open spec fn slot_fits_rule(rule: ConversionRule, v: FieldValue) -> bool {
    rule == ConversionRule::Unchanged || v is Opt
}

/// What one conversion directive does to one field value.
pub open spec fn apply_rule_spec(rule: ConversionRule, v: FieldValue) -> UpdateValue {
    match rule {
        ConversionRule::Unchanged => UpdateValue::Unchanged(v),
        ConversionRule::SetOrNotSet => match v {
            FieldValue::Opt(Some(inner)) => UpdateValue::SetTo(*inner),
            _ => UpdateValue::NotSet,
        },
        ConversionRule::SetSomeOrNotSet => match v {
            FieldValue::Opt(Some(_)) => UpdateValue::SetTo(v),
            _ => UpdateValue::NotSet,
        },
    }
}

/// Applies one conversion directive to one field value, consuming it.
pub fn apply_rule(rule: ConversionRule, v: FieldValue) -> (u: UpdateValue)
    requires
        slot_fits_rule(rule, v),
    ensures
        u == apply_rule_spec(rule, v),
{
    match rule {
        ConversionRule::Unchanged => UpdateValue::Unchanged(v),
        ConversionRule::SetOrNotSet => match v {
            FieldValue::Opt(Some(inner)) => UpdateValue::SetTo(*inner),
            _ => UpdateValue::NotSet,
        },
        ConversionRule::SetSomeOrNotSet => match v {
            FieldValue::Opt(Some(inner)) => UpdateValue::SetTo(
                FieldValue::Opt(Some(inner)),
            ),
            _ => UpdateValue::NotSet,
        },
    }
}

/// One field of the converted update value: the field's name with its
/// directive-applied value.
#[derive(Debug, PartialEq, Eq)]
pub struct UpdateField {
    /// Same name as the generated (and source) field.
    pub name: String,
    /// The directive applied to the instance's value for this field.
    pub value: UpdateValue,
}

/// Whether an instance's field values fit the generated struct's shape for
/// the given classified fields: one value per field, each optional-rule slot
/// actually optional.
pub open spec fn instance_fits(fields: Seq<ClassifiedField>, values: Seq<FieldValue>) -> bool {
    &&& values.len() == fields.len()
    &&& forall|i: int|
        0 <= i < fields.len() ==> slot_fits_rule(
            rule_for(fields[i].is_ignored, fields[i].is_already_optional),
            #[trigger] values[i],
        )
}

/// Converts a generated-struct instance into the update representation: the
/// instance's field values are consumed (the conversion is one-shot), zipped
/// positionally with the classified fields, and each value gets its field's
/// directive applied.
pub fn to_active(fields: &Vec<ClassifiedField>, values: Vec<FieldValue>) -> (r: Vec<UpdateField>)
    requires
        instance_fits(fields@, values@),
    ensures
        r@.len() == fields@.len(),
        forall|i: int|
            0 <= i < fields@.len() ==> (#[trigger] r@[i]).name@ == fields@[i].field.name@
                && r@[i].value == apply_rule_spec(
                rule_for(fields@[i].is_ignored, fields@[i].is_already_optional),
                values@[i],
            ),
{
    let ghost all_values = values@;
    let mut values = values;
    let mut r: Vec<UpdateField> = Vec::new();
    let mut idx: usize = 0;
    while idx < fields.len()
        invariant
            idx <= fields@.len(),
            all_values.len() == fields@.len(),
            values@ =~= all_values.skip(idx as int),
            instance_fits(fields@, all_values),
            r@.len() == idx,
            forall|i: int|
                0 <= i < idx ==> (#[trigger] r@[i]).name@ == fields@[i].field.name@
                    && r@[i].value == apply_rule_spec(
                    rule_for(fields@[i].is_ignored, fields@[i].is_already_optional),
                    all_values[i],
                ),
        decreases fields@.len() - idx,
    {
        let c = &fields[idx];
        let v = values.remove(0);
        assert(v == all_values[idx as int]);
        let rule = conversion_rule(c);
        r.push(UpdateField { name: c.field.name.clone(), value: apply_rule(rule, v) });
        assert(values@ =~= all_values.skip(idx as int + 1));
        idx += 1;
    }
    r
}

/// Whether a slot counts as present: an optional slot holding a value, or
/// any raw (non-optional) value.
pub open spec fn slot_present(v: FieldValue) -> bool {
    match v {
        FieldValue::Opt(o) => o is Some,
        _ => true,
    }
}

/// Whether an optional slot is absent.
pub open spec fn slot_absent(v: FieldValue) -> bool {
    v == FieldValue::Opt(None::<Box<FieldValue>>)
}

/// Round trip of presence, first half: converting an instance with every
/// field present yields an update value in which every non-ignored field is
/// set.
pub proof fn lemma_all_present_sets(fields: Seq<ClassifiedField>, values: Seq<FieldValue>)
    requires
        instance_fits(fields, values),
        forall|i: int| 0 <= i < values.len() ==> slot_present(#[trigger] values[i]),
    ensures
        forall|i: int|
            0 <= i < fields.len() && !(#[trigger] fields[i]).is_ignored ==> apply_rule_spec(
                rule_for(fields[i].is_ignored, fields[i].is_already_optional),
                values[i],
            ) is SetTo,
{
}

/// Round trip of presence, second half: converting an instance with every
/// optional slot absent yields "not set" for every non-ignored field whose
/// original was not already optional.
pub proof fn lemma_all_absent_not_set(fields: Seq<ClassifiedField>, values: Seq<FieldValue>)
    requires
        instance_fits(fields, values),
        forall|i: int|
            0 <= i < values.len() ==> (#[trigger] values[i]) is Opt ==> slot_absent(values[i]),
    ensures
        forall|i: int|
            0 <= i < fields.len() && !(#[trigger] fields[i]).is_ignored
                && !fields[i].is_already_optional ==> apply_rule_spec(
                rule_for(fields[i].is_ignored, fields[i].is_already_optional),
                values[i],
            ) is NotSet,
{
}

} // verus!
