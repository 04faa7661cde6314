//! Source-text emission.
//!
//! The synthesizers produce shapes; this module turns them into the source
//! text a derivation emits: the generated struct's declaration, the
//! conversion method toward the persistence layer's update type (ignore-aware
//! mode only), and the trait link binding the source struct to its companion.
//! Every renderer's output is pinned, character for character, to a spec-side
//! rendering of the same shape.

use vstd::prelude::*;

use crate::convert::ConversionRule;
use crate::synth::GeneratedField;
use crate::synth::GeneratedStructSpec;
use crate::synth::LinkSpec;
use crate::synth::OutputType;

verus! {

/// The text of one generated field's type: pass-through types keep their
/// source text; wrapped types gain the optional wrapper; counterpart rewrites
/// reach the declared type's companion through the trait link.
pub open spec fn render_output_type_spec(o: OutputType) -> Seq<char> {
    match o {
        OutputType::Same(t) => t.source_text(),
        OutputType::Wrapped(t) => "Option<"@ + t.source_text() + ">"@,
        OutputType::WrappedCounterpart(t) => "Option<<"@ + t.source_text()
            + " as OptionalizeTrait>::Optional>"@,
    }
}

/// Renders one generated field's type.
pub fn render_output_type(o: &OutputType) -> (r: String)
    ensures
        r@ == render_output_type_spec(*o),
{
    match o {
        OutputType::Same(t) => t.text_ref().clone(),
        OutputType::Wrapped(t) => {
            let mut s: String = "Option<".to_owned();
            s.append(t.text_ref().as_str());
            s.append(">");
            assert(s@ =~= render_output_type_spec(*o));
            s
        },
        OutputType::WrappedCounterpart(t) => {
            let mut s: String = "Option<<".to_owned();
            s.append(t.text_ref().as_str());
            s.append(" as OptionalizeTrait>::Optional>");
            assert(s@ =~= render_output_type_spec(*o));
            s
        },
    }
}

/// The text of one field line of the generated struct's declaration.
pub open spec fn render_field_spec(f: GeneratedField) -> Seq<char> {
    "    "@ + f.name@ + ": "@ + render_output_type_spec(f.ty) + ",\n"@
}

/// Renders one field line.
pub fn render_field(f: &GeneratedField) -> (r: String)
    ensures
        r@ == render_field_spec(*f),
{
    let mut s: String = "    ".to_owned();
    s.append(f.name.as_str());
    s.append(": ");
    let ty = render_output_type(&f.ty);
    s.append(ty.as_str());
    s.append(",\n");
    assert(s@ =~= render_field_spec(*f));
    s
}

/// The text of a sequence of field lines, in order.
pub open spec fn render_fields_spec(fields: Seq<GeneratedField>) -> Seq<char>
    decreases fields.len(),
{
    if fields.len() == 0 {
        Seq::empty()
    } else {
        render_fields_spec(fields.drop_last()) + render_field_spec(fields.last())
    }
}

/// The generated struct's declaration: the fixed derived capabilities, the
/// suffixed name, and one line per field in declaration order.
pub open spec fn render_struct_spec(g: GeneratedStructSpec) -> Seq<char> {
    "#[derive(Debug, Deserialize)]\npub struct "@ + g.name@ + " {\n"@ + render_fields_spec(
        g.fields@,
    ) + "}\n"@
}

/// Renders the generated struct's declaration.
pub fn render_struct(g: &GeneratedStructSpec) -> (r: String)
    ensures
        r@ == render_struct_spec(*g),
{
    let mut s: String = "#[derive(Debug, Deserialize)]\npub struct ".to_owned();
    s.append(g.name.as_str());
    s.append(" {\n");
    let ghost header = s@;
    let mut idx: usize = 0;
    while idx < g.fields.len()
        invariant
            idx <= g.fields@.len(),
            s@ == header + render_fields_spec(g.fields@.take(idx as int)),
        decreases g.fields@.len() - idx,
    {
        let line = render_field(&g.fields[idx]);
        s.append(line.as_str());
        proof {
            let taken = g.fields@.take(idx as int + 1);
            assert(taken.drop_last() =~= g.fields@.take(idx as int));
            assert(taken.last() == g.fields@[idx as int]);
            assert(s@ =~= header + render_fields_spec(taken));
        }
        idx += 1;
    }
    proof {
        assert(g.fields@.take(g.fields@.len() as int) =~= g.fields@);
    }
    s.append("}\n");
    assert(s@ =~= render_struct_spec(*g));
    s
}

/// The text of one field's arm inside the emitted conversion method, per its
/// conversion rule. The emitted code names the persistence layer's update
/// value constructors, which the host is assumed to have in scope.
pub open spec fn render_arm_spec(name: Seq<char>, rule: ConversionRule) -> Seq<char> {
    match rule {
        ConversionRule::Unchanged => "            "@ + name
            + ": sea_orm::ActiveValue::Unchanged(self."@ + name + "),\n"@,
        ConversionRule::SetOrNotSet => "            "@ + name + ": match self."@ + name
            + " { Some(value) => sea_orm::ActiveValue::Set(value), None => sea_orm::ActiveValue::NotSet },\n"@,
        ConversionRule::SetSomeOrNotSet => "            "@ + name + ": match self."@ + name
            + " { Some(value) => sea_orm::ActiveValue::Set(Some(value)), None => sea_orm::ActiveValue::NotSet },\n"@,
    }
}

/// Renders one conversion arm.
pub fn render_arm(name: &String, rule: ConversionRule) -> (r: String)
    ensures
        r@ == render_arm_spec(name@, rule),
{
    let mut s: String = "            ".to_owned();
    s.append(name.as_str());
    match rule {
        ConversionRule::Unchanged => {
            s.append(": sea_orm::ActiveValue::Unchanged(self.");
            s.append(name.as_str());
            s.append("),\n");
        },
        ConversionRule::SetOrNotSet => {
            s.append(": match self.");
            s.append(name.as_str());
            s.append(
                " { Some(value) => sea_orm::ActiveValue::Set(value), None => sea_orm::ActiveValue::NotSet },\n",
            );
        },
        ConversionRule::SetSomeOrNotSet => {
            s.append(": match self.");
            s.append(name.as_str());
            s.append(
                " { Some(value) => sea_orm::ActiveValue::Set(Some(value)), None => sea_orm::ActiveValue::NotSet },\n",
            );
        },
    }
    assert(s@ =~= render_arm_spec(name@, rule));
    s
}

/// The text of every conversion arm, fields and rules zipped positionally.
pub open spec fn render_arms_spec(
    fields: Seq<GeneratedField>,
    rules: Seq<ConversionRule>,
) -> Seq<char>
    decreases fields.len(),
{
    if fields.len() == 0 || rules.len() == 0 {
        Seq::empty()
    } else {
        render_arms_spec(fields.drop_last(), rules.drop_last()) + render_arm_spec(
            fields.last().name@,
            rules.last(),
        )
    }
}

/// The emitted conversion method: consumes a generated-struct instance and
/// builds the persistence layer's update value, one arm per field.
pub open spec fn render_to_active_spec(g: GeneratedStructSpec, rules: Seq<ConversionRule>) -> Seq<
    char,
> {
    "impl "@ + g.name@ + " {\n    pub fn to_active(self) -> ActiveModel {\n        ActiveModel {\n"@
        + render_arms_spec(g.fields@, rules) + "        }\n    }\n}\n"@
}

/// Renders the conversion method emitted in ignore-aware mode.
pub fn render_to_active(g: &GeneratedStructSpec, rules: &Vec<ConversionRule>) -> (r: String)
    requires
        rules@.len() == g.fields@.len(),
    ensures
        r@ == render_to_active_spec(*g, rules@),
{
    let mut s: String = "impl ".to_owned();
    s.append(g.name.as_str());
    s.append(" {\n    pub fn to_active(self) -> ActiveModel {\n        ActiveModel {\n");
    let ghost header = s@;
    let mut idx: usize = 0;
    while idx < g.fields.len()
        invariant
            idx <= g.fields@.len(),
            rules@.len() == g.fields@.len(),
            s@ == header + render_arms_spec(g.fields@.take(idx as int), rules@.take(idx as int)),
        decreases g.fields@.len() - idx,
    {
        let arm = render_arm(&g.fields[idx].name, rules[idx]);
        s.append(arm.as_str());
        proof {
            let tf = g.fields@.take(idx as int + 1);
            let tr = rules@.take(idx as int + 1);
            assert(tf.drop_last() =~= g.fields@.take(idx as int));
            assert(tr.drop_last() =~= rules@.take(idx as int));
            assert(tf.last() == g.fields@[idx as int]);
            assert(tr.last() == rules@[idx as int]);
            assert(s@ =~= header + render_arms_spec(tf, tr));
        }
        idx += 1;
    }
    proof {
        assert(g.fields@.take(g.fields@.len() as int) =~= g.fields@);
        assert(rules@.take(rules@.len() as int) =~= rules@);
    }
    s.append("        }\n    }\n}\n");
    assert(s@ =~= render_to_active_spec(*g, rules@));
    s
}

/// The emitted trait link: one associated-type binding from the source struct
/// to its generated companion.
pub open spec fn render_link_spec(l: LinkSpec) -> Seq<char> {
    "impl OptionalizeTrait for "@ + l.original@ + " {\n    type Optional = "@ + l.generated@
        + ";\n}\n"@
}

/// Renders the trait link.
pub fn render_link(l: &LinkSpec) -> (r: String)
    ensures
        r@ == render_link_spec(*l),
{
    let mut s: String = "impl OptionalizeTrait for ".to_owned();
    s.append(l.original.as_str());
    s.append(" {\n    type Optional = ");
    s.append(l.generated.as_str());
    s.append(";\n}\n");
    assert(s@ =~= render_link_spec(*l));
    s
}

} // verus!
