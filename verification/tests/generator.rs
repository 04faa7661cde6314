use optionalize::convert::{
    apply_rule, conversion_rules, to_active, ConversionRule, FieldValue, UpdateValue,
};
use optionalize::model::{classify, classify_fields, FieldDescriptor, TypeExpr};
use optionalize::render::{render_link, render_output_type, render_struct, render_to_active};
use optionalize::synth::{GenerationMode, OutputType};
use optionalize::{derive_optionalize, DeriveError, SourceItem, UnsupportedKind};

fn named(text: &str, outer: &str, has_args: bool) -> TypeExpr {
    TypeExpr::Named {
        text: text.to_string(),
        outer: outer.to_string(),
        has_args,
    }
}

fn field(name: &str, ty: TypeExpr, is_ignored: bool) -> FieldDescriptor {
    FieldDescriptor {
        name: name.to_string(),
        declared_type: ty,
        is_ignored,
    }
}

fn my_struct(id_ignored: bool) -> SourceItem {
    SourceItem::NamedStruct {
        name: "MyStruct".to_string(),
        fields: vec![
            field("id", named("i32", "i32", false), id_ignored),
            field("name", named("String", "String", false), false),
            field(
                "description",
                named("Option<String>", "Option", true),
                false,
            ),
        ],
    }
}

fn type_texts(item: SourceItem, mode: GenerationMode) -> Vec<String> {
    let out = derive_optionalize(mode, item).unwrap();
    out.generated
        .fields
        .iter()
        .map(|f| render_output_type(&f.ty))
        .collect()
}

#[test]
fn simple_mode_plain_struct() {
    let out = derive_optionalize(GenerationMode::Simple, my_struct(false)).unwrap();
    assert_eq!(out.generated.name, "MyStructOptional".to_string());
    assert_eq!(out.generated.fields.len(), 3);
    let names: Vec<String> = out.generated.fields.iter().map(|f| f.name.clone()).collect();
    assert_eq!(
        names,
        vec!["id".to_string(), "name".to_string(), "description".to_string()]
    );
    let texts = type_texts(my_struct(false), GenerationMode::Simple);
    assert_eq!(
        texts,
        vec![
            "Option<i32>".to_string(),
            "Option<String>".to_string(),
            "Option<String>".to_string(),
        ]
    );
    assert!(out.rules.is_none());
    assert_eq!(out.link.original, "MyStruct".to_string());
    assert_eq!(out.link.generated, "MyStructOptional".to_string());
}

#[test]
fn ignored_field_keeps_type_and_rule() {
    let out = derive_optionalize(GenerationMode::IgnoreAware, my_struct(true)).unwrap();
    assert_eq!(render_output_type(&out.generated.fields[0].ty), "i32".to_string());
    let rules = out.rules.unwrap();
    assert_eq!(rules[0], ConversionRule::Unchanged);
    assert_eq!(rules[1], ConversionRule::SetOrNotSet);
    assert_eq!(rules[2], ConversionRule::SetSomeOrNotSet);
}

#[test]
fn ignore_aware_instance_conversion() {
    let fields = vec![
        field("id", named("i32", "i32", false), true),
        field("name", named("String", "String", false), false),
        field(
            "description",
            named("Option<String>", "Option", true),
            false,
        ),
    ];
    let classified = classify_fields(&fields);
    let values = vec![
        FieldValue::Int(1),
        FieldValue::Opt(None),
        FieldValue::Opt(Some(Box::new(FieldValue::Text("x".to_string())))),
    ];
    let active = to_active(&classified, values);
    assert_eq!(active.len(), 3);
    assert_eq!(active[0].name, "id".to_string());
    assert_eq!(active[0].value, UpdateValue::Unchanged(FieldValue::Int(1)));
    assert_eq!(active[1].name, "name".to_string());
    assert_eq!(active[1].value, UpdateValue::NotSet);
    assert_eq!(active[2].name, "description".to_string());
    assert_eq!(
        active[2].value,
        UpdateValue::SetTo(FieldValue::Opt(Some(Box::new(FieldValue::Text(
            "x".to_string()
        )))))
    );
}

#[test]
fn enum_rejected() {
    let item = SourceItem::EnumItem {
        name: "Color".to_string(),
    };
    let err = derive_optionalize(GenerationMode::Simple, item).unwrap_err();
    assert_eq!(
        err,
        DeriveError::UnsupportedShape {
            item_name: "Color".to_string(),
            kind: UnsupportedKind::Enumeration,
        }
    );
    assert_eq!(
        err.message(),
        "Optionalize can only be used on structs with named fields: `Color` is an enum".to_string()
    );
}

#[test]
fn tuple_struct_and_union_rejected() {
    let tuple = SourceItem::TupleStruct {
        name: "Pair".to_string(),
    };
    let err = derive_optionalize(GenerationMode::IgnoreAware, tuple).unwrap_err();
    assert_eq!(
        err,
        DeriveError::UnsupportedShape {
            item_name: "Pair".to_string(),
            kind: UnsupportedKind::TupleStruct,
        }
    );
    let un = SourceItem::UnionItem {
        name: "Raw".to_string(),
    };
    let err = derive_optionalize(GenerationMode::Simple, un).unwrap_err();
    assert_eq!(
        err,
        DeriveError::UnsupportedShape {
            item_name: "Raw".to_string(),
            kind: UnsupportedKind::Union,
        }
    );
}

#[test]
fn classification_idempotent() {
    let f = field("owner", named("Address", "Address", false), false);
    let once = classify(&f);
    let twice = classify(&f);
    assert_eq!(once, twice);
    assert!(!once.is_ignored);
    assert!(!once.is_already_optional);
    assert!(once.has_optional_counterpart);
}

#[test]
fn already_optional_not_doubled() {
    let f = field("note", named("Option<String>", "Option", true), false);
    let c = classify(&f);
    assert!(c.is_already_optional);
    assert!(!c.has_optional_counterpart);
    for mode in [GenerationMode::Simple, GenerationMode::IgnoreAware] {
        let item = SourceItem::NamedStruct {
            name: "Memo".to_string(),
            fields: vec![field("note", named("Option<String>", "Option", true), false)],
        };
        let out = derive_optionalize(mode, item).unwrap();
        assert_eq!(
            render_output_type(&out.generated.fields[0].ty),
            "Option<String>".to_string()
        );
    }
}

#[test]
fn ignored_optional_passes_through() {
    let f = field("note", named("Option<String>", "Option", true), true);
    let c = classify(&f);
    assert!(c.is_ignored);
    assert!(c.is_already_optional);
    assert!(!c.has_optional_counterpart);
    let classified = vec![c];
    let rules = conversion_rules(&classified);
    assert_eq!(rules, vec![ConversionRule::Unchanged]);
    let present = FieldValue::Opt(Some(Box::new(FieldValue::Text("kept".to_string()))));
    let expected = FieldValue::Opt(Some(Box::new(FieldValue::Text("kept".to_string()))));
    assert_eq!(
        apply_rule(ConversionRule::Unchanged, present),
        UpdateValue::Unchanged(expected)
    );
}

#[test]
fn counterpart_rewrite_diverges_between_modes() {
    let make = || SourceItem::NamedStruct {
        name: "Order".to_string(),
        fields: vec![field("shipping", named("Address", "Address", false), false)],
    };
    let simple = type_texts(make(), GenerationMode::Simple);
    assert_eq!(
        simple,
        vec!["Option<<Address as OptionalizeTrait>::Optional>".to_string()]
    );
    let aware = type_texts(make(), GenerationMode::IgnoreAware);
    assert_eq!(aware, vec!["Option<Address>".to_string()]);
}

#[test]
fn scalar_names_never_counterparts() {
    for name in ["i32", "i64", "u32", "u64", "f32", "f64", "String", "bool"] {
        let c = classify(&field("v", named(name, name, false), false));
        assert!(!c.has_optional_counterpart, "{name} should be on the denylist");
        assert_eq!(
            render_output_type(&optionalize::synth::OutputType::Wrapped(named(
                name, name, false
            ))),
            format!("Option<{name}>")
        );
    }
}

#[test]
fn non_path_types_conservatively_wrapped() {
    let tuple_ty = TypeExpr::Other {
        text: "(i32, i32)".to_string(),
    };
    let c = classify(&field("pos", tuple_ty, false));
    assert!(!c.is_already_optional);
    assert!(!c.has_optional_counterpart);
    let item = SourceItem::NamedStruct {
        name: "Point".to_string(),
        fields: vec![field(
            "pos",
            TypeExpr::Other {
                text: "(i32, i32)".to_string(),
            },
            false,
        )],
    };
    let out = derive_optionalize(GenerationMode::Simple, item).unwrap();
    assert_eq!(
        render_output_type(&out.generated.fields[0].ty),
        "Option<(i32, i32)>".to_string()
    );
}

#[test]
fn generic_path_type_not_counterpart() {
    let c = classify(&field("tags", named("Vec<String>", "Vec", true), false));
    assert!(!c.is_already_optional);
    assert!(!c.has_optional_counterpart);
    assert_eq!(
        type_texts(
            SourceItem::NamedStruct {
                name: "Post".to_string(),
                fields: vec![field("tags", named("Vec<String>", "Vec", true), false)],
            },
            GenerationMode::Simple
        ),
        vec!["Option<Vec<String>>".to_string()]
    );
}

#[test]
fn all_present_and_all_absent_round_trip() {
    let fields = vec![
        field("id", named("i32", "i32", false), true),
        field("name", named("String", "String", false), false),
        field(
            "description",
            named("Option<String>", "Option", true),
            false,
        ),
    ];
    let classified = classify_fields(&fields);
    let present = vec![
        FieldValue::Int(7),
        FieldValue::Opt(Some(Box::new(FieldValue::Text("n".to_string())))),
        FieldValue::Opt(Some(Box::new(FieldValue::Text("d".to_string())))),
    ];
    let active = to_active(&classified, present);
    assert!(matches!(active[1].value, UpdateValue::SetTo(_)));
    assert!(matches!(active[2].value, UpdateValue::SetTo(_)));
    let absent = vec![
        FieldValue::Int(7),
        FieldValue::Opt(None),
        FieldValue::Opt(None),
    ];
    let active = to_active(&classified, absent);
    assert_eq!(active[0].value, UpdateValue::Unchanged(FieldValue::Int(7)));
    assert_eq!(active[1].value, UpdateValue::NotSet);
    assert_eq!(active[2].value, UpdateValue::NotSet);
}

#[test]
fn rendered_struct_text() {
    let out = derive_optionalize(GenerationMode::IgnoreAware, my_struct(true)).unwrap();
    let text = render_struct(&out.generated);
    let expected = "#[derive(Debug, Deserialize)]\n\
                    pub struct MyStructOptional {\n    \
                        id: i32,\n    \
                        name: Option<String>,\n    \
                        description: Option<String>,\n\
                    }\n";
    assert_eq!(text, expected.to_string());
}

#[test]
fn rendered_conversion_method_text() {
    let out = derive_optionalize(GenerationMode::IgnoreAware, my_struct(true)).unwrap();
    let rules = out.rules.as_ref().unwrap();
    let text = render_to_active(&out.generated, rules);
    let expected = "impl MyStructOptional {\n    pub fn to_active(self) -> ActiveModel {\n        ActiveModel {\n            id: sea_orm::ActiveValue::Unchanged(self.id),\n            name: match self.name { Some(value) => sea_orm::ActiveValue::Set(value), None => sea_orm::ActiveValue::NotSet },\n            description: match self.description { Some(value) => sea_orm::ActiveValue::Set(Some(value)), None => sea_orm::ActiveValue::NotSet },\n        }\n    }\n}\n";
    assert_eq!(text, expected.to_string());
}

#[test]
fn rendered_link_text() {
    let out = derive_optionalize(GenerationMode::Simple, my_struct(false)).unwrap();
    let text = render_link(&out.link);
    let expected =
        "impl OptionalizeTrait for MyStruct {\n    type Optional = MyStructOptional;\n}\n";
    assert_eq!(text, expected.to_string());
}

#[test]
fn output_type_variants_per_verdict() {
    let plain = classify(&field("id", named("i32", "i32", false), false));
    let out = derive_optionalize(
        GenerationMode::Simple,
        SourceItem::NamedStruct {
            name: "Row".to_string(),
            fields: vec![field("id", named("i32", "i32", false), false)],
        },
    )
    .unwrap();
    assert!(matches!(out.generated.fields[0].ty, OutputType::Wrapped(_)));
    assert!(!plain.is_already_optional);
}
