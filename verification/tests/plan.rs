use pyarg_codegen::attr::{AttrInput, MetaItem};
use pyarg_codegen::diagnostic::{Diagnostic, DiagnosticAt, Site};
use pyarg_codegen::emit::{impl_from_args, BindingPlan, DeriveInputModel, StructShape};
use pyarg_codegen::field::{Binding, Fallback, Field, FieldBinding, Strategy};

fn word(s: &str) -> MetaItem {
    MetaItem::Word(s.to_string())
}

#[test]
fn non_struct_input_fails() {
    let input = DeriveInputModel {
        name: "Args".to_string(),
        shape: StructShape::OtherShape,
    };
    assert_eq!(
        impl_from_args(&input),
        Err(DiagnosticAt {
            diagnostic: Diagnostic::NotNamedStruct,
            site: Site {
                field: None,
                attr: None,
                arg: None,
            },
        })
    );
}

#[test]
fn empty_struct_yields_empty_plan() {
    let input = DeriveInputModel {
        name: "Args".to_string(),
        shape: StructShape::NamedStruct(vec![]),
    };
    assert_eq!(
        impl_from_args(&input),
        Ok(BindingPlan {
            name: "Args".to_string(),
            fields: vec![],
        })
    );
}

#[test]
fn whole_struct_plan_binds_every_field_in_order() {
    let input = DeriveInputModel {
        name: "Args".to_string(),
        shape: StructShape::NamedStruct(vec![
            Field {
                name: "count".to_string(),
                attrs: vec![],
            },
            Field {
                name: "verbose".to_string(),
                attrs: vec![AttrInput::List(vec![
                    word("named"),
                    MetaItem::StrPair {
                        name: "default".to_string(),
                        value: "false".to_string(),
                        value_parses: true,
                    },
                ])],
            },
            Field {
                name: "rest".to_string(),
                attrs: vec![AttrInput::List(vec![word("flatten")])],
            },
        ]),
    };
    assert_eq!(
        impl_from_args(&input),
        Ok(BindingPlan {
            name: "Args".to_string(),
            fields: vec![
                FieldBinding {
                    name: "count".to_string(),
                    binding: Binding::Extract {
                        strategy: Strategy::PositionalOrKeyword,
                        fallback: Fallback::RequiredPositional,
                    },
                },
                FieldBinding {
                    name: "verbose".to_string(),
                    binding: Binding::Extract {
                        strategy: Strategy::Keyword,
                        fallback: Fallback::DefaultExpr("false".to_string()),
                    },
                },
                FieldBinding {
                    name: "rest".to_string(),
                    binding: Binding::Flatten,
                },
            ],
        })
    );
}

#[test]
fn generation_stops_at_the_first_bad_field() {
    let input = DeriveInputModel {
        name: "Args".to_string(),
        shape: StructShape::NamedStruct(vec![
            Field {
                name: "a".to_string(),
                attrs: vec![AttrInput::List(vec![])],
            },
            Field {
                name: "b".to_string(),
                attrs: vec![AttrInput::List(vec![word("wibble")])],
            },
        ]),
    };
    assert_eq!(
        impl_from_args(&input),
        Err(DiagnosticAt {
            diagnostic: Diagnostic::NoArguments,
            site: Site {
                field: Some(0),
                attr: Some(0),
                arg: None,
            },
        })
    );
}
