use pyarg_codegen::attr::{ArgAttribute, AttrInput, MetaItem};
use pyarg_codegen::diagnostic::{Diagnostic, DiagnosticAt, Site};
use pyarg_codegen::field::{generate_field, Binding, Fallback, Field, FieldBinding, Strategy};
use pyarg_codegen::kind::ParameterKind;

fn word(s: &str) -> MetaItem {
    MetaItem::Word(s.to_string())
}

fn pair(name: &str, value: &str) -> MetaItem {
    MetaItem::StrPair {
        name: name.to_string(),
        value: value.to_string(),
        value_parses: syn::parse_str::<syn::Expr>(value).is_ok(),
    }
}

fn err_at(
    d: Diagnostic,
    field: Option<usize>,
    attr: Option<usize>,
    arg: Option<usize>,
) -> DiagnosticAt {
    DiagnosticAt {
        diagnostic: d,
        site: Site { field, attr, arg },
    }
}

fn annotated(name: &str, items: Vec<MetaItem>) -> Field {
    Field {
        name: name.to_string(),
        attrs: vec![AttrInput::List(items)],
    }
}

#[test]
fn unannotated_field_is_position_or_keyword_required() {
    let f = Field {
        name: "count".to_string(),
        attrs: vec![],
    };
    assert_eq!(
        generate_field(&f),
        Ok(FieldBinding {
            name: "count".to_string(),
            binding: Binding::Extract {
                strategy: Strategy::PositionalOrKeyword,
                fallback: Fallback::RequiredPositional,
            },
        })
    );
}

#[test]
fn unrecognized_attributes_are_ignored() {
    let f = Field {
        name: "count".to_string(),
        attrs: vec![AttrInput::Unrecognized, AttrInput::Unrecognized],
    };
    assert_eq!(
        generate_field(&f),
        Ok(FieldBinding {
            name: "count".to_string(),
            binding: Binding::Extract {
                strategy: Strategy::PositionalOrKeyword,
                fallback: Fallback::RequiredPositional,
            },
        })
    );
}

#[test]
fn phantom_field_binds_as_placeholder() {
    let f = Field {
        name: "_phantom_marker".to_string(),
        attrs: vec![AttrInput::List(vec![word("named")])],
    };
    assert_eq!(
        generate_field(&f),
        Ok(FieldBinding {
            name: "_phantom_marker".to_string(),
            binding: Binding::Phantom,
        })
    );
}

#[test]
fn short_underscore_name_is_not_a_phantom() {
    let f = Field {
        name: "_phant".to_string(),
        attrs: vec![],
    };
    assert_eq!(
        generate_field(&f),
        Ok(FieldBinding {
            name: "_phant".to_string(),
            binding: Binding::Extract {
                strategy: Strategy::PositionalOrKeyword,
                fallback: Fallback::RequiredPositional,
            },
        })
    );
}

#[test]
fn flatten_field_recurses() {
    let f = annotated("rest", vec![word("flatten")]);
    assert_eq!(
        generate_field(&f),
        Ok(FieldBinding {
            name: "rest".to_string(),
            binding: Binding::Flatten,
        })
    );
}

#[test]
fn flatten_rejects_any_modifier() {
    let f = annotated("rest", vec![word("flatten"), word("default")]);
    assert_eq!(
        generate_field(&f),
        Err(err_at(Diagnostic::FlattenModifier, None, Some(0), Some(1)))
    );
}

#[test]
fn literal_default_is_kept_verbatim() {
    let f = annotated("verbose", vec![word("named"), pair("default", "false")]);
    assert_eq!(
        generate_field(&f),
        Ok(FieldBinding {
            name: "verbose".to_string(),
            binding: Binding::Extract {
                strategy: Strategy::Keyword,
                fallback: Fallback::DefaultExpr("false".to_string()),
            },
        })
    );
}

#[test]
fn literal_default_expression_survives_unchanged() {
    let f = annotated("limit", vec![word("any"), pair("default", "1 + 2")]);
    assert_eq!(
        generate_field(&f),
        Ok(FieldBinding {
            name: "limit".to_string(),
            binding: Binding::Extract {
                strategy: Strategy::PositionalOrKeyword,
                fallback: Fallback::DefaultExpr("1 + 2".to_string()),
            },
        })
    );
}

#[test]
fn invalid_default_expression_is_rejected() {
    let f = annotated("limit", vec![word("any"), pair("default", "@@@")]);
    assert_eq!(
        generate_field(&f),
        Err(err_at(Diagnostic::BadDefaultExpr, None, Some(0), Some(1)))
    );
}

#[test]
fn parser_verdict_decides_rejection() {
    let item = MetaItem::StrPair {
        name: "default".to_string(),
        value: "1".to_string(),
        value_parses: false,
    };
    let f = annotated("limit", vec![word("any"), item]);
    assert_eq!(
        generate_field(&f),
        Err(err_at(Diagnostic::BadDefaultExpr, None, Some(0), Some(1)))
    );
}

#[test]
fn bare_default_uses_type_default() {
    let f = annotated("limit", vec![word("any"), word("default")]);
    assert_eq!(
        generate_field(&f),
        Ok(FieldBinding {
            name: "limit".to_string(),
            binding: Binding::Extract {
                strategy: Strategy::PositionalOrKeyword,
                fallback: Fallback::DefaultOfType,
            },
        })
    );
}

#[test]
fn optional_is_a_synonym_for_bare_default() {
    let f = annotated("limit", vec![word("named"), word("optional")]);
    assert_eq!(
        generate_field(&f),
        Ok(FieldBinding {
            name: "limit".to_string(),
            binding: Binding::Extract {
                strategy: Strategy::Keyword,
                fallback: Fallback::DefaultOfType,
            },
        })
    );
}

#[test]
fn positional_without_default_requires_positional() {
    let f = annotated("x", vec![word("positional")]);
    assert_eq!(
        generate_field(&f),
        Ok(FieldBinding {
            name: "x".to_string(),
            binding: Binding::Extract {
                strategy: Strategy::Positional,
                fallback: Fallback::RequiredPositional,
            },
        })
    );
}

#[test]
fn named_without_default_requires_keyword_with_name() {
    let f = annotated("flag", vec![word("named")]);
    assert_eq!(
        generate_field(&f),
        Ok(FieldBinding {
            name: "flag".to_string(),
            binding: Binding::Extract {
                strategy: Strategy::Keyword,
                fallback: Fallback::RequiredKeyword("flag".to_string()),
            },
        })
    );
}

#[test]
fn setting_literal_default_twice_fails() {
    let f = annotated(
        "limit",
        vec![word("any"), pair("default", "1"), pair("default", "2")],
    );
    assert_eq!(
        generate_field(&f),
        Err(err_at(Diagnostic::DefaultAlreadySet, None, Some(0), Some(2)))
    );
}

#[test]
fn bare_default_twice_fails() {
    let f = annotated("limit", vec![word("any"), word("default"), word("optional")]);
    assert_eq!(
        generate_field(&f),
        Err(err_at(Diagnostic::DefaultAlreadySet, None, Some(0), Some(2)))
    );
}

#[test]
fn literal_default_after_bare_default_fails() {
    let f = annotated(
        "limit",
        vec![word("any"), word("default"), pair("default", "7")],
    );
    assert_eq!(
        generate_field(&f),
        Err(err_at(Diagnostic::DefaultAlreadySet, None, Some(0), Some(2)))
    );
}

#[test]
fn bare_default_after_literal_default_fails() {
    let f = annotated(
        "limit",
        vec![word("any"), pair("default", "7"), word("default")],
    );
    assert_eq!(
        generate_field(&f),
        Err(err_at(Diagnostic::DefaultAlreadySet, None, Some(0), Some(2)))
    );
}

#[test]
fn multiple_annotations_on_one_field_fail() {
    let f = Field {
        name: "x".to_string(),
        attrs: vec![
            AttrInput::List(vec![word("any")]),
            AttrInput::List(vec![word("named")]),
        ],
    };
    assert_eq!(
        generate_field(&f),
        Err(err_at(Diagnostic::MultipleAttributes, None, None, None))
    );
}

#[test]
fn from_attribute_ignores_foreign_attributes() {
    assert!(ArgAttribute::from_attribute(&AttrInput::Unrecognized).is_none());
}

#[test]
fn from_attribute_decodes_kind_and_default() {
    let a = AttrInput::List(vec![word("named"), pair("default", "None")]);
    let decoded = ArgAttribute::from_attribute(&a).unwrap().unwrap();
    assert_eq!(decoded.kind, ParameterKind::KeywordOnly);
    assert_eq!(decoded.default, Some(Some("None".to_string())));
}
