use pyarg_codegen::attr::{ArgAttribute, AttrInput, MetaItem};
use pyarg_codegen::diagnostic::{Diagnostic, DiagnosticAt, Site};
use pyarg_codegen::field::{generate_field, Field};
use pyarg_codegen::kind::ParameterKind;

fn word(s: &str) -> MetaItem {
    MetaItem::Word(s.to_string())
}

fn decode(a: AttrInput) -> Result<ArgAttribute, DiagnosticAt> {
    ArgAttribute::from_attribute(&a).expect("a recognized annotation")
}

fn err_at(d: Diagnostic, arg: Option<usize>) -> DiagnosticAt {
    DiagnosticAt {
        diagnostic: d,
        site: Site {
            field: None,
            attr: None,
            arg,
        },
    }
}

#[test]
fn annotation_name_is_recognized_exactly() {
    assert!(pyarg_codegen::attr::is_annotation_path(&"pyarg".to_string()));
    assert!(!pyarg_codegen::attr::is_annotation_path(&"pyargs".to_string()));
    assert!(!pyarg_codegen::attr::is_annotation_path(&"derive".to_string()));
}

#[test]
fn kind_keywords_decode() {
    assert_eq!(
        ParameterKind::from_ident(&"positional".to_string()),
        Some(ParameterKind::PositionalOnly)
    );
    assert_eq!(
        ParameterKind::from_ident(&"any".to_string()),
        Some(ParameterKind::PositionalOrKeyword)
    );
    assert_eq!(
        ParameterKind::from_ident(&"named".to_string()),
        Some(ParameterKind::KeywordOnly)
    );
    assert_eq!(
        ParameterKind::from_ident(&"flatten".to_string()),
        Some(ParameterKind::Flatten)
    );
    assert_eq!(ParameterKind::from_ident(&"keyword".to_string()), None);
}

#[test]
fn empty_annotation_list_fails() {
    assert_eq!(
        decode(AttrInput::List(vec![])),
        Err(err_at(Diagnostic::NoArguments, None))
    );
}

#[test]
fn first_argument_must_be_a_kind_keyword() {
    assert_eq!(
        decode(AttrInput::List(vec![word("wibble")])),
        Err(err_at(Diagnostic::BadParameterKind, Some(0)))
    );
    assert_eq!(
        decode(AttrInput::List(vec![MetaItem::OtherItem])),
        Err(err_at(Diagnostic::BadParameterKind, Some(0)))
    );
}

#[test]
fn non_list_annotation_fails() {
    assert_eq!(decode(AttrInput::NotList), Err(err_at(Diagnostic::NotAList, None)));
}

#[test]
fn unparseable_annotation_fails() {
    assert_eq!(
        decode(AttrInput::Unparseable),
        Err(err_at(Diagnostic::BadAttributeSyntax, None))
    );
}

#[test]
fn unknown_bare_modifier_fails() {
    assert_eq!(
        decode(AttrInput::List(vec![word("any"), word("wibble")])),
        Err(err_at(Diagnostic::UnrecognizedModifier, Some(1)))
    );
}

#[test]
fn unknown_pair_modifier_fails() {
    let a = AttrInput::List(vec![
        word("any"),
        MetaItem::StrPair {
            name: "fallback".to_string(),
            value: "1".to_string(),
            value_parses: true,
        },
    ]);
    assert_eq!(decode(a), Err(err_at(Diagnostic::UnrecognizedModifier, Some(1))));
}

#[test]
fn stray_literal_modifier_fails() {
    assert_eq!(
        decode(AttrInput::List(vec![word("any"), MetaItem::OtherItem])),
        Err(err_at(Diagnostic::UnrecognizedModifier, Some(1)))
    );
}

#[test]
fn non_string_default_fails() {
    let a = AttrInput::List(vec![
        word("any"),
        MetaItem::OtherPair {
            name: "default".to_string(),
        },
    ]);
    assert_eq!(decode(a), Err(err_at(Diagnostic::ExpectedStringDefault, Some(1))));
}

#[test]
fn non_string_default_after_literal_default_reports_already_set() {
    let a = AttrInput::List(vec![
        word("any"),
        MetaItem::StrPair {
            name: "default".to_string(),
            value: "1".to_string(),
            value_parses: true,
        },
        MetaItem::OtherPair {
            name: "default".to_string(),
        },
    ]);
    assert_eq!(decode(a), Err(err_at(Diagnostic::DefaultAlreadySet, Some(2))));
}

#[test]
fn decoding_stops_at_the_first_bad_attribute() {
    let f = Field {
        name: "x".to_string(),
        attrs: vec![AttrInput::NotList, AttrInput::List(vec![word("any")])],
    };
    assert_eq!(
        generate_field(&f),
        Err(DiagnosticAt {
            diagnostic: Diagnostic::NotAList,
            site: Site {
                field: None,
                attr: Some(0),
                arg: None,
            },
        })
    );
}

#[test]
fn diagnostic_messages_match_the_grammar() {
    assert_eq!(
        Diagnostic::NoArguments.message(),
        "There must be at least one argument to #[pyarg()]"
    );
    assert_eq!(
        Diagnostic::FlattenModifier.message(),
        "can't put additional arguments on a flatten arg"
    );
    assert_eq!(
        Diagnostic::UnrecognizedModifier.message(),
        "Unrecognised pyarg attribute"
    );
    assert_eq!(Diagnostic::DefaultAlreadySet.message(), "Default already set");
    assert_eq!(
        Diagnostic::MultipleAttributes.message(),
        "Multiple pyarg attributes on field"
    );
    assert_eq!(
        Diagnostic::NotNamedStruct.message(),
        "FromArgs input must be a struct with named fields"
    );
}
