//! The field code generator: selecting, for one field, the exact expression
//! shape that extracts and converts its value from the argument bundle.

use vstd::prelude::*;
use crate::attr::{
    attr_of_input, decoded_attr_valid, ArgAttribute, AttrInput, SpecArgAttribute, SpecAttrInput,
};
use crate::diagnostic::{Diagnostic, DiagnosticAt, Site};
use crate::kind::ParameterKind;
use crate::text::{is_phantom_name, str_starts_with};

verus! {

/// A field declaration as the generator reads it: its name and its attached
/// attributes, in source order.
#[derive(Clone, Debug, PartialEq, Eq)]
pub struct Field {
    pub name: String,
    pub attrs: Vec<AttrInput>,
}

/// The mathematical value of a `Field`.
pub struct SpecField {
    pub name: Seq<char>,
    pub attrs: Seq<SpecAttrInput>,
}

impl View for Field {
    type V = SpecField;

    open spec fn view(&self) -> SpecField {
        SpecField { name: self.name@, attrs: self.attrs@.map_values(|a: AttrInput| a@) }
    }
}

/// The retrieval stage of a generated expression: how the value is fetched
/// from the argument bundle.
#[derive(Clone, Copy, Debug, PartialEq, Eq, Structural)]
pub enum Strategy {
    /// Take the next positional slot.
    Positional,
    /// Take a positional slot first, then fall back to the field's name.
    PositionalOrKeyword,
    /// Take the named slot for the field's name only.
    Keyword,
}

/// The absence-resolution stage of a generated expression: what the code
/// does when the bundle holds no value for the field.
#[derive(Clone, Debug, PartialEq, Eq)]
pub enum Fallback {
    /// Evaluate exactly the annotation's literal default expression.
    DefaultExpr(String),
    /// Fall back to the field type's generic default.
    DefaultOfType,
    /// Fail the call with the "too few positional arguments" error.
    RequiredPositional,
    /// Fail the call with the "missing named argument" error carrying the
    /// field's name.
    RequiredKeyword(String),
}

/// The mathematical value of a `Fallback`.
pub enum SpecFallback {
    DefaultExpr(Seq<char>),
    DefaultOfType,
    RequiredPositional,
    RequiredKeyword(Seq<char>),
}

impl View for Fallback {
    type V = SpecFallback;

    open spec fn view(&self) -> SpecFallback {
        match self {
            Fallback::DefaultExpr(e) => SpecFallback::DefaultExpr(e@),
            Fallback::DefaultOfType => SpecFallback::DefaultOfType,
            Fallback::RequiredPositional => SpecFallback::RequiredPositional,
            Fallback::RequiredKeyword(n) => SpecFallback::RequiredKeyword(n@),
        }
    }
}

/// The expression generated for one field.
#[derive(Clone, Debug, PartialEq, Eq)]
pub enum Binding {
    /// A zero-sized placeholder value, for a phantom-marker field.
    Phantom,
    /// A recursive binding of the whole remaining argument bundle.
    Flatten,
    /// A three-stage expression: retrieve by `strategy`, convert the value to
    /// the field's type, and resolve absence by `fallback`.
    Extract { strategy: Strategy, fallback: Fallback },
}

/// The mathematical value of a `Binding`.
pub enum SpecBinding {
    Phantom,
    Flatten,
    Extract { strategy: Strategy, fallback: SpecFallback },
}

impl View for Binding {
    type V = SpecBinding;

    open spec fn view(&self) -> SpecBinding {
        match self {
            Binding::Phantom => SpecBinding::Phantom,
            Binding::Flatten => SpecBinding::Flatten,
            Binding::Extract { strategy, fallback } => SpecBinding::Extract {
                strategy: *strategy,
                fallback: fallback@,
            },
        }
    }
}

/// One field's generated binding: the field's name and its expression.
#[derive(Clone, Debug, PartialEq, Eq)]
pub struct FieldBinding {
    pub name: String,
    pub binding: Binding,
}

/// The mathematical value of a `FieldBinding`.
pub struct SpecFieldBinding {
    pub name: Seq<char>,
    pub binding: SpecBinding,
}

impl View for FieldBinding {
    type V = SpecFieldBinding;

    open spec fn view(&self) -> SpecFieldBinding {
        SpecFieldBinding { name: self.name@, binding: self.binding@ }
    }
}

/// A diagnostic from one attribute, placed under that attribute's index on
/// the field.
pub open spec fn with_attr_index(e: DiagnosticAt, i: int) -> DiagnosticAt {
    DiagnosticAt {
        diagnostic: e.diagnostic,
        site: Site { field: e.site.field, attr: Some(i as usize), arg: e.site.arg },
    }
}

/// Decoding of a field's attributes from position `i` on: the recognized
/// annotations in source order, stopping at the first diagnostic, which is
/// reported under the attribute that raised it.
pub open spec fn recognized_attrs_at(attrs: Seq<SpecAttrInput>, i: int) -> Result<
    Seq<SpecArgAttribute>,
    DiagnosticAt,
>
    decreases attrs.len() - i,
{
    if i < 0 || i >= attrs.len() {
        Ok(Seq::empty())
    } else {
        match attr_of_input(attrs[i]) {
            None => recognized_attrs_at(attrs, i + 1),
            Some(Err(e)) => Err(with_attr_index(e, i)),
            Some(Ok(a)) => match recognized_attrs_at(attrs, i + 1) {
                Ok(rest) => Ok(seq![a] + rest),
                Err(e) => Err(e),
            },
        }
    }
}

/// The annotation assumed for a field that carries none: position-or-keyword
/// with no default.
pub open spec fn default_annotation() -> SpecArgAttribute {
    SpecArgAttribute { kind: ParameterKind::PositionalOrKeyword, default: None }
}

/// The absence-resolution stage selected for a field from its annotation.
pub open spec fn fallback_of(name: Seq<char>, a: SpecArgAttribute) -> SpecFallback {
    match a.default {
        Some(Some(e)) => SpecFallback::DefaultExpr(e),
        Some(None) => SpecFallback::DefaultOfType,
        None => if a.kind is KeywordOnly {
            SpecFallback::RequiredKeyword(name)
        } else {
            SpecFallback::RequiredPositional
        },
    }
}

/// The expression selected for a field once its single annotation is known.
pub open spec fn binding_of(name: Seq<char>, a: SpecArgAttribute) -> SpecBinding {
    if is_phantom_name(name) {
        SpecBinding::Phantom
    } else {
        match a.kind {
            ParameterKind::Flatten => SpecBinding::Flatten,
            ParameterKind::PositionalOnly => SpecBinding::Extract {
                strategy: Strategy::Positional,
                fallback: fallback_of(name, a),
            },
            ParameterKind::PositionalOrKeyword => SpecBinding::Extract {
                strategy: Strategy::PositionalOrKeyword,
                fallback: fallback_of(name, a),
            },
            ParameterKind::KeywordOnly => SpecBinding::Extract {
                strategy: Strategy::Keyword,
                fallback: fallback_of(name, a),
            },
        }
    }
}

/// The binding generated for one field, or the first diagnostic its
/// attributes produce, sited within the field (the field's own index is
/// attached by the caller that walks the fields).
pub open spec fn field_binding(f: SpecField) -> Result<SpecFieldBinding, DiagnosticAt> {
    match recognized_attrs_at(f.attrs, 0) {
        Err(e) => Err(e),
        Ok(s) => if s.len() > 1 {
            Err(
                DiagnosticAt {
                    diagnostic: Diagnostic::MultipleAttributes,
                    site: Site { field: None, attr: None, arg: None },
                },
            )
        } else {
            let a = if s.len() == 0 {
                default_annotation()
            } else {
                s[0]
            };
            Ok(SpecFieldBinding { name: f.name, binding: binding_of(f.name, a) })
        },
    }
}

/// The value of an executable `generate_field` result.
pub open spec fn view_res_binding(r: Result<FieldBinding, DiagnosticAt>) -> Result<
    SpecFieldBinding,
    DiagnosticAt,
> {
    match r {
        Ok(b) => Ok(b@),
        Err(e) => Err(e),
    }
}

/// The absence-resolution stage, executably.
fn fallback_for(name: &String, attr: &ArgAttribute) -> (r: Fallback)
    ensures
        r@ == fallback_of(name@, attr@),
{
    match &attr.default {
        Some(Some(e)) => Fallback::DefaultExpr(e.clone()),
        Some(None) => Fallback::DefaultOfType,
        None => {
            if let ParameterKind::KeywordOnly = attr.kind {
                Fallback::RequiredKeyword(name.clone())
            } else {
                Fallback::RequiredPositional
            }
        },
    }
}

/// Generate the binding for one field: decode its attributes, demand at most
/// one recognized annotation, special-case phantom-marker names, and select
/// the retrieval strategy and absence fallback.
pub fn generate_field(field: &Field) -> (r: Result<FieldBinding, DiagnosticAt>)
    ensures
        view_res_binding(r) == field_binding(field@),
{
    let ghost sattrs = field@.attrs;
    let mut collected: Vec<ArgAttribute> = Vec::new();
    let n = field.attrs.len();
    let mut i: usize = 0;
    assert(collected@.map_values(|a: ArgAttribute| a@) =~= Seq::<SpecArgAttribute>::empty());
    assert(forall|q: Seq<SpecArgAttribute>| (Seq::<SpecArgAttribute>::empty() + q) =~= q);
    while i < n
        invariant
            0 <= i <= n,
            n == field.attrs.len(),
            sattrs == field.attrs@.map_values(|a: AttrInput| a@),
            match recognized_attrs_at(sattrs, i as int) {
                Ok(q) => recognized_attrs_at(sattrs, 0) == Ok::<Seq<SpecArgAttribute>, DiagnosticAt>(
                    collected@.map_values(|a: ArgAttribute| a@) + q,
                ),
                Err(e) => recognized_attrs_at(sattrs, 0) == Err::<
                    Seq<SpecArgAttribute>,
                    DiagnosticAt,
                >(e),
            },
        decreases n - i,
    {
        assert(sattrs[i as int] == field.attrs@[i as int]@);
        let ghost prev = collected@.map_values(|a: ArgAttribute| a@);
        match ArgAttribute::from_attribute(&field.attrs[i]) {
            None => {},
            Some(Ok(a)) => {
                collected.push(a);
                assert(collected@.map_values(|x: ArgAttribute| x@) =~= prev + seq![a@]);
                assert(forall|q: Seq<SpecArgAttribute>|
                    (prev + seq![a@]) + q =~= prev + (seq![a@] + q));
            },
            Some(Err(e)) => {
                return Err(
                    DiagnosticAt {
                        diagnostic: e.diagnostic,
                        site: Site { field: e.site.field, attr: Some(i), arg: e.site.arg },
                    },
                );
            },
        }
        i = i + 1;
    }
    assert(collected@.map_values(|a: ArgAttribute| a@) + Seq::<SpecArgAttribute>::empty()
        =~= collected@.map_values(|a: ArgAttribute| a@));
    let attr: ArgAttribute = if collected.len() == 0 {
        ArgAttribute { kind: ParameterKind::PositionalOrKeyword, default: None }
    } else if collected.len() == 1 {
        collected.remove(0)
    } else {
        return Err(
            DiagnosticAt {
                diagnostic: Diagnostic::MultipleAttributes,
                site: Site { field: None, attr: None, arg: None },
            },
        );
    };
    if str_starts_with(&field.name, "_phantom") {
        return Ok(FieldBinding { name: field.name.clone(), binding: Binding::Phantom });
    }
    let binding = match attr.kind {
        ParameterKind::Flatten => Binding::Flatten,
        ParameterKind::PositionalOnly => Binding::Extract {
            strategy: Strategy::Positional,
            fallback: fallback_for(&field.name, &attr),
        },
        ParameterKind::PositionalOrKeyword => Binding::Extract {
            strategy: Strategy::PositionalOrKeyword,
            fallback: fallback_for(&field.name, &attr),
        },
        ParameterKind::KeywordOnly => Binding::Extract {
            strategy: Strategy::Keyword,
            fallback: fallback_for(&field.name, &attr),
        },
    };
    Ok(FieldBinding { name: field.name.clone(), binding })
}

/// A field none of whose attributes is a recognized annotation decodes to no
/// annotation at all.
pub proof fn lemma_no_recognized(attrs: Seq<SpecAttrInput>, m: int)
    requires
        forall|i: int| 0 <= i < attrs.len() ==> attrs[i] is Unrecognized,
    ensures
        recognized_attrs_at(attrs, m) == Ok::<Seq<SpecArgAttribute>, DiagnosticAt>(Seq::empty()),
    decreases attrs.len() - m,
{
    if 0 <= m < attrs.len() {
        lemma_no_recognized(attrs, m + 1);
    }
}

/// Every annotation in a successful decoding is valid in the sense of
/// `decoded_attr_valid`: flatten never carries a default.
pub proof fn lemma_recognized_attrs_valid(attrs: Seq<SpecAttrInput>, m: int)
    ensures
        recognized_attrs_at(attrs, m) matches Ok(s) ==> forall|i: int|
            0 <= i < s.len() ==> decoded_attr_valid(#[trigger] s[i]),
    decreases attrs.len() - m,
{
    if 0 <= m < attrs.len() {
        lemma_recognized_attrs_valid(attrs, m + 1);
        crate::attr::lemma_decoded_attr_valid(attrs[m]);
    }
}

/// Law: a field that carries no recognized annotation, and is not a phantom
/// marker, binds as position-or-keyword with no default, so an absent value
/// fails with the too-few-positional-arguments error.
pub proof fn lemma_unannotated_field(f: SpecField)
    requires
        forall|i: int| 0 <= i < f.attrs.len() ==> f.attrs[i] is Unrecognized,
        !is_phantom_name(f.name),
    ensures
        field_binding(f) == Ok::<SpecFieldBinding, DiagnosticAt>(
            SpecFieldBinding {
                name: f.name,
                binding: SpecBinding::Extract {
                    strategy: Strategy::PositionalOrKeyword,
                    fallback: SpecFallback::RequiredPositional,
                },
            },
        ),
{
    lemma_no_recognized(f.attrs, 0);
}

/// Law: a field whose single annotation is flatten binds by recursing into
/// the sub-bundle contract.
pub proof fn lemma_flatten_field(f: SpecField, a: SpecArgAttribute)
    requires
        recognized_attrs_at(f.attrs, 0) == Ok::<Seq<SpecArgAttribute>, DiagnosticAt>(seq![a]),
        a.kind is Flatten,
        !is_phantom_name(f.name),
    ensures
        field_binding(f) == Ok::<SpecFieldBinding, DiagnosticAt>(
            SpecFieldBinding { name: f.name, binding: SpecBinding::Flatten },
        ),
{
}

/// Law: a field whose single annotation carries a literal default expression
/// resolves absence by evaluating exactly that expression.
pub proof fn lemma_literal_default(f: SpecField, a: SpecArgAttribute, e: Seq<char>)
    requires
        recognized_attrs_at(f.attrs, 0) == Ok::<Seq<SpecArgAttribute>, DiagnosticAt>(seq![a]),
        a.default == Some(Some(e)),
        !is_phantom_name(f.name),
    ensures
        field_binding(f) matches Ok(fb) && fb.binding matches SpecBinding::Extract {
            fallback,
            ..
        } && fallback == SpecFallback::DefaultExpr(e),
{
    lemma_recognized_attrs_valid(f.attrs, 0);
    assert(decoded_attr_valid(seq![a][0]));
}

/// Law: a field whose single annotation carries a bare default resolves
/// absence with the field type's generic default, not a failure.
pub proof fn lemma_bare_default(f: SpecField, a: SpecArgAttribute)
    requires
        recognized_attrs_at(f.attrs, 0) == Ok::<Seq<SpecArgAttribute>, DiagnosticAt>(seq![a]),
        a.default == Some(None::<Seq<char>>),
        !is_phantom_name(f.name),
    ensures
        field_binding(f) matches Ok(fb) && fb.binding matches SpecBinding::Extract {
            fallback,
            ..
        } && fallback == SpecFallback::DefaultOfType,
{
    lemma_recognized_attrs_valid(f.attrs, 0);
    assert(decoded_attr_valid(seq![a][0]));
}

/// Law: a positional or position-or-keyword field without a default resolves
/// absence with the too-few-positional-arguments failure.
pub proof fn lemma_required_positional(f: SpecField, a: SpecArgAttribute)
    requires
        recognized_attrs_at(f.attrs, 0) == Ok::<Seq<SpecArgAttribute>, DiagnosticAt>(seq![a]),
        a.kind is PositionalOnly || a.kind is PositionalOrKeyword,
        a.default is None,
        !is_phantom_name(f.name),
    ensures
        field_binding(f) matches Ok(fb) && fb.binding matches SpecBinding::Extract {
            fallback,
            ..
        } && fallback == SpecFallback::RequiredPositional,
{
}

/// Law: a named-only field without a default resolves absence with the
/// missing-named-argument failure carrying the field's own name.
pub proof fn lemma_required_keyword(f: SpecField, a: SpecArgAttribute)
    requires
        recognized_attrs_at(f.attrs, 0) == Ok::<Seq<SpecArgAttribute>, DiagnosticAt>(seq![a]),
        a.kind is KeywordOnly,
        a.default is None,
        !is_phantom_name(f.name),
    ensures
        field_binding(f) matches Ok(fb) && fb.binding == (SpecBinding::Extract {
            strategy: Strategy::Keyword,
            fallback: SpecFallback::RequiredKeyword(f.name),
        }),
{
}

/// Law: a field with more than one recognized annotation fails generation
/// with the multiple-annotations diagnostic.
pub proof fn lemma_multiple_annotations(f: SpecField, s: Seq<SpecArgAttribute>)
    requires
        recognized_attrs_at(f.attrs, 0) == Ok::<Seq<SpecArgAttribute>, DiagnosticAt>(s),
        s.len() >= 2,
    ensures
        field_binding(f) == Err::<SpecFieldBinding, DiagnosticAt>(
            DiagnosticAt {
                diagnostic: Diagnostic::MultipleAttributes,
                site: Site { field: None, attr: None, arg: None },
            },
        ),
{
}

} // verus!
