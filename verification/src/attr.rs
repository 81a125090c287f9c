//! The annotation parser: decoding one field attribute into a classification
//! and a default specification, and saying where in the attribute any
//! diagnostic arose.

use vstd::prelude::*;
use crate::diagnostic::{Diagnostic, DiagnosticAt, Site};
use crate::kind::{kind_of_ident, ParameterKind};
use crate::text::str_is;

verus! {

/// One argument inside a recognized annotation's list, reduced to the shapes
/// the grammar distinguishes.
#[derive(Clone, Debug, PartialEq, Eq)]
pub enum MetaItem {
    /// A bare single-identifier path, such as `default`.
    Word(String),
    /// A `name = "text"` pair whose value is a string literal, together with
    /// the host grammar parser's verdict on whether the text is one
    /// well-formed expression. The embedder that reads the source supplies
    /// the verdict; the library decides everything that follows from it.
    StrPair { name: String, value: String, value_parses: bool },
    /// A `name = <lit>` pair whose value is some other literal.
    OtherPair { name: String },
    /// Anything else: a bare literal, a nested list, a multi-segment path.
    OtherItem,
}

/// The mathematical value of a `MetaItem`.
pub enum SpecMetaItem {
    Word(Seq<char>),
    StrPair { name: Seq<char>, value: Seq<char>, value_parses: bool },
    OtherPair { name: Seq<char> },
    OtherItem,
}

impl View for MetaItem {
    type V = SpecMetaItem;

    open spec fn view(&self) -> SpecMetaItem {
        match self {
            MetaItem::Word(s) => SpecMetaItem::Word(s@),
            MetaItem::StrPair { name, value, value_parses } => SpecMetaItem::StrPair {
                name: name@,
                value: value@,
                value_parses: *value_parses,
            },
            MetaItem::OtherPair { name } => SpecMetaItem::OtherPair { name: name@ },
            MetaItem::OtherItem => SpecMetaItem::OtherItem,
        }
    }
}

/// One attribute attached to a field, reduced to what the annotation parser
/// reads of it.
#[derive(Clone, Debug, PartialEq, Eq)]
pub enum AttrInput {
    /// An attribute whose path is not the recognized annotation name.
    Unrecognized,
    /// A recognized annotation whose arguments are not well-formed meta
    /// syntax.
    Unparseable,
    /// A recognized annotation that is not written as a list.
    NotList,
    /// A recognized annotation list with its arguments in order.
    List(Vec<MetaItem>),
}

/// The mathematical value of an `AttrInput`.
pub enum SpecAttrInput {
    Unrecognized,
    Unparseable,
    NotList,
    List(Seq<SpecMetaItem>),
}

impl View for AttrInput {
    type V = SpecAttrInput;

    open spec fn view(&self) -> SpecAttrInput {
        match self {
            AttrInput::Unrecognized => SpecAttrInput::Unrecognized,
            AttrInput::Unparseable => SpecAttrInput::Unparseable,
            AttrInput::NotList => SpecAttrInput::NotList,
            AttrInput::List(items) => SpecAttrInput::List(items@.map_values(|m: MetaItem| m@)),
        }
    }
}

/// A decoded annotation: the field's classification and its default
/// specification. `default` is `None` when a value is required, `Some(None)`
/// for the field type's generic default, and `Some(Some(text))` for a
/// literal default expression.
#[derive(Clone, Debug, PartialEq, Eq)]
pub struct ArgAttribute {
    pub kind: ParameterKind,
    pub default: Option<Option<String>>,
}

/// The mathematical value of an `ArgAttribute`.
pub struct SpecArgAttribute {
    pub kind: ParameterKind,
    pub default: Option<Option<Seq<char>>>,
}

impl View for ArgAttribute {
    type V = SpecArgAttribute;

    open spec fn view(&self) -> SpecArgAttribute {
        SpecArgAttribute {
            kind: self.kind,
            default: match self.default {
                None => None,
                Some(None) => Some(None),
                Some(Some(e)) => Some(Some(e@)),
            },
        }
    }
}

/// The recognized annotation name: the one attribute path the grammar reads.
pub open spec fn is_annotation_name(s: Seq<char>) -> bool {
    s == "pyarg"@
}

/// Whether a single-identifier attribute path names the recognized
/// annotation.
pub fn is_annotation_path(s: &String) -> (r: bool)
    ensures
        r == is_annotation_name(s@),
{
    str_is(s, "pyarg")
}

/// The annotation state in which modifier decoding starts, once the
/// classification keyword is known.
pub open spec fn initial_attribute(k: ParameterKind) -> SpecArgAttribute {
    SpecArgAttribute { kind: k, default: None }
}

/// The site of one annotation argument, within one attribute.
pub open spec fn arg_site(j: int) -> Site {
    Site { field: None, attr: None, arg: Some(j as usize) }
}

/// The site of the attribute as a whole.
pub open spec fn attr_site() -> Site {
    Site { field: None, attr: None, arg: None }
}

/// One step of modifier decoding: how one annotation argument after the
/// classification keyword updates the annotation being built. Setting a
/// default when one is already set, in either form, is the
/// default-already-set diagnostic.
pub open spec fn apply_modifier(a: SpecArgAttribute, item: SpecMetaItem) -> Result<
    SpecArgAttribute,
    Diagnostic,
> {
    if a.kind is Flatten {
        Err(Diagnostic::FlattenModifier)
    } else {
        match item {
            SpecMetaItem::Word(w) => if w == "default"@ || w == "optional"@ {
                if a.default is None {
                    Ok(SpecArgAttribute { kind: a.kind, default: Some(None) })
                } else {
                    Err(Diagnostic::DefaultAlreadySet)
                }
            } else {
                Err(Diagnostic::UnrecognizedModifier)
            },
            SpecMetaItem::StrPair { name, value, value_parses } => if name == "default"@ {
                if a.default is Some {
                    Err(Diagnostic::DefaultAlreadySet)
                } else if value_parses {
                    Ok(SpecArgAttribute { kind: a.kind, default: Some(Some(value)) })
                } else {
                    Err(Diagnostic::BadDefaultExpr)
                }
            } else {
                Err(Diagnostic::UnrecognizedModifier)
            },
            SpecMetaItem::OtherPair { name } => if name == "default"@ {
                if a.default is Some {
                    Err(Diagnostic::DefaultAlreadySet)
                } else {
                    Err(Diagnostic::ExpectedStringDefault)
                }
            } else {
                Err(Diagnostic::UnrecognizedModifier)
            },
            SpecMetaItem::OtherItem => Err(Diagnostic::UnrecognizedModifier),
        }
    }
}

/// Decoding of the modifier arguments from position `j` on, stopping at the
/// first diagnostic, which is reported at the argument that raised it.
pub open spec fn apply_modifiers_at(
    a: SpecArgAttribute,
    items: Seq<SpecMetaItem>,
    j: int,
) -> Result<SpecArgAttribute, DiagnosticAt>
    decreases items.len() - j,
{
    if j < 0 || j >= items.len() {
        Ok(a)
    } else {
        match apply_modifier(a, items[j]) {
            Ok(a2) => apply_modifiers_at(a2, items, j + 1),
            Err(d) => Err(DiagnosticAt { diagnostic: d, site: arg_site(j) }),
        }
    }
}

/// The classification named by the first annotation argument, if it is a
/// bare recognized keyword.
pub open spec fn first_arg_kind(item: SpecMetaItem) -> Option<ParameterKind> {
    match item {
        SpecMetaItem::Word(w) => kind_of_ident(w),
        _ => None,
    }
}

/// What decoding one attribute yields: `None` for an attribute that is not a
/// recognized annotation, otherwise the decoded annotation or the first
/// diagnostic, sited at the attribute or at the offending argument.
pub open spec fn attr_of_input(a: SpecAttrInput) -> Option<Result<SpecArgAttribute, DiagnosticAt>> {
    match a {
        SpecAttrInput::Unrecognized => None,
        SpecAttrInput::Unparseable => Some(
            Err(DiagnosticAt { diagnostic: Diagnostic::BadAttributeSyntax, site: attr_site() }),
        ),
        SpecAttrInput::NotList => Some(
            Err(DiagnosticAt { diagnostic: Diagnostic::NotAList, site: attr_site() }),
        ),
        SpecAttrInput::List(items) => Some(
            if items.len() == 0 {
                Err(DiagnosticAt { diagnostic: Diagnostic::NoArguments, site: attr_site() })
            } else {
                match first_arg_kind(items[0]) {
                    None => Err(
                        DiagnosticAt { diagnostic: Diagnostic::BadParameterKind, site: arg_site(0) },
                    ),
                    Some(k) => apply_modifiers_at(initial_attribute(k), items, 1),
                }
            },
        ),
    }
}

/// The value of an executable decoding result.
pub open spec fn view_res(r: Result<ArgAttribute, DiagnosticAt>) -> Result<
    SpecArgAttribute,
    DiagnosticAt,
> {
    match r {
        Ok(a) => Ok(a@),
        Err(e) => Err(e),
    }
}

/// The value of an executable `from_attribute` result.
pub open spec fn view_opt_res(r: Option<Result<ArgAttribute, DiagnosticAt>>) -> Option<
    Result<SpecArgAttribute, DiagnosticAt>,
> {
    match r {
        None => None,
        Some(x) => Some(view_res(x)),
    }
}

impl ArgAttribute {
    /// Decode one modifier argument after the classification keyword,
    /// updating the default specification in place. On a diagnostic the
    /// annotation is left as it was.
    pub fn parse_argument(&mut self, arg: &MetaItem) -> (r: Result<(), Diagnostic>)
        ensures
            match r {
                Ok(_) => apply_modifier(old(self)@, arg@) == Ok::<SpecArgAttribute, Diagnostic>(
                    final(self)@,
                ),
                Err(d) => apply_modifier(old(self)@, arg@) == Err::<SpecArgAttribute, Diagnostic>(d)
                    && final(self)@ == old(self)@,
            },
    {
        if let ParameterKind::Flatten = self.kind {
            return Err(Diagnostic::FlattenModifier);
        }
        match arg {
            MetaItem::Word(w) => {
                if str_is(w, "default") || str_is(w, "optional") {
                    if self.default.is_none() {
                        self.default = Some(None);
                        Ok(())
                    } else {
                        Err(Diagnostic::DefaultAlreadySet)
                    }
                } else {
                    Err(Diagnostic::UnrecognizedModifier)
                }
            },
            MetaItem::StrPair { name, value, value_parses } => {
                if str_is(name, "default") {
                    if self.default.is_some() {
                        Err(Diagnostic::DefaultAlreadySet)
                    } else if *value_parses {
                        self.default = Some(Some(value.clone()));
                        Ok(())
                    } else {
                        Err(Diagnostic::BadDefaultExpr)
                    }
                } else {
                    Err(Diagnostic::UnrecognizedModifier)
                }
            },
            MetaItem::OtherPair { name } => {
                if str_is(name, "default") {
                    if self.default.is_some() {
                        Err(Diagnostic::DefaultAlreadySet)
                    } else {
                        Err(Diagnostic::ExpectedStringDefault)
                    }
                } else {
                    Err(Diagnostic::UnrecognizedModifier)
                }
            },
            MetaItem::OtherItem => Err(Diagnostic::UnrecognizedModifier),
        }
    }

    /// Decode one attribute. Returns `None` when the attribute is not a
    /// recognized annotation; otherwise the decoded annotation, or the first
    /// diagnostic its argument list produces, sited within the attribute.
    pub fn from_attribute(attr: &AttrInput) -> (r: Option<Result<ArgAttribute, DiagnosticAt>>)
        ensures
            view_opt_res(r) == attr_of_input(attr@),
    {
        match attr {
            AttrInput::Unrecognized => None,
            AttrInput::Unparseable => Some(
                Err(
                    DiagnosticAt {
                        diagnostic: Diagnostic::BadAttributeSyntax,
                        site: Site { field: None, attr: None, arg: None },
                    },
                ),
            ),
            AttrInput::NotList => Some(
                Err(
                    DiagnosticAt {
                        diagnostic: Diagnostic::NotAList,
                        site: Site { field: None, attr: None, arg: None },
                    },
                ),
            ),
            AttrInput::List(items) => {
                let ghost sitems = items@.map_values(|m: MetaItem| m@);
                if items.len() == 0 {
                    Some(
                        Err(
                            DiagnosticAt {
                                diagnostic: Diagnostic::NoArguments,
                                site: Site { field: None, attr: None, arg: None },
                            },
                        ),
                    )
                } else {
                    let kind_opt = match &items[0] {
                        MetaItem::Word(w) => ParameterKind::from_ident(w),
                        _ => None,
                    };
                    assert(sitems[0] == items@[0]@);
                    match kind_opt {
                        None => Some(
                            Err(
                                DiagnosticAt {
                                    diagnostic: Diagnostic::BadParameterKind,
                                    site: Site { field: None, attr: None, arg: Some(0) },
                                },
                            ),
                        ),
                        Some(k) => {
                            let mut a = ArgAttribute { kind: k, default: None };
                            let n = items.len();
                            let mut i: usize = 1;
                            while i < n
                                invariant
                                    1 <= i <= n,
                                    n == items.len(),
                                    sitems == items@.map_values(|m: MetaItem| m@),
                                    attr@ == SpecAttrInput::List(sitems),
                                    first_arg_kind(sitems[0]) == Some(k),
                                    apply_modifiers_at(initial_attribute(k), sitems, 1)
                                        == apply_modifiers_at(a@, sitems, i as int),
                                decreases n - i,
                            {
                                assert(sitems[i as int] == items@[i as int]@);
                                match a.parse_argument(&items[i]) {
                                    Ok(_) => {},
                                    Err(d) => {
                                        return Some(
                                            Err(
                                                DiagnosticAt {
                                                    diagnostic: d,
                                                    site: Site {
                                                        field: None,
                                                        attr: None,
                                                        arg: Some(i),
                                                    },
                                                },
                                            ),
                                        );
                                    },
                                }
                                i = i + 1;
                            }
                            Some(Ok(a))
                        },
                    }
                }
            },
        }
    }
}

/// Whether one annotation argument tries to set the default, in any of its
/// forms.
pub open spec fn sets_default(item: SpecMetaItem) -> bool {
    match item {
        SpecMetaItem::Word(w) => w == "default"@ || w == "optional"@,
        SpecMetaItem::StrPair { name, .. } => name == "default"@,
        SpecMetaItem::OtherPair { name } => name == "default"@,
        SpecMetaItem::OtherItem => false,
    }
}

/// Decoded annotations never pair the flatten classification with a default
/// specification: a flatten annotation admits no modifier at all.
pub open spec fn decoded_attr_valid(a: SpecArgAttribute) -> bool {
    a.kind is Flatten ==> a.default is None
}

/// Modifier decoding never changes the classification.
pub proof fn lemma_apply_modifiers_keeps_kind(
    a0: SpecArgAttribute,
    items: Seq<SpecMetaItem>,
    m: int,
)
    ensures
        apply_modifiers_at(a0, items, m) matches Ok(a) ==> a.kind == a0.kind,
    decreases items.len() - m,
{
    if 0 <= m < items.len() {
        match apply_modifier(a0, items[m]) {
            Ok(a2) => {
                lemma_apply_modifiers_keeps_kind(a2, items, m + 1);
            },
            Err(_) => {},
        }
    }
}

/// Every annotation the decoder accepts is valid in the sense of
/// `decoded_attr_valid`.
pub proof fn lemma_decoded_attr_valid(x: SpecAttrInput)
    ensures
        attr_of_input(x) matches Some(Ok(a)) ==> decoded_attr_valid(a),
{
    match x {
        SpecAttrInput::List(items) => {
            if items.len() > 0 {
                match first_arg_kind(items[0]) {
                    Some(k) => {
                        if k is Flatten {
                            if items.len() > 1 {
                                assert(apply_modifier(initial_attribute(k), items[1]) is Err);
                            }
                        } else {
                            lemma_apply_modifiers_keeps_kind(initial_attribute(k), items, 1);
                        }
                    },
                    None => {},
                }
            }
        },
        _ => {},
    }
}

/// Law: any additional argument on a flatten annotation is rejected with the
/// flatten-modifier diagnostic, sited at the first such argument.
pub proof fn lemma_flatten_rejects_modifiers(items: Seq<SpecMetaItem>)
    requires
        items.len() >= 2,
        first_arg_kind(items[0]) == Some(ParameterKind::Flatten),
    ensures
        attr_of_input(SpecAttrInput::List(items)) == Some(
            Err::<SpecArgAttribute, DiagnosticAt>(
                DiagnosticAt { diagnostic: Diagnostic::FlattenModifier, site: arg_site(1) },
            ),
        ),
{
    assert(apply_modifier(initial_attribute(ParameterKind::Flatten), items[1]) is Err);
}

/// Splitting modifier decoding at any position: decoding from `m` on is
/// decoding the arguments before `j` and then, if that succeeded, the rest.
pub proof fn lemma_apply_modifiers_at_split(
    a0: SpecArgAttribute,
    items: Seq<SpecMetaItem>,
    m: int,
    j: int,
)
    requires
        0 <= m <= j <= items.len(),
    ensures
        apply_modifiers_at(a0, items, m) == match apply_modifiers_at(a0, items.take(j), m) {
            Ok(a) => apply_modifiers_at(a, items, j),
            Err(e) => Err(e),
        },
    decreases j - m,
{
    if m < j {
        assert(items.take(j)[m] == items[m]);
        match apply_modifier(a0, items[m]) {
            Ok(a2) => {
                lemma_apply_modifiers_at_split(a2, items, m + 1, j);
            },
            Err(_) => {},
        }
    }
}

/// Law: once a default has been set, in either form, a further
/// default-setting argument fails decoding with the default-already-set
/// diagnostic, sited at that argument, whatever arguments follow.
pub proof fn lemma_default_set_twice(
    k: ParameterKind,
    items: Seq<SpecMetaItem>,
    m: int,
    j: int,
)
    requires
        0 <= m <= j < items.len(),
        apply_modifiers_at(initial_attribute(k), items.take(j), m) matches Ok(a) && a.default
            is Some,
        sets_default(items[j]),
    ensures
        apply_modifiers_at(initial_attribute(k), items, m) == Err::<SpecArgAttribute, DiagnosticAt>(
            DiagnosticAt { diagnostic: Diagnostic::DefaultAlreadySet, site: arg_site(j) },
        ),
{
    if k is Flatten {
        if m == j {
            assert(apply_modifiers_at(initial_attribute(k), items.take(j), m) == Ok::<
                SpecArgAttribute,
                DiagnosticAt,
            >(initial_attribute(k)));
        } else {
            assert(apply_modifier(initial_attribute(k), items.take(j)[m]) is Err);
        }
    } else {
        lemma_apply_modifiers_at_split(initial_attribute(k), items, m, j);
        lemma_apply_modifiers_keeps_kind(initial_attribute(k), items.take(j), m);
    }
}

} // verus!
