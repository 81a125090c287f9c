//! The struct emitter: assembling the per-field bindings of a whole
//! declaration into one binding plan, or rejecting a declaration whose shape
//! is not a struct with named fields.

use vstd::prelude::*;
use crate::diagnostic::{Diagnostic, DiagnosticAt, Site};
use crate::field::{
    field_binding, generate_field, Field, FieldBinding, SpecField, SpecFieldBinding,
};

verus! {

/// The shape of the input declaration: a struct with named fields, or
/// anything else (tuple struct, unit struct, enum, union).
#[derive(Clone, Debug, PartialEq, Eq)]
pub enum StructShape {
    NamedStruct(Vec<Field>),
    OtherShape,
}

/// The mathematical value of a `StructShape`.
pub enum SpecStructShape {
    NamedStruct(Seq<SpecField>),
    OtherShape,
}

impl View for StructShape {
    type V = SpecStructShape;

    open spec fn view(&self) -> SpecStructShape {
        match self {
            StructShape::NamedStruct(fields) => SpecStructShape::NamedStruct(
                fields@.map_values(|f: Field| f@),
            ),
            StructShape::OtherShape => SpecStructShape::OtherShape,
        }
    }
}

/// The input declaration as the generator reads it: its name and its shape.
#[derive(Clone, Debug, PartialEq, Eq)]
pub struct DeriveInputModel {
    pub name: String,
    pub shape: StructShape,
}

/// The mathematical value of a `DeriveInputModel`.
pub struct SpecDeriveInput {
    pub name: Seq<char>,
    pub shape: SpecStructShape,
}

impl View for DeriveInputModel {
    type V = SpecDeriveInput;

    open spec fn view(&self) -> SpecDeriveInput {
        SpecDeriveInput { name: self.name@, shape: self.shape@ }
    }
}

/// The whole generated plan: the struct's name and one binding per field, in
/// declaration order. Rendering it as source text is pure syntax.
#[derive(Clone, Debug, PartialEq, Eq)]
pub struct BindingPlan {
    pub name: String,
    pub fields: Vec<FieldBinding>,
}

/// The mathematical value of a `BindingPlan`.
pub struct SpecBindingPlan {
    pub name: Seq<char>,
    pub fields: Seq<SpecFieldBinding>,
}

impl View for BindingPlan {
    type V = SpecBindingPlan;

    open spec fn view(&self) -> SpecBindingPlan {
        SpecBindingPlan { name: self.name@, fields: self.fields@.map_values(|b: FieldBinding| b@) }
    }
}

/// A diagnostic from one field, placed under that field's index in the
/// declaration.
pub open spec fn with_field_index(e: DiagnosticAt, i: int) -> DiagnosticAt {
    DiagnosticAt {
        diagnostic: e.diagnostic,
        site: Site { field: Some(i as usize), attr: e.site.attr, arg: e.site.arg },
    }
}

/// The bindings of the fields from position `i` on, stopping at the first
/// diagnostic, which is reported under the field that raised it.
pub open spec fn field_bindings_at(fields: Seq<SpecField>, i: int) -> Result<
    Seq<SpecFieldBinding>,
    DiagnosticAt,
>
    decreases fields.len() - i,
{
    if i < 0 || i >= fields.len() {
        Ok(Seq::empty())
    } else {
        match field_binding(fields[i]) {
            Err(e) => Err(with_field_index(e, i)),
            Ok(b) => match field_bindings_at(fields, i + 1) {
                Ok(rest) => Ok(seq![b] + rest),
                Err(e) => Err(e),
            },
        }
    }
}

/// Law: a successful plan binds every field, in declaration order, each
/// under its own name.
pub proof fn lemma_plan_preserves_fields(fields: Seq<SpecField>, m: int)
    requires
        0 <= m <= fields.len(),
    ensures
        field_bindings_at(fields, m) matches Ok(bs) ==> bs.len() == fields.len() - m && forall|
            i: int,
        | 0 <= i < bs.len() ==> (#[trigger] bs[i]).name == fields[m + i].name,
    decreases fields.len() - m,
{
    if m < fields.len() {
        lemma_plan_preserves_fields(fields, m + 1);
    }
}

/// The plan generated for one declaration: a diagnostic for a declaration
/// that is not a struct with named fields, otherwise the per-field bindings
/// or the first field diagnostic.
pub open spec fn plan_of(input: SpecDeriveInput) -> Result<SpecBindingPlan, DiagnosticAt> {
    match input.shape {
        SpecStructShape::OtherShape => Err(
            DiagnosticAt {
                diagnostic: Diagnostic::NotNamedStruct,
                site: Site { field: None, attr: None, arg: None },
            },
        ),
        SpecStructShape::NamedStruct(fields) => match field_bindings_at(fields, 0) {
            Ok(bs) => Ok(SpecBindingPlan { name: input.name, fields: bs }),
            Err(e) => Err(e),
        },
    }
}

/// The value of an executable `impl_from_args` result.
pub open spec fn view_res_plan(r: Result<BindingPlan, DiagnosticAt>) -> Result<
    SpecBindingPlan,
    DiagnosticAt,
> {
    match r {
        Ok(p) => Ok(p@),
        Err(e) => Err(e),
    }
}

/// Generate the binding plan for one annotated declaration: reject any shape
/// but a struct with named fields, then bind each field in order, stopping
/// at the first diagnostic.
pub fn impl_from_args(input: &DeriveInputModel) -> (r: Result<BindingPlan, DiagnosticAt>)
    ensures
        view_res_plan(r) == plan_of(input@),
        input@.shape is OtherShape ==> r == Err::<BindingPlan, DiagnosticAt>(
            DiagnosticAt {
                diagnostic: Diagnostic::NotNamedStruct,
                site: Site { field: None, attr: None, arg: None },
            },
        ),
{
    let fields: &Vec<Field> = match &input.shape {
        StructShape::NamedStruct(fields) => fields,
        StructShape::OtherShape => {
            return Err(
                DiagnosticAt {
                    diagnostic: Diagnostic::NotNamedStruct,
                    site: Site { field: None, attr: None, arg: None },
                },
            );
        },
    };
    let ghost sfields = fields@.map_values(|f: Field| f@);
    let mut bound: Vec<FieldBinding> = Vec::new();
    let n = fields.len();
    let mut i: usize = 0;
    assert(bound@.map_values(|b: FieldBinding| b@) =~= Seq::<SpecFieldBinding>::empty());
    assert(forall|q: Seq<SpecFieldBinding>| (Seq::<SpecFieldBinding>::empty() + q) =~= q);
    while i < n
        invariant
            0 <= i <= n,
            n == fields.len(),
            sfields == fields@.map_values(|f: Field| f@),
            input@.shape == SpecStructShape::NamedStruct(sfields),
            match field_bindings_at(sfields, i as int) {
                Ok(q) => field_bindings_at(sfields, 0) == Ok::<Seq<SpecFieldBinding>, DiagnosticAt>(
                    bound@.map_values(|b: FieldBinding| b@) + q,
                ),
                Err(e) => field_bindings_at(sfields, 0) == Err::<
                    Seq<SpecFieldBinding>,
                    DiagnosticAt,
                >(e),
            },
        decreases n - i,
    {
        assert(sfields[i as int] == fields@[i as int]@);
        let ghost prev = bound@.map_values(|b: FieldBinding| b@);
        match generate_field(&fields[i]) {
            Ok(b) => {
                bound.push(b);
                assert(bound@.map_values(|x: FieldBinding| x@) =~= prev + seq![b@]);
                assert(forall|q: Seq<SpecFieldBinding>|
                    ((prev + seq![b@]) + q) =~= (prev + (seq![b@] + q)));
            },
            Err(e) => {
                return Err(
                    DiagnosticAt {
                        diagnostic: e.diagnostic,
                        site: Site { field: Some(i), attr: e.site.attr, arg: e.site.arg },
                    },
                );
            },
        }
        i = i + 1;
    }
    assert(bound@.map_values(|b: FieldBinding| b@) + Seq::<SpecFieldBinding>::empty()
        =~= bound@.map_values(|b: FieldBinding| b@));
    Ok(BindingPlan { name: input.name.clone(), fields: bound })
}

} // verus!
