use vstd::prelude::*;
use crate::request::CertOptions;

verus! {

/// Attribute types of the subject Name that a request can fill.
#[derive(Debug, Clone, Copy, PartialEq, Eq, Structural)]
pub enum DnField {
    CommonName,
    Country,
    State,
    Locality,
    Organization,
    OrganizationalUnit,
}

/// One attribute of the subject Name.
pub struct DnAttribute {
    pub field: DnField,
    pub value: String,
}

pub open spec fn attribute_view(a: DnAttribute) -> (DnField, Seq<char>) {
    (a.field, a.value@)
}

pub open spec fn attributes_view(v: Seq<DnAttribute>) -> Seq<(DnField, Seq<char>)> {
    v.map_values(|a: DnAttribute| attribute_view(a))
}

/// The attribute for an optional field: one entry when present, none when absent.
pub open spec fn optional_attribute(field: DnField, v: Option<String>) -> Seq<(DnField, Seq<char>)> {
    match v {
        Some(s) => seq![(field, s@)],
        None => Seq::empty(),
    }
}

/// The subject Name of a request: the common name, then the present fields in
/// the order country, state, locality, organization, organizational unit.
pub open spec fn subject_spec(opt: CertOptions) -> Seq<(DnField, Seq<char>)> {
    seq![(DnField::CommonName, opt.cn@)]
        + optional_attribute(DnField::Country, opt.country)
        + optional_attribute(DnField::State, opt.state)
        + optional_attribute(DnField::Locality, opt.city)
        + optional_attribute(DnField::Organization, opt.organization)
        + optional_attribute(DnField::OrganizationalUnit, opt.org_unit)
}

/// Position of an attribute type in the fixed order of the subject Name.
pub open spec fn field_rank(f: DnField) -> int {
    match f {
        DnField::CommonName => 0,
        DnField::Country => 1,
        DnField::State => 2,
        DnField::Locality => 3,
        DnField::Organization => 4,
        DnField::OrganizationalUnit => 5,
    }
}

/// The attribute types follow the fixed order strictly, so none repeats.
pub open spec fn in_field_order(s: Seq<(DnField, Seq<char>)>) -> bool {
    forall|i: int, j: int| 0 <= i < j < s.len() ==> field_rank(#[trigger] s[i].0) < field_rank(#[trigger] s[j].0)
}

fn push_optional(out: &mut Vec<DnAttribute>, field: DnField, v: &Option<String>)
    requires
        in_field_order(attributes_view(old(out)@)),
        forall|i: int| 0 <= i < old(out)@.len() ==> field_rank(#[trigger] old(out)@[i].field) < field_rank(field),
    ensures
        attributes_view(final(out)@) == attributes_view(old(out)@) + optional_attribute(field, *v),
        in_field_order(attributes_view(final(out)@)),
        forall|i: int| 0 <= i < final(out)@.len() ==> field_rank(#[trigger] final(out)@[i].field) <= field_rank(field),
{
    match v {
        Some(s) => {
            out.push(DnAttribute { field, value: s.clone() });
            assert(attributes_view(final(out)@) =~= attributes_view(old(out)@) + optional_attribute(field, *v));
        },
        None => {
            assert(attributes_view(final(out)@) =~= attributes_view(old(out)@) + optional_attribute(field, *v));
        },
    }
}

/// Assembles the subject Name of a request.
pub fn subject_attributes(opt: &CertOptions) -> (r: Vec<DnAttribute>)
    ensures
        attributes_view(r@) == subject_spec(*opt),
        in_field_order(attributes_view(r@)),
{
    let mut out: Vec<DnAttribute> = Vec::new();
    out.push(DnAttribute { field: DnField::CommonName, value: opt.cn.clone() });
    assert(attributes_view(out@) =~= seq![(DnField::CommonName, opt.cn@)]);
    push_optional(&mut out, DnField::Country, &opt.country);
    push_optional(&mut out, DnField::State, &opt.state);
    push_optional(&mut out, DnField::Locality, &opt.city);
    push_optional(&mut out, DnField::Organization, &opt.organization);
    push_optional(&mut out, DnField::OrganizationalUnit, &opt.org_unit);
    out
}

} // verus!
