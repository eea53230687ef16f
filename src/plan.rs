use vstd::prelude::*;
use crate::request::{CertOptions, KeyType, ValidationError};
use crate::san::{
    classify_all, classify_sans, san_encodable, sans_view, strings_view, SanKind,
    SubjectAltName,
};
use crate::subject::{
    attributes_view, in_field_order, optional_attribute, subject_attributes, subject_spec, DnAttribute, DnField,
};
use crate::validity::{encodable, validity_window, window_spec, ValidityWindow};

verus! {

/// Everything a certificate is built from, once a request has been checked.
pub struct CertificatePlan {
    pub subject: Vec<DnAttribute>,
    pub sans: Vec<SubjectAltName>,
    pub validity: ValidityWindow,
    pub key_type: KeyType,
    /// PKCS#12 passphrase; empty means none.
    pub pkcs12_password: String,
    /// Friendly name of the PKCS#12 bags: the common name.
    pub friendly_name: String,
}

/// The first reason, if any, for which a request made at `now` is refused:
/// checked in the order common name, validity, subject alternative names.
pub open spec fn request_error(opt: CertOptions, now: int) -> Option<ValidationError> {
    if opt.cn@.len() == 0 {
        Some(ValidationError::EmptyCommonName)
    } else if window_spec(now, opt.validity_days as int) is Err {
        Some(window_spec(now, opt.validity_days as int)->Err_0)
    } else {
        match classify_all(strings_view(opt.sans@)) {
            Err(i) => Some(ValidationError::InvalidSan(i as usize)),
            Ok(_) => None,
        }
    }
}

/// `p` is the plan of the request `opt` made at `now`.
pub open spec fn plan_of(p: CertificatePlan, opt: CertOptions, now: int) -> bool {
    &&& attributes_view(p.subject@) == subject_spec(opt)
    &&& classify_all(strings_view(opt.sans@)) == Ok::<Seq<SanKind>, int>(sans_view(p.sans@))
    &&& window_spec(now, opt.validity_days as int) == Ok::<ValidityWindow, ValidationError>(p.validity)
    &&& p.key_type == opt.key_type
    &&& p.pkcs12_password@ == opt.pfx_password@
    &&& p.friendly_name@ == opt.cn@
}

/// What every plan satisfies, whatever the request: its names and window can
/// be encoded, and its subject has each attribute type once, in the fixed order.
pub open spec fn plan_wf(p: CertificatePlan) -> bool {
    &&& forall|i: int| 0 <= i < p.sans@.len() ==> san_encodable(#[trigger] p.sans@[i])
    &&& encodable(p.validity.not_before as int)
    &&& encodable(p.validity.not_after as int)
    &&& in_field_order(attributes_view(p.subject@))
}

/// Checks a request made at `now` (seconds since the Unix epoch) and turns it
/// into the plan of its certificate.
pub fn plan_certificate(opt: &CertOptions, now: i64) -> (r: Result<CertificatePlan, ValidationError>)
    ensures
        match request_error(*opt, now as int) {
            Some(e) => r == Err::<CertificatePlan, ValidationError>(e),
            None => r is Ok && plan_of(r->Ok_0, *opt, now as int) && plan_wf(r->Ok_0),
        },
{
    if opt.cn.as_str().is_empty() {
        return Err(ValidationError::EmptyCommonName);
    }
    let validity = match validity_window(now, opt.validity_days) {
        Ok(w) => w,
        Err(e) => return Err(e),
    };
    let sans = match classify_sans(&opt.sans) {
        Ok(s) => s,
        Err(e) => return Err(e),
    };
    Ok(CertificatePlan {
        subject: subject_attributes(opt),
        sans,
        validity,
        key_type: opt.key_type,
        pkcs12_password: opt.pfx_password.clone(),
        friendly_name: opt.cn.clone(),
    })
}

pub open spec fn optional_text(v: Option<String>) -> Option<Seq<char>> {
    match v {
        Some(s) => Some(s@),
        None => None,
    }
}

/// Two requests with the same fields.
pub open spec fn same_request(a: CertOptions, b: CertOptions) -> bool {
    &&& a.cn@ == b.cn@
    &&& strings_view(a.sans@) == strings_view(b.sans@)
    &&& a.validity_days == b.validity_days
    &&& optional_text(a.country) == optional_text(b.country)
    &&& optional_text(a.state) == optional_text(b.state)
    &&& optional_text(a.city) == optional_text(b.city)
    &&& optional_text(a.organization) == optional_text(b.organization)
    &&& optional_text(a.org_unit) == optional_text(b.org_unit)
    &&& a.key_type == b.key_type
    &&& a.pfx_password@ == b.pfx_password@
}

/// Everything a plan says, as values.
pub open spec fn plan_view(p: CertificatePlan) -> (
    Seq<(DnField, Seq<char>)>,
    Seq<SanKind>,
    ValidityWindow,
    KeyType,
    Seq<char>,
    Seq<char>,
) {
    (
        attributes_view(p.subject@),
        sans_view(p.sans@),
        p.validity,
        p.key_type,
        p.pkcs12_password@,
        p.friendly_name@,
    )
}

proof fn lemma_optional_attribute(field: DnField, a: Option<String>, b: Option<String>)
    requires
        optional_text(a) == optional_text(b),
    ensures
        optional_attribute(field, a) == optional_attribute(field, b),
{
}

/// Determinism: requests with the same fields, made at the same instant, are
/// refused for the same reason or give plans that agree in every part; only
/// the clock and the key generator's randomness make two builds differ.
pub proof fn lemma_plan_deterministic(
    a: CertOptions,
    b: CertOptions,
    now: int,
    pa: CertificatePlan,
    pb: CertificatePlan,
)
    requires
        same_request(a, b),
    ensures
        request_error(a, now) == request_error(b, now),
        subject_spec(a) == subject_spec(b),
        request_error(a, now) is None && plan_of(pa, a, now) && plan_of(pb, b, now)
            ==> plan_view(pa) == plan_view(pb),
{
    lemma_optional_attribute(DnField::Country, a.country, b.country);
    lemma_optional_attribute(DnField::State, a.state, b.state);
    lemma_optional_attribute(DnField::Locality, a.city, b.city);
    lemma_optional_attribute(DnField::Organization, a.organization, b.organization);
    lemma_optional_attribute(DnField::OrganizationalUnit, a.org_unit, b.org_unit);
    assert(subject_spec(a) == subject_spec(b));
}

} // verus!
