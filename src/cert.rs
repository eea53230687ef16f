use vstd::prelude::*;
use crate::backend::{
    certificate_der, certificate_header, certificate_pem, empty_params, generate_key_pair,
    has_prefix, pkcs12, pkcs12_der, private_key_der, private_key_header, private_key_pem,
    push_san, push_subject, self_signed, set_validity, unix_time_now, CertParams,
};
use crate::plan::{
    lemma_plan_deterministic, plan_certificate, plan_wf, request_error, same_request,
    CertificatePlan,
};
use crate::request::{CertError, CertOptions, GeneratedCert, ValidationError};
use crate::san::{classify_all, sans_view, strings_view, SanKind};
use crate::subject::{attributes_view, field_rank, subject_spec, DnField};
use crate::validity::{window_spec, ValidityWindow};

verus! {

/// The material is PEM text of the expected kinds and a non-empty bundle.
pub open spec fn pem_framed(g: GeneratedCert) -> bool {
    &&& has_prefix(g.cert_pem@, certificate_header())
    &&& has_prefix(g.key_pem@, private_key_header())
    &&& g.pfx@.len() > 0
}

/// What a build of the request `opt` at `now` gives: the request's validation
/// error if it is refused; else PEM-framed material, or a failure of an
/// outside stage.
pub open spec fn outcome_at(opt: CertOptions, now: int, r: Result<GeneratedCert, CertError>) -> bool {
    match request_error(opt, now) {
        Some(e) => r == Err::<GeneratedCert, CertError>(CertError::Validation(e)),
        None => match r {
            Ok(g) => pem_framed(g) && certifies(g, opt, now),
            Err(e) => !(e is Validation),
        },
    }
}

/// The certificate holds what the request `opt` made at `now` asks for: the
/// subject Name of the request, its names classified in order, and the window
/// from `now` for the requested number of days.
pub open spec fn certifies(g: GeneratedCert, opt: CertOptions, now: int) -> bool {
    &&& g.subject@ == subject_spec(opt)
    &&& classify_all(strings_view(opt.sans@)) == Ok::<Seq<SanKind>, int>(g.sans@)
    &&& window_spec(now, opt.validity_days as int) == Ok::<ValidityWindow, ValidationError>(g.validity@)
}

/// rcgen's parameters for a plan: exactly its subject, its names and its
/// validity window.
pub(crate) fn certificate_params(plan: &CertificatePlan) -> (r: CertParams)
    requires
        plan_wf(*plan),
    ensures
        r.subject@ == attributes_view(plan.subject@),
        r.sans@ == sans_view(plan.sans@),
        r.window@ == Some(plan.validity),
{
    let ghost subject = attributes_view(plan.subject@);
    let mut params = empty_params();
    set_validity(&mut params, plan.validity);
    let mut i: usize = 0;
    assert(subject.take(0) =~= Seq::<(DnField, Seq<char>)>::empty());
    while i < plan.subject.len()
        invariant
            plan_wf(*plan),
            subject == attributes_view(plan.subject@),
            i <= plan.subject@.len(),
            params.subject@ == subject.take(i as int),
            params.sans@ == Seq::<SanKind>::empty(),
            params.window@ == Some(plan.validity),
        decreases plan.subject@.len() - i,
    {
        assert forall|k: int| 0 <= k < params.subject@.len() implies (#[trigger] params.subject@[k]).0
            != plan.subject@[i as int].field by {
            assert(subject[k] == params.subject@[k]);
            assert(field_rank(subject[k].0) < field_rank(subject[i as int].0));
        }
        push_subject(&mut params, &plan.subject[i]);
        assert(params.subject@ =~= subject.take(i as int + 1));
        i = i + 1;
    }
    assert(subject.take(i as int) =~= subject);
    let ghost names = sans_view(plan.sans@);
    let mut j: usize = 0;
    assert(names.take(0) =~= Seq::<SanKind>::empty());
    while j < plan.sans.len()
        invariant
            plan_wf(*plan),
            names == sans_view(plan.sans@),
            j <= plan.sans@.len(),
            params.subject@ == subject,
            params.sans@ == names.take(j as int),
            params.window@ == Some(plan.validity),
        decreases plan.sans@.len() - j,
    {
        let _ = push_san(&mut params, &plan.sans[j]);
        assert(params.sans@ =~= names.take(j as int + 1));
        j = j + 1;
    }
    assert(names.take(j as int) =~= names);
    params
}

/// Builds the certificate of a checked plan: a fresh key pair of the planned
/// algorithm, the self-signed certificate, both in PEM, and the PKCS#12 bundle
/// under the planned passphrase. Only the outside stages can fail here.
pub fn build_certificate(plan: &CertificatePlan) -> (r: Result<GeneratedCert, CertError>)
    requires
        plan_wf(*plan),
    ensures
        match r {
            Ok(g) => {
                &&& pem_framed(g)
                &&& g.subject@ == attributes_view(plan.subject@)
                &&& g.sans@ == sans_view(plan.sans@)
                &&& g.validity@ == plan.validity
            },
            Err(e) => !(e is Validation),
        },
{
    let key = match generate_key_pair(plan.key_type) {
        Ok(k) => k,
        Err(_) => return Err(CertError::KeyGeneration),
    };
    let params = certificate_params(plan);
    let cert = match self_signed(params, &key) {
        Ok(c) => c,
        Err(_) => return Err(CertError::Signing),
    };
    let cert_pem = certificate_pem(&cert);
    let key_pem = private_key_pem(&key);
    let cert_der = certificate_der(&cert);
    let key_der = private_key_der(&key);
    let pfx = match pkcs12(
        cert_der.as_slice(),
        key_der.as_slice(),
        plan.pkcs12_password.as_str(),
        plan.friendly_name.as_str(),
    ) {
        Some(p) => pkcs12_der(&p),
        None => return Err(CertError::Packaging),
    };
    Ok(GeneratedCert {
        cert_pem,
        key_pem,
        pfx,
        subject: Ghost(cert.subject@),
        sans: Ghost(cert.sans@),
        validity: Ghost(cert.window@->Some_0),
    })
}

/// Generates the certificate of a request made at `now` (seconds since the
/// Unix epoch). A refused request fails with its validation error before any
/// key is generated; every other failure comes from an outside stage.
pub fn generate_cert_at(opt: &CertOptions, now: i64) -> (r: Result<GeneratedCert, CertError>)
    ensures
        outcome_at(*opt, now as int, r),
{
    let plan = match plan_certificate(opt, now) {
        Ok(p) => p,
        Err(e) => return Err(CertError::Validation(e)),
    };
    build_certificate(&plan)
}

/// Generates a self-signed certificate, its private key and a PKCS#12 bundle
/// for a request, valid from the current time.
pub fn generate_cert(opt: CertOptions) -> (r: Result<GeneratedCert, CertError>)
    ensures
        opt.cn@.len() == 0 ==> r == Err::<GeneratedCert, CertError>(
            CertError::Validation(crate::request::ValidationError::EmptyCommonName),
        ),
        opt.cn@.len() > 0 && opt.validity_days <= 0 ==> r == Err::<GeneratedCert, CertError>(
            CertError::Validation(crate::request::ValidationError::NonPositiveValidity),
        ),
        exists|now: i64| #[trigger] outcome_at(opt, now as int, r),
{
    let now = unix_time_now();
    let r = generate_cert_at(&opt, now);
    assert(outcome_at(opt, now as int, r));
    r
}

/// Determinism of content: two successful builds of requests with the same
/// fields at the same instant give certificates with the same subject, names
/// and validity; only the key and signature differ with the randomness.
pub proof fn lemma_builds_agree(a: CertOptions, b: CertOptions, now: int, ga: GeneratedCert, gb: GeneratedCert)
    requires
        same_request(a, b),
        outcome_at(a, now, Ok(ga)),
        outcome_at(b, now, Ok(gb)),
    ensures
        ga.subject@ == gb.subject@,
        ga.sans@ == gb.sans@,
        ga.validity@ == gb.validity@,
{
    lemma_plan_deterministic(a, b, now, arbitrary(), arbitrary());
}

} // verus!
