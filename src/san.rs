use vstd::prelude::*;
use crate::request::ValidationError;

verus! {

/// An IP address as its octets in network order.
#[derive(Debug, Clone, Copy, PartialEq, Eq)]
pub enum IpAddress {
    V4([u8; 4]),
    V6([u8; 16]),
}

impl IpAddress {
    pub open spec fn octets(self) -> Seq<u8> {
        match self {
            IpAddress::V4(a) => a@,
            IpAddress::V6(a) => a@,
        }
    }
}

/// One subject alternative name.
#[derive(Debug, Clone, PartialEq, Eq)]
pub enum SubjectAltName {
    IpAddress(IpAddress),
    DnsName(String),
}

/// What a subject alternative name stands for.
pub enum SanKind {
    Ip(Seq<u8>),
    Dns(Seq<char>),
}

pub open spec fn san_view(s: SubjectAltName) -> SanKind {
    match s {
        SubjectAltName::IpAddress(ip) => SanKind::Ip(ip.octets()),
        SubjectAltName::DnsName(n) => SanKind::Dns(n@),
    }
}

pub open spec fn sans_view(v: Seq<SubjectAltName>) -> Seq<SanKind> {
    v.map_values(|s: SubjectAltName| san_view(s))
}

/// The octets of the IPv4 or IPv6 address that `s` spells, if it spells one.
pub uninterp spec fn ip_literal_octets(s: Seq<char>) -> Option<Seq<u8>>;

/// Every character is in the IA5 (ASCII) repertoire.
pub open spec fn is_ia5(s: Seq<char>) -> bool {
    vstd::utf8::is_ascii_chars(s)
}

/// Classification of one entry: an IP literal is an IP name; any other IA5
/// text is a DNS name; anything else has no encoding.
pub open spec fn classify_spec(s: Seq<char>) -> Option<SanKind> {
    match ip_literal_octets(s) {
        Some(o) => Some(SanKind::Ip(o)),
        None => if is_ia5(s) {
            Some(SanKind::Dns(s))
        } else {
            None
        },
    }
}

/// A subject alternative name that rcgen can encode: DNS names are IA5 text.
pub open spec fn san_encodable(s: SubjectAltName) -> bool {
    match s {
        SubjectAltName::IpAddress(_) => true,
        SubjectAltName::DnsName(n) => is_ia5(n@),
    }
}

/// Classification of a whole list, in order; on failure, the index of the
/// first entry that has no classification.
pub open spec fn classify_all(sans: Seq<Seq<char>>) -> Result<Seq<SanKind>, int>
    decreases sans.len(),
{
    if sans.len() == 0 {
        Ok(Seq::empty())
    } else {
        match classify_all(sans.drop_last()) {
            Err(i) => Err(i),
            Ok(kinds) => match classify_spec(sans.last()) {
                Some(k) => Ok(kinds.push(k)),
                None => Err(sans.len() - 1),
            },
        }
    }
}

/// Relies on `FromStr` for `core::net::IpAddr`: it accepts exactly the IPv4
/// and IPv6 address literals, and the result depends on the text alone.
#[verifier::external_body]
fn parse_ip_literal(s: &str) -> (r: Option<IpAddress>)
    ensures
        match r {
            Some(ip) => ip_literal_octets(s@) == Some(ip.octets()),
            None => ip_literal_octets(s@) is None,
        },
{
    match s.parse::<core::net::IpAddr>() {
        Ok(core::net::IpAddr::V4(a)) => Some(IpAddress::V4(a.octets())),
        Ok(core::net::IpAddr::V6(a)) => Some(IpAddress::V6(a.octets())),
        Err(_) => None,
    }
}

/// Classifies one subject alternative name: an IP literal becomes an IP
/// address name, other ASCII text a DNS name; other text is refused.
pub fn classify_san(s: &str) -> (r: Option<SubjectAltName>)
    ensures
        match r {
            Some(san) => classify_spec(s@) == Some(san_view(san)) && san_encodable(san),
            None => classify_spec(s@) is None,
        },
{
    match parse_ip_literal(s) {
        Some(ip) => Some(SubjectAltName::IpAddress(ip)),
        None => {
            if s.is_ascii() {
                Some(SubjectAltName::DnsName(s.to_string()))
            } else {
                None
            }
        },
    }
}

pub open spec fn strings_view(v: Seq<String>) -> Seq<Seq<char>> {
    v.map_values(|s: String| s@)
}

proof fn lemma_classify_all_extends(sans: Seq<Seq<char>>, k: int)
    requires
        0 <= k <= sans.len(),
        classify_all(sans.take(k)) is Err,
    ensures
        classify_all(sans) == classify_all(sans.take(k)),
    decreases sans.len() - k,
{
    if k < sans.len() {
        let next = sans.take(k + 1);
        assert(next.drop_last() =~= sans.take(k));
        lemma_classify_all_extends(sans, k + 1);
    } else {
        assert(sans.take(k) =~= sans);
    }
}

/// Classifies every subject alternative name of a request, keeping their
/// order; fails with the index of the first entry that has no encoding.
pub fn classify_sans(sans: &Vec<String>) -> (r: Result<Vec<SubjectAltName>, ValidationError>)
    ensures
        match classify_all(strings_view(sans@)) {
            Ok(kinds) => r is Ok && sans_view(r->Ok_0@) == kinds
                && forall|i: int| 0 <= i < r->Ok_0@.len() ==> san_encodable(#[trigger] r->Ok_0@[i]),
            Err(i) => r == Err::<Vec<SubjectAltName>, ValidationError>(ValidationError::InvalidSan(i as usize)),
        },
{
    let ghost all = strings_view(sans@);
    let mut out: Vec<SubjectAltName> = Vec::new();
    let mut i: usize = 0;
    assert(all.take(0) =~= Seq::<Seq<char>>::empty());
    assert(sans_view(out@) =~= Seq::<SanKind>::empty());
    while i < sans.len()
        invariant
            i <= sans@.len(),
            all == strings_view(sans@),
            classify_all(all.take(i as int)) == Ok::<Seq<SanKind>, int>(sans_view(out@)),
            forall|j: int| 0 <= j < out@.len() ==> san_encodable(#[trigger] out@[j]),
        decreases sans@.len() - i,
    {
        let ghost prefix = all.take(i as int + 1);
        assert(prefix.drop_last() =~= all.take(i as int));
        assert(prefix.last() == sans@[i as int]@);
        match classify_san(sans[i].as_str()) {
            Some(san) => {
                let ghost before = out@;
                out.push(san);
                assert(sans_view(out@) =~= sans_view(before).push(san_view(san)));
                i = i + 1;
            },
            None => {
                proof {
                    assert(classify_all(prefix) == Err::<Seq<SanKind>, int>(i as int));
                    lemma_classify_all_extends(all, i as int + 1);
                }
                return Err(ValidationError::InvalidSan(i));
            },
        }
    }
    assert(all.take(i as int) =~= all);
    Ok(out)
}

} // verus!
