use vstd::prelude::*;
use crate::request::{CertOptions, KeyType};
use crate::san::strings_view;
use crate::text::same_text;

verus! {

pub const DEFAULT_VALIDITY_DAYS: i64 = 365;

/// What `s.to_lowercase()` gives.
pub uninterp spec fn lowercase_of(s: Seq<char>) -> Seq<char>;

/// Relies on `str::to_lowercase`: the result depends on the characters alone.
#[verifier::external_body]
fn lowercase(s: &str) -> (r: String)
    ensures
        r@ == lowercase_of(s@),
{
    s.to_lowercase()
}

/// The key type that a lower-case name selects; unknown names select ECDSA.
pub open spec fn key_type_named(name: Seq<char>) -> KeyType {
    if name == "rsa"@ {
        KeyType::Rsa
    } else if name == "ed25519"@ {
        KeyType::Ed25519
    } else {
        KeyType::Ecdsa
    }
}

/// The key type that a lower-case name selects.
pub fn key_type_from_name(name: &str) -> (r: KeyType)
    ensures
        r == key_type_named(name@),
{
    if same_text(name, "rsa") {
        KeyType::Rsa
    } else if same_text(name, "ed25519") {
        KeyType::Ed25519
    } else {
        KeyType::Ecdsa
    }
}

/// The key type that a name selects, whatever its case ("RSA", "rsa",
/// "Ed25519", ...); unknown names select ECDSA.
pub fn parse_key_type(s: &str) -> (r: KeyType)
    ensures
        r == key_type_named(lowercase_of(s@)),
{
    let lower = lowercase(s);
    key_type_from_name(lower.as_str())
}

/// The fields of a request as far as the caller has them; what is missing
/// takes the defaults.
pub struct RequestDraft {
    pub cn: Option<String>,
    pub sans: Option<Vec<String>>,
    pub days: Option<i64>,
    pub country: Option<String>,
    pub state: Option<String>,
    pub city: Option<String>,
    pub organization: Option<String>,
    pub org_unit: Option<String>,
    pub key_type: Option<KeyType>,
    pub pfx_password: Option<String>,
}

/// The request of a draft: a missing common name is "localhost", missing
/// names are the single name "127.0.0.1", a missing validity is 365 days, a
/// missing key type is ECDSA and a missing passphrase is empty; subject fields
/// stay as they are.
pub open spec fn defaults_applied(d: RequestDraft, o: CertOptions) -> bool {
    &&& o.cn@ == (match d.cn {
        Some(s) => s@,
        None => "localhost"@,
    })
    &&& strings_view(o.sans@) == (match d.sans {
        Some(v) => strings_view(v@),
        None => seq!["127.0.0.1"@],
    })
    &&& o.validity_days == (match d.days {
        Some(n) => n,
        None => DEFAULT_VALIDITY_DAYS,
    })
    &&& o.country == d.country
    &&& o.state == d.state
    &&& o.city == d.city
    &&& o.organization == d.organization
    &&& o.org_unit == d.org_unit
    &&& o.key_type == (match d.key_type {
        Some(k) => k,
        None => KeyType::Ecdsa,
    })
    &&& o.pfx_password@ == (match d.pfx_password {
        Some(s) => s@,
        None => Seq::<char>::empty(),
    })
}

/// Completes a draft with the defaults.
pub fn with_defaults(d: RequestDraft) -> (r: CertOptions)
    ensures
        defaults_applied(d, r),
{
    let cn = match d.cn {
        Some(s) => s,
        None => "localhost".to_string(),
    };
    let sans = match d.sans {
        Some(v) => v,
        None => {
            let mut v: Vec<String> = Vec::new();
            v.push("127.0.0.1".to_string());
            assert(strings_view(v@) =~= seq!["127.0.0.1"@]);
            v
        },
    };
    let validity_days = match d.days {
        Some(n) => n,
        None => DEFAULT_VALIDITY_DAYS,
    };
    let key_type = match d.key_type {
        Some(k) => k,
        None => KeyType::Ecdsa,
    };
    let pfx_password = match d.pfx_password {
        Some(s) => s,
        None => String::new(),
    };
    CertOptions {
        cn,
        sans,
        validity_days,
        country: d.country,
        state: d.state,
        city: d.city,
        organization: d.organization,
        org_unit: d.org_unit,
        key_type,
        pfx_password,
    }
}

/// The characters with the Unicode property White_Space.
pub open spec fn is_white_space(c: char) -> bool {
    ('\u{9}' <= c <= '\u{d}') || c == ' ' || c == '\u{85}' || c == '\u{a0}' || c == '\u{1680}'
        || ('\u{2000}' <= c <= '\u{200a}') || c == '\u{2028}' || c == '\u{2029}'
        || c == '\u{202f}' || c == '\u{205f}' || c == '\u{3000}'
}

/// `s` without its leading white space.
pub open spec fn trim_start_of(s: Seq<char>) -> Seq<char>
    decreases s.len(),
{
    if s.len() > 0 && is_white_space(s[0]) {
        trim_start_of(s.drop_first())
    } else {
        s
    }
}

/// `s` without its trailing white space.
pub open spec fn trim_end_of(s: Seq<char>) -> Seq<char>
    decreases s.len(),
{
    if s.len() > 0 && is_white_space(s.last()) {
        trim_end_of(s.drop_last())
    } else {
        s
    }
}

/// `s` without leading and trailing white space.
pub open spec fn trimmed_of(s: Seq<char>) -> Seq<char> {
    trim_end_of(trim_start_of(s))
}

/// Relies on `str::trim`, which removes leading and trailing characters with
/// the Unicode White_Space property.
#[verifier::external_body]
fn trimmed(s: &str) -> (r: String)
    ensures
        r@ == trimmed_of(s@),
{
    s.trim().to_string()
}

/// The answer to an optional question, trimmed; none when only whitespace
/// was given.
pub fn optional_answer(input: &str) -> (r: Option<String>)
    ensures
        match r {
            Some(s) => s@ == trimmed_of(input@) && s@.len() > 0,
            None => trimmed_of(input@).len() == 0,
        },
{
    let t = trimmed(input);
    if t.as_str().is_empty() {
        None
    } else {
        Some(t)
    }
}

/// The answer to the overwrite question: "y" or "yes" in any case, with white
/// space around it ignored.
pub open spec fn is_yes(input: Seq<char>) -> bool {
    let a = lowercase_of(trimmed_of(input));
    a == "y"@ || a == "yes"@
}

/// Whether an answer to the overwrite question agrees.
pub fn confirms_overwrite(input: &str) -> (r: bool)
    ensures
        r == is_yes(input@),
{
    let t = trimmed(input);
    let a = lowercase(t.as_str());
    same_text(a.as_str(), "y") || same_text(a.as_str(), "yes")
}

/// Pieces of text separated by commas so far, and the piece being read.
pub open spec fn split_state(s: Seq<char>) -> (Seq<Seq<char>>, Seq<char>)
    decreases s.len(),
{
    if s.len() == 0 {
        (Seq::empty(), Seq::empty())
    } else {
        let (done, cur) = split_state(s.drop_last());
        if s.last() == ',' {
            (done.push(cur), Seq::empty())
        } else {
            (done, cur.push(s.last()))
        }
    }
}

/// The pieces of `s` between commas: one more than there are commas.
pub open spec fn comma_pieces(s: Seq<char>) -> Seq<Seq<char>> {
    split_state(s).0.push(split_state(s).1)
}

/// The non-empty entries of `v`, in order.
pub open spec fn nonempty_texts(v: Seq<Seq<char>>) -> Seq<Seq<char>>
    decreases v.len(),
{
    if v.len() == 0 {
        Seq::empty()
    } else if v.last().len() > 0 {
        nonempty_texts(v.drop_last()).push(v.last())
    } else {
        nonempty_texts(v.drop_last())
    }
}

/// Splits text at its commas.
pub fn split_commas(s: &str) -> (r: Vec<String>)
    ensures
        strings_view(r@) == comma_pieces(s@),
{
    let n = s.unicode_len();
    let mut done: Vec<String> = Vec::new();
    let mut start: usize = 0;
    let mut i: usize = 0;
    assert(s@.take(0) =~= Seq::<char>::empty());
    assert(strings_view(done@) =~= Seq::<Seq<char>>::empty());
    while i < n
        invariant
            n == s@.len(),
            start <= i <= n,
            split_state(s@.take(i as int)) == (strings_view(done@), s@.subrange(start as int, i as int)),
        decreases n - i,
    {
        let ghost before = done@;
        assert(s@.take(i as int + 1).drop_last() =~= s@.take(i as int));
        assert(s@.take(i as int + 1).last() == s@[i as int]);
        if s.get_char(i) == ',' {
            let piece = s.substring_char(start, i).to_string();
            done.push(piece);
            assert(strings_view(done@) =~= strings_view(before).push(s@.subrange(start as int, i as int)));
            start = i + 1;
        } else {
            assert(s@.subrange(start as int, i as int + 1) =~= s@.subrange(start as int, i as int).push(s@[i as int]));
        }
        i = i + 1;
        assert(s@.subrange(start as int, i as int) == split_state(s@.take(i as int)).1);
    }
    let ghost before = done@;
    done.push(s.substring_char(start, n).to_string());
    assert(s@.take(n as int) =~= s@);
    assert(strings_view(done@) =~= strings_view(before).push(s@.subrange(start as int, n as int)));
    done
}

/// Keeps the non-empty entries, in order.
pub fn keep_nonempty(v: Vec<String>) -> (r: Vec<String>)
    ensures
        strings_view(r@) == nonempty_texts(strings_view(v@)),
{
    let ghost all = strings_view(v@);
    let mut out: Vec<String> = Vec::new();
    let mut i: usize = 0;
    assert(all.take(0) =~= Seq::<Seq<char>>::empty());
    assert(strings_view(out@) =~= Seq::<Seq<char>>::empty());
    while i < v.len()
        invariant
            all == strings_view(v@),
            i <= v@.len(),
            strings_view(out@) == nonempty_texts(all.take(i as int)),
        decreases v@.len() - i,
    {
        let ghost before = out@;
        assert(all.take(i as int + 1).drop_last() =~= all.take(i as int));
        assert(all.take(i as int + 1).last() == v@[i as int]@);
        if !v[i].as_str().is_empty() {
            out.push(v[i].clone());
            assert(strings_view(out@) =~= strings_view(before).push(v@[i as int]@));
        }
        i = i + 1;
    }
    assert(all.take(i as int) =~= all);
    out
}

/// The names typed as one comma-separated answer: each piece trimmed, empty
/// pieces dropped.
pub fn split_san_input(input: &str) -> (r: Vec<String>)
    ensures
        strings_view(r@) == nonempty_texts(comma_pieces(input@).map_values(|p: Seq<char>| trimmed_of(p))),
{
    let pieces = split_commas(input);
    let ghost all = strings_view(pieces@);
    let mut trimmed_pieces: Vec<String> = Vec::new();
    let mut i: usize = 0;
    while i < pieces.len()
        invariant
            all == strings_view(pieces@),
            i <= pieces@.len(),
            strings_view(trimmed_pieces@) == all.take(i as int).map_values(|p: Seq<char>| trimmed_of(p)),
        decreases pieces@.len() - i,
    {
        let ghost before = trimmed_pieces@;
        trimmed_pieces.push(trimmed(pieces[i].as_str()));
        assert(all.take(i as int + 1).map_values(|p: Seq<char>| trimmed_of(p)) =~= all.take(i as int).map_values(|p: Seq<char>| trimmed_of(p)).push(trimmed_of(all[i as int])));
        assert(strings_view(trimmed_pieces@) =~= strings_view(before).push(trimmed_of(all[i as int])));
        i = i + 1;
    }
    assert(all.take(i as int) =~= all);
    keep_nonempty(trimmed_pieces)
}

} // verus!
