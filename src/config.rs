use vstd::prelude::*;
use crate::options::{key_type_named, lowercase_of, parse_key_type, RequestDraft};
use crate::request::KeyType;

verus! {

/// Settings read from a configuration file; every field is optional.
pub struct Config {
    pub cn: Option<String>,
    pub sans: Option<Vec<String>>,
    pub days: Option<i64>,
    pub output: Option<String>,
    pub name: Option<String>,
    pub pfx_password: Option<String>,
    pub country: Option<String>,
    pub state: Option<String>,
    pub city: Option<String>,
    pub org: Option<String>,
    pub org_unit: Option<String>,
    pub key_type: Option<String>,
}

/// `first` when it is there, else `second`.
pub open spec fn prefer<T>(first: Option<T>, second: Option<T>) -> Option<T> {
    match first {
        Some(v) => Some(v),
        None => second,
    }
}

fn or_else<T>(first: Option<T>, second: Option<T>) -> (r: Option<T>)
    ensures
        r == prefer(first, second),
{
    match first {
        Some(v) => Some(v),
        None => second,
    }
}

impl Config {
    /// Completes a draft with the settings of the file: what the draft
    /// already has takes precedence.
    pub fn fill_draft(self, d: RequestDraft) -> (r: RequestDraft)
        ensures
            r.cn == prefer(d.cn, self.cn),
            r.sans == prefer(d.sans, self.sans),
            r.days == prefer(d.days, self.days),
            r.pfx_password == prefer(d.pfx_password, self.pfx_password),
            r.country == prefer(d.country, self.country),
            r.state == prefer(d.state, self.state),
            r.city == prefer(d.city, self.city),
            r.organization == prefer(d.organization, self.org),
            r.org_unit == prefer(d.org_unit, self.org_unit),
            r.key_type == prefer(
                d.key_type,
                match self.key_type {
                    Some(s) => Some(key_type_named(lowercase_of(s@))),
                    None => None::<KeyType>,
                },
            ),
    {
        let key_type = match d.key_type {
            Some(k) => Some(k),
            None => match self.key_type {
                Some(s) => Some(parse_key_type(s.as_str())),
                None => None,
            },
        };
        RequestDraft {
            cn: or_else(d.cn, self.cn),
            sans: or_else(d.sans, self.sans),
            days: or_else(d.days, self.days),
            country: or_else(d.country, self.country),
            state: or_else(d.state, self.state),
            city: or_else(d.city, self.city),
            organization: or_else(d.organization, self.org),
            org_unit: or_else(d.org_unit, self.org_unit),
            key_type,
            pfx_password: or_else(d.pfx_password, self.pfx_password),
        }
    }
}

/// Base name of the output files: the one given on the command line, else the
/// configured one, else "server".
pub fn output_file_name(given: Option<String>, configured: Option<String>) -> (r: String)
    ensures
        r@ == (match prefer(given, configured) {
            Some(s) => s@,
            None => "server"@,
        }),
{
    match or_else(given, configured) {
        Some(s) => s,
        None => "server".to_string(),
    }
}

} // verus!
