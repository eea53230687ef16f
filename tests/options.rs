use suresign::config::{output_file_name, Config};
use suresign::options::{
    confirms_overwrite, keep_nonempty, optional_answer, split_commas, split_san_input, RequestDraft,
};
use suresign::request::KeyType;

fn blank_config() -> Config {
    Config {
        cn: None,
        sans: None,
        days: None,
        output: None,
        name: None,
        pfx_password: None,
        country: None,
        state: None,
        city: None,
        org: None,
        org_unit: None,
        key_type: None,
    }
}

fn blank_draft() -> RequestDraft {
    RequestDraft {
        cn: None,
        sans: None,
        days: None,
        country: None,
        state: None,
        city: None,
        organization: None,
        org_unit: None,
        key_type: None,
        pfx_password: None,
    }
}

#[test]
fn commas_split_text_into_pieces() {
    assert_eq!(split_commas("a,b"), vec!["a", "b"]);
    assert_eq!(split_commas(""), vec![""]);
    assert_eq!(split_commas(",x,"), vec!["", "x", ""]);
}

#[test]
fn san_answer_is_trimmed_and_empty_pieces_dropped() {
    assert_eq!(
        split_san_input(" 192.168.1.1 , dns.local,, "),
        vec!["192.168.1.1".to_string(), "dns.local".to_string()]
    );
    assert!(split_san_input("  ").is_empty());
}

#[test]
fn empty_entries_are_dropped() {
    let v = vec!["a".to_string(), String::new(), "b".to_string()];
    assert_eq!(keep_nonempty(v), vec!["a", "b"]);
}

#[test]
fn optional_answers() {
    assert_eq!(optional_answer("  Tokyo \n"), Some("Tokyo".to_string()));
    assert_eq!(optional_answer("   "), None);
    assert_eq!(optional_answer("\u{3000}Dev\u{a0}"), Some("Dev".to_string()));
    assert_eq!(optional_answer(""), None);
}

#[test]
fn overwrite_answers() {
    assert!(confirms_overwrite("y"));
    assert!(confirms_overwrite(" YES\n"));
    assert!(confirms_overwrite("Yes"));
    assert!(!confirms_overwrite(""));
    assert!(!confirms_overwrite("no"));
    assert!(!confirms_overwrite("yess"));
}

#[test]
fn command_line_wins_over_config() {
    let mut c = blank_config();
    c.cn = Some("from-config".to_string());
    c.days = Some(10);
    c.org = Some("Org".to_string());
    c.key_type = Some("Ed25519".to_string());
    let mut d = blank_draft();
    d.cn = Some("from-cli".to_string());
    let r = c.fill_draft(d);
    assert_eq!(r.cn, Some("from-cli".to_string()));
    assert_eq!(r.days, Some(10));
    assert_eq!(r.organization, Some("Org".to_string()));
    assert_eq!(r.key_type, Some(KeyType::Ed25519));
    assert_eq!(r.sans, None);
}

#[test]
fn draft_key_type_wins_over_config() {
    let mut c = blank_config();
    c.key_type = Some("rsa".to_string());
    let mut d = blank_draft();
    d.key_type = Some(KeyType::Ecdsa);
    assert_eq!(c.fill_draft(d).key_type, Some(KeyType::Ecdsa));
}

#[test]
fn output_name_precedence() {
    assert_eq!(output_file_name(Some("a".to_string()), Some("b".to_string())), "a");
    assert_eq!(output_file_name(None, Some("b".to_string())), "b");
    assert_eq!(output_file_name(None, None), "server");
}
