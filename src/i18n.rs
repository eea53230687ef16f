use vstd::prelude::*;
use crate::text::same_text;

verus! {

/// Language of the user-facing messages.
#[derive(Debug, Clone, Copy, PartialEq, Eq, Structural)]
pub enum Lang {
    En,
    Ja,
}

/// A locale tag such as "ja-JP" names Japanese.
pub open spec fn is_japanese_locale(locale: Seq<char>) -> bool {
    locale.len() >= 2 && locale[0] == 'j' && locale[1] == 'a'
}

impl Lang {
    /// The message language for a locale tag: Japanese for tags that start
    /// with "ja", English otherwise.
    pub fn from_locale(locale: &str) -> (r: Lang)
        ensures
            r == (if is_japanese_locale(locale@) { Lang::Ja } else { Lang::En }),
    {
        if locale.unicode_len() >= 2 && locale.get_char(0) == 'j' && locale.get_char(1) == 'a' {
            Lang::Ja
        } else {
            Lang::En
        }
    }
}

pub open spec fn pairs_view(v: Seq<(String, String)>) -> Seq<(Seq<char>, Seq<char>)> {
    v.map_values(|p: (String, String)| (p.0@, p.1@))
}

pub open spec fn keys_view(v: Seq<(Seq<char>, Seq<char>)>) -> Seq<Seq<char>> {
    v.map_values(|p: (Seq<char>, Seq<char>)| p.0)
}

/// The translation of `key` in `table`: the first entry with that key.
pub open spec fn lookup(table: Seq<(Seq<char>, Seq<char>)>, key: Seq<char>) -> Option<Seq<char>>
    decreases table.len(),
{
    if table.len() == 0 {
        None
    } else if table[0].0 == key {
        Some(table[0].1)
    } else {
        lookup(table.drop_first(), key)
    }
}

/// The keys of the messages that the program shows, in the order of the
/// built-in tables.
pub open spec fn message_keys() -> Seq<Seq<char>> {
    seq![
        "welcome"@,
        "saved_to"@,
        "error"@,
        "interactive_mode"@,
        "enter_cn"@,
        "enter_san"@,
        "enter_days"@,
        "generating"@,
        "success"@,
        "cmdlist_header"@,
        "enter_country"@,
        "enter_state"@,
        "enter_city"@,
        "enter_org"@,
        "enter_org_unit"@,
        "select_key_type"@,
        "enter_pfx_password"@,
        "files_exist_warning"@,
        "overwrite_prompt"@,
        "aborted"@,
    ]
}

fn put(table: &mut Vec<(String, String)>, key: &str, text: &str)
    ensures
        pairs_view(final(table)@) == pairs_view(old(table)@).push((key@, text@)),
{
    table.push((key.to_string(), text.to_string()));
    assert(pairs_view(final(table)@) =~= pairs_view(old(table)@).push((key@, text@)));
}

/// The built-in English table: each message key with its text.
pub open spec fn english_messages() -> Seq<(Seq<char>, Seq<char>)> {
    seq![
        ("welcome"@, "Welcome to SureSign - Self-Signed Certificate Generator"@),
        ("saved_to"@, "Certificate saved to:"@),
        ("error"@, "Error:"@),
        ("interactive_mode"@, "Entering interactive mode..."@),
        ("enter_cn"@, "Common Name (CN) e.g., myserver.local:"@),
        ("enter_san"@, "Subject Alternative Names (SANs) - comma separated (e.g., 192.168.1.1, dns.local):"@),
        ("enter_days"@, "Validity days:"@),
        ("generating"@, "Generating certificate..."@),
        ("success"@, "Success!"@),
        ("cmdlist_header"@, "Available Commands & Presets:"@),
        ("enter_country"@, "Country Name (2 letter code):"@),
        ("enter_state"@, "State or Province Name (full name):"@),
        ("enter_city"@, "Locality Name (eg, city):"@),
        ("enter_org"@, "Organization Name (eg, company):"@),
        ("enter_org_unit"@, "Organizational Unit Name (eg, section):"@),
        ("select_key_type"@, "Select Key Type:"@),
        ("enter_pfx_password"@, "PFX Password (leave empty for no password):"@),
        ("files_exist_warning"@, "Warning: The following files already exist:"@),
        ("overwrite_prompt"@, "Overwrite? (y/N):"@),
        ("aborted"@, "Aborted."@),
    ]
}

/// The built-in English messages.
pub fn embedded_en() -> (r: Vec<(String, String)>)
    ensures
        pairs_view(r@) == english_messages(),
        keys_view(pairs_view(r@)) == message_keys(),
{
    let mut m: Vec<(String, String)> = Vec::new();
    put(&mut m, "welcome", "Welcome to SureSign - Self-Signed Certificate Generator");
    put(&mut m, "saved_to", "Certificate saved to:");
    put(&mut m, "error", "Error:");
    put(&mut m, "interactive_mode", "Entering interactive mode...");
    put(&mut m, "enter_cn", "Common Name (CN) e.g., myserver.local:");
    put(&mut m, "enter_san", "Subject Alternative Names (SANs) - comma separated (e.g., 192.168.1.1, dns.local):");
    put(&mut m, "enter_days", "Validity days:");
    put(&mut m, "generating", "Generating certificate...");
    put(&mut m, "success", "Success!");
    put(&mut m, "cmdlist_header", "Available Commands & Presets:");
    put(&mut m, "enter_country", "Country Name (2 letter code):");
    put(&mut m, "enter_state", "State or Province Name (full name):");
    put(&mut m, "enter_city", "Locality Name (eg, city):");
    put(&mut m, "enter_org", "Organization Name (eg, company):");
    put(&mut m, "enter_org_unit", "Organizational Unit Name (eg, section):");
    put(&mut m, "select_key_type", "Select Key Type:");
    put(&mut m, "enter_pfx_password", "PFX Password (leave empty for no password):");
    put(&mut m, "files_exist_warning", "Warning: The following files already exist:");
    put(&mut m, "overwrite_prompt", "Overwrite? (y/N):");
    put(&mut m, "aborted", "Aborted.");
    assert(pairs_view(m@) =~= english_messages());
    assert(keys_view(pairs_view(m@)) =~= message_keys());
    m
}

/// The built-in Japanese table: each message key with its text.
pub open spec fn japanese_messages() -> Seq<(Seq<char>, Seq<char>)> {
    seq![
        ("welcome"@, "SureSignへようこそ - 自己署名証明書発行ツール"@),
        ("saved_to"@, "保存先:"@),
        ("error"@, "エラー:"@),
        ("interactive_mode"@, "対話モードを開始します..."@),
        ("enter_cn"@, "コモンネーム (CN) 例: myserver.local:"@),
        ("enter_san"@, "サブジェクト代替名 (SANs) - カンマ区切り (例: 192.168.1.1, dns.local):"@),
        ("enter_days"@, "有効期限 (日数):"@),
        ("generating"@, "証明書を生成中..."@),
        ("success"@, "成功！"@),
        ("cmdlist_header"@, "利用可能なコマンドとプリセット:"@),
        ("enter_country"@, "国名 (2文字コード):"@),
        ("enter_state"@, "都道府県名:"@),
        ("enter_city"@, "市区町村名:"@),
        ("enter_org"@, "組織名 (会社名など):"@),
        ("enter_org_unit"@, "部署名:"@),
        ("select_key_type"@, "鍵の種類を選択:"@),
        ("enter_pfx_password"@, "PFXパスワード (空でパスワードなし):"@),
        ("files_exist_warning"@, "警告: 以下のファイルが既に存在します:"@),
        ("overwrite_prompt"@, "上書きしますか? (y/N):"@),
        ("aborted"@, "中断しました。"@),
    ]
}

/// The built-in Japanese messages.
pub fn embedded_ja() -> (r: Vec<(String, String)>)
    ensures
        pairs_view(r@) == japanese_messages(),
        keys_view(pairs_view(r@)) == message_keys(),
{
    let mut m: Vec<(String, String)> = Vec::new();
    put(&mut m, "welcome", "SureSignへようこそ - 自己署名証明書発行ツール");
    put(&mut m, "saved_to", "保存先:");
    put(&mut m, "error", "エラー:");
    put(&mut m, "interactive_mode", "対話モードを開始します...");
    put(&mut m, "enter_cn", "コモンネーム (CN) 例: myserver.local:");
    put(&mut m, "enter_san", "サブジェクト代替名 (SANs) - カンマ区切り (例: 192.168.1.1, dns.local):");
    put(&mut m, "enter_days", "有効期限 (日数):");
    put(&mut m, "generating", "証明書を生成中...");
    put(&mut m, "success", "成功！");
    put(&mut m, "cmdlist_header", "利用可能なコマンドとプリセット:");
    put(&mut m, "enter_country", "国名 (2文字コード):");
    put(&mut m, "enter_state", "都道府県名:");
    put(&mut m, "enter_city", "市区町村名:");
    put(&mut m, "enter_org", "組織名 (会社名など):");
    put(&mut m, "enter_org_unit", "部署名:");
    put(&mut m, "select_key_type", "鍵の種類を選択:");
    put(&mut m, "enter_pfx_password", "PFXパスワード (空でパスワードなし):");
    put(&mut m, "files_exist_warning", "警告: 以下のファイルが既に存在します:");
    put(&mut m, "overwrite_prompt", "上書きしますか? (y/N):");
    put(&mut m, "aborted", "中断しました。");
    assert(pairs_view(m@) =~= japanese_messages());
    assert(keys_view(pairs_view(m@)) =~= message_keys());
    m
}

/// Message lookup for one language, loaded once and passed to whoever shows
/// messages. The table is a list of (key, text) pairs; where a key occurs more
/// than once, its first entry is the one used.
pub struct Text {
    pub lang: Lang,
    pub translations: Vec<(String, String)>,
}

impl Text {
    /// The table of translations, in order.
    pub open spec fn table(&self) -> Seq<(Seq<char>, Seq<char>)> {
        pairs_view(self.translations@)
    }

    /// The message shown for `key`: its translation, or the key itself when
    /// the table has none.
    pub open spec fn message(&self, key: Seq<char>) -> Seq<char> {
        match lookup(self.table(), key) {
            Some(m) => m,
            None => key,
        }
    }

    /// The messages of `lang`: those loaded from a translation file when there
    /// are any, else the built-in table of the language.
    pub fn new(lang: Lang, loaded: Option<Vec<(String, String)>>) -> (r: Text)
        ensures
            r.lang == lang,
            r.table() == match loaded {
                Some(v) => pairs_view(v@),
                None => match lang {
                    Lang::En => english_messages(),
                    Lang::Ja => japanese_messages(),
                },
            },
            loaded is None ==> keys_view(r.table()) == message_keys(),
    {
        let translations = match loaded {
            Some(v) => v,
            None => match lang {
                Lang::En => embedded_en(),
                Lang::Ja => embedded_ja(),
            },
        };
        Text { lang, translations }
    }

    /// The message for `key`, falling back to the key itself.
    pub fn get(&self, key: &str) -> (r: String)
        ensures
            r@ == self.message(key@),
    {
        let ghost table = self.table();
        let mut i: usize = 0;
        assert(table.skip(0) =~= table);
        while i < self.translations.len()
            invariant
                table == pairs_view(self.translations@),
                i <= self.translations@.len(),
                lookup(table, key@) == lookup(table.skip(i as int), key@),
            decreases self.translations@.len() - i,
        {
            let ghost rest = table.skip(i as int);
            assert(rest[0] == (self.translations@[i as int].0@, self.translations@[i as int].1@));
            if same_text(self.translations[i].0.as_str(), key) {
                return self.translations[i].1.clone();
            }
            assert(rest.drop_first() =~= table.skip(i as int + 1));
            i = i + 1;
        }
        assert(table.skip(i as int).len() == 0);
        key.to_string()
    }
}

/// The message for `key` in `text`.
pub fn t(text: &Text, key: &str) -> (r: String)
    ensures
        r@ == text.message(key@),
{
    text.get(key)
}

} // verus!
