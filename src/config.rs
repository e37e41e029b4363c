use vstd::prelude::*;
use vstd::string::*;
use crate::error::AppError;
use crate::text::{has_prefix, is_blank, starts_with, trim, trim_end, trim_start, trimmed};

verus! {

#[verifier::external_type_specification]
#[verifier::external_body]
pub struct ExIni(ini::Ini);

#[verifier::external_type_specification]
#[verifier::external_body]
pub struct ExProperties(ini::Properties);

/// The named sections of a parsed ini document: for each section name, the
/// value that a lookup of each key returns.
pub uninterp spec fn ini_model(i: ini::Ini) -> Map<Seq<char>, Map<Seq<char>, Seq<char>>>;

/// The value that a lookup of each key in one section returns.
pub uninterp spec fn properties_model(p: ini::Properties) -> Map<Seq<char>, Seq<char>>;

/// The named sections that parsing `text` yields, or `None` where it is not valid ini.
pub uninterp spec fn ini_parse(text: Seq<char>) -> Option<Map<Seq<char>, Map<Seq<char>, Seq<char>>>>;

/// Relies on `ini::Ini::load_from_str`: parsing depends on the text alone.
#[verifier::external_body]
fn load_ini(text: &str) -> (r: Result<ini::Ini, String>)
    ensures
        r is Ok <==> ini_parse(text@) is Some,
        r is Ok ==> ini_parse(text@) == Some(ini_model(r->Ok_0)),
{
    ini::Ini::load_from_str(text).map_err(|e| e.to_string())
}

/// Relies on `ini::Ini::section`: looks up a named section.
#[verifier::external_body]
fn ini_section<'a>(i: &'a ini::Ini, name: &str) -> (r: Option<&'a ini::Properties>)
    ensures
        r is Some <==> ini_model(*i).contains_key(name@),
        r is Some ==> properties_model(*r->Some_0) == ini_model(*i)[name@],
{
    i.section(Some(name))
}

/// Relies on `ini::Properties::get`: looks up the value of a key.
#[verifier::external_body]
fn property<'a>(p: &'a ini::Properties, key: &str) -> (r: Option<&'a str>)
    ensures
        r is Some <==> properties_model(*p).contains_key(key@),
        r is Some ==> r->Some_0@ == properties_model(*p)[key@],
{
    p.get(key)
}

/// The validated settings of one run.
#[derive(Debug)]
pub struct Config {
    pub api_key: String,
    pub system_prompt: Option<String>,
}

/// The section that holds the credentials.
pub const SECTION_NAME: &'static str = "Gemini";
/// The key that holds the API token.
pub const API_KEY_NAME: &'static str = "ApiKey";
/// The key that holds the optional system prompt.
pub const SYSTEM_PROMPT_NAME: &'static str = "SystemPrompt";
/// Every accepted API token starts with this.
pub const API_KEY_PREFIX: &'static str = "sk-or-v1-";

pub open spec fn section_name() -> Seq<char> {
    SECTION_NAME@
}

pub open spec fn api_key_name() -> Seq<char> {
    API_KEY_NAME@
}

pub open spec fn system_prompt_name() -> Seq<char> {
    SYSTEM_PROMPT_NAME@
}

pub open spec fn api_key_prefix() -> Seq<char> {
    API_KEY_PREFIX@
}

/// The abstract content of a configuration: the token and the optional prompt.
pub type ConfigView = (Seq<char>, Option<Seq<char>>);

impl Config {
    pub open spec fn view(&self) -> ConfigView {
        (
            self.api_key@,
            match self.system_prompt {
                Some(p) => Some(p@),
                None => None,
            },
        )
    }
}

/// The accepted token for a raw value, if any: the trimmed value, where it
/// carries the required prefix.
pub open spec fn api_key_of(raw: Seq<char>) -> Option<Seq<char>> {
    if has_prefix(trimmed(raw), api_key_prefix()) {
        Some(trimmed(raw))
    } else {
        None
    }
}

/// The system prompt for an optional raw value: trimmed, and absent where blank.
pub open spec fn prompt_of(raw: Option<Seq<char>>) -> Option<Seq<char>> {
    match raw {
        Some(s) => if is_blank(s) {
            None
        } else {
            Some(trimmed(s))
        },
        None => None,
    }
}

/// The configuration that the named sections of a document give, or `None`
/// where they give none.
pub open spec fn config_of(sections: Map<Seq<char>, Map<Seq<char>, Seq<char>>>) -> Option<
    ConfigView,
> {
    if !sections.contains_key(section_name()) {
        None
    } else {
        let sec = sections[section_name()];
        if !sec.contains_key(api_key_name()) {
            None
        } else {
            match api_key_of(sec[api_key_name()]) {
                None => None,
                Some(k) => Some(
                    (
                        k,
                        prompt_of(
                            if sec.contains_key(system_prompt_name()) {
                                Some(sec[system_prompt_name()])
                            } else {
                                None
                            },
                        ),
                    ),
                ),
            }
        }
    }
}

/// Checks a raw API token: trims it and requires the provider prefix.
pub fn validate_api_key(raw: &str) -> (r: Result<String, AppError>)
    ensures
        match r {
            Ok(k) => api_key_of(raw@) == Some(k@),
            Err(e) => api_key_of(raw@) is None && e is Config,
        },
{
    let key = trim(raw);
    proof {
        reveal_strlit("sk-or-v1-");
        assert(api_key_prefix().len() > 0);
    }
    if key.as_str().unicode_len() == 0 || !starts_with(key.as_str(), API_KEY_PREFIX) {
        return Err(
            AppError::Config(
                String::from_str(
                    "Invalid 'ApiKey' format in [Gemini] section. Must start with 'sk-or-v1-'.",
                ),
            ),
        );
    }
    Ok(key)
}

/// Normalises an optional system prompt: trimmed, and absent where blank.
pub fn normalize_prompt(raw: Option<&str>) -> (r: Option<String>)
    ensures
        prompt_of(
            match raw {
                Some(s) => Some(s@),
                None => None,
            },
        ) == match r {
            Some(p) => Some(p@),
            None => None,
        },
{
    match raw {
        None => None,
        Some(s) => {
            let t = trim(s);
            if t.as_str().unicode_len() == 0 {
                None
            } else {
                Some(t)
            }
        },
    }
}

/// Extracts and validates the configuration from a parsed document.
pub fn config_from_ini(doc: &ini::Ini) -> (r: Result<Config, AppError>)
    ensures
        match r {
            Ok(c) => config_of(ini_model(*doc)) == Some(c.view()),
            Err(e) => config_of(ini_model(*doc)) is None && e is Config,
        },
{
    let section = match ini_section(doc, SECTION_NAME) {
        Some(s) => s,
        None => {
            return Err(
                AppError::Config(String::from_str("Missing [Gemini] section in config.ini")),
            );
        },
    };
    let raw_key = match property(section, API_KEY_NAME) {
        Some(k) => k,
        None => {
            return Err(
                AppError::Config(String::from_str("Missing 'ApiKey' in [Gemini] section")),
            );
        },
    };
    let api_key = validate_api_key(raw_key)?;
    let system_prompt = normalize_prompt(property(section, SYSTEM_PROMPT_NAME));
    Ok(Config { api_key, system_prompt })
}

/// The byte-order mark that may open a UTF-8 file.
pub const BYTE_ORDER_MARK: char = '\u{feff}';

/// The text of a file without its leading byte-order mark, if it has one.
pub open spec fn without_bom(text: Seq<char>) -> Seq<char> {
    if text.len() > 0 && text[0] == BYTE_ORDER_MARK {
        text.drop_first()
    } else {
        text
    }
}

/// Drops a leading byte-order mark.
pub fn strip_bom(text: &str) -> (r: &str)
    ensures
        r@ == without_bom(text@),
{
    let n = text.unicode_len();
    if n > 0 && text.get_char(0) == BYTE_ORDER_MARK {
        text.substring_char(1, n)
    } else {
        text
    }
}

/// Parses the text of a configuration file, after any byte-order mark, and
/// extracts the configuration.
pub fn parse_config(text: &str) -> (r: Result<Config, AppError>)
    ensures
        match r {
            Ok(c) => ini_parse(without_bom(text@)) is Some && config_of(
                ini_parse(without_bom(text@))->Some_0,
            ) == Some(c.view()),
            Err(e) => e is Config && (ini_parse(without_bom(text@)) is Some ==> config_of(
                ini_parse(without_bom(text@))->Some_0,
            ) is None),
        },
{
    match load_ini(strip_bom(text)) {
        Ok(doc) => config_from_ini(&doc),
        Err(detail) => Err(
            AppError::Config(
                crate::error::join_message("Failed to load config file: ", detail.as_str()),
            ),
        ),
    }
}

/// The error for a configuration file that does not exist.
pub fn missing_file_error(path: &str) -> (r: AppError)
    ensures
        r is Config,
        r->Config_0@ == "Config file not found at "@ + path@,
{
    AppError::Config(crate::error::join_message("Config file not found at ", path))
}

/// A document without the credentials section, or whose section lacks the
/// API key, gives no configuration.
pub proof fn missing_key_is_rejected(sections: Map<Seq<char>, Map<Seq<char>, Seq<char>>>)
    requires
        !sections.contains_key(section_name()) || !sections[section_name()].contains_key(
            api_key_name(),
        ),
    ensures
        config_of(sections) is None,
{
}

/// A raw token is rejected unless, once trimmed, it starts with the provider
/// prefix; an accepted token is kept trimmed and otherwise verbatim.
pub proof fn api_key_prefix_decides(raw: Seq<char>)
    ensures
        api_key_of(raw) is Some <==> has_prefix(trimmed(raw), api_key_prefix()),
        api_key_of(raw) is Some ==> api_key_of(raw)->Some_0 == trimmed(raw),
        raw.len() == 0 ==> api_key_of(raw) is None,
{
    if raw.len() == 0 {
        reveal_strlit("sk-or-v1-");
        assert(trim_start(raw) == raw);
        assert(trim_end(raw) == raw);
    }
}

/// A blank system prompt gives the same configuration as no prompt at all.
pub proof fn blank_prompt_is_absent(
    sections: Map<Seq<char>, Map<Seq<char>, Seq<char>>>,
    prompt: Seq<char>,
)
    requires
        sections.contains_key(section_name()),
        is_blank(prompt),
    ensures
        config_of(
            sections.insert(
                section_name(),
                sections[section_name()].insert(system_prompt_name(), prompt),
            ),
        ) == config_of(
            sections.insert(
                section_name(),
                sections[section_name()].remove(system_prompt_name()),
            ),
        ),
        config_of(
            sections.insert(
                section_name(),
                sections[section_name()].insert(system_prompt_name(), prompt),
            ),
        ) matches Some(c) ==> c.1 is None,
{
    reveal_strlit("ApiKey");
    reveal_strlit("SystemPrompt");
    assert(api_key_name().len() == 6);
    assert(system_prompt_name().len() == 12);
    assert(api_key_name() != system_prompt_name());
}

} // verus!
