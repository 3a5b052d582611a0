//! The persisted configuration: a TOML document holding the endpoint, the
//! API key and the default target language.
//!
//! The document itself is kept in `toml_edit`'s format-preserving editor,
//! behind trusted items; its top-level string entries are modeled as a
//! `Map<Seq<char>, Seq<char>>`, and everything the tool decides about a
//! configuration is verified against that model.

use vstd::prelude::*;

use crate::directories::{joined_path, join_path, DplDir};
use crate::error::DplError;

verus! {

broadcast use vstd::string::group_string_axioms;

/// The provider's endpoint for the paid service tier.
pub const DEEPL_ENDPOINT_PRO: &'static str = "https://api.deepl.com/v2/translate";

/// The provider's endpoint for the free service tier.
pub const DEEPL_ENDPOINT_FREE: &'static str = "https://api-free.deepl.com/v2/translate";

/// The configuration file's location under the tool's directory.
pub fn config_file_path(dir: &DplDir) -> (r: String)
    ensures
        r@ == joined_path(dir.config_dir@, "dpl.toml"@),
{
    join_path(dir.config_dir.as_str(), "dpl.toml")
}

/// The top-level entries of a configuration document whose values are
/// strings.  What a parse or an update does to a document is stated over
/// this map.
pub uninterp spec fn doc_entries(d: toml_edit::DocumentMut) -> Map<Seq<char>, Seq<char>>;

/// The outcome of parsing a text as a TOML document: `None` where the text
/// is not well-formed TOML, otherwise its top-level string entries.
pub uninterp spec fn toml_entries(s: Seq<char>) -> Option<Map<Seq<char>, Seq<char>>>;

#[verifier::external_type_specification]
#[verifier::external_body]
pub struct ExDocumentMut(toml_edit::DocumentMut);

/// The entries of a document with nothing in it.
pub open spec fn no_entries() -> Map<Seq<char>, Seq<char>> {
    Map::empty()
}

/// Relies on `str::parse::<toml_edit::DocumentMut>` (toml_edit's TOML
/// parser): it succeeds exactly on well-formed TOML text and keeps every
/// top-level entry of that text.
#[verifier::external_body]
fn doc_parse(s: &str) -> (r: Option<toml_edit::DocumentMut>)
    ensures
        r is Some <==> toml_entries(s@) is Some,
        r matches Some(d) ==> Some(doc_entries(d)) == toml_entries(s@),
{
    s.parse::<toml_edit::DocumentMut>().ok()
}

/// Relies on `toml_edit::DocumentMut::new`: an empty document.
#[verifier::external_body]
fn doc_new() -> (r: toml_edit::DocumentMut)
    ensures
        doc_entries(r) == no_entries(),
{
    toml_edit::DocumentMut::new()
}

/// Relies on toml_edit's `IndexMut` on `DocumentMut` together with
/// `toml_edit::value`: sets the top-level entry `key` to the string
/// `value`, replacing any earlier item under that key and leaving every
/// other entry as it was.
#[verifier::external_body]
fn doc_set(d: &mut toml_edit::DocumentMut, key: &str, value: &str)
    ensures
        doc_entries(*final(d)) == doc_entries(*old(d)).insert(key@, value@),
{
    d[key] = toml_edit::value(value);
}

/// Relies on `toml_edit::Table::get` and `toml_edit::Item::as_str`
/// (through `DocumentMut`'s `Deref` to its root table): the string value
/// under a top-level key, where that key holds a string.
#[verifier::external_body]
fn doc_get_str(d: &toml_edit::DocumentMut, key: &str) -> (r: Option<String>)
    ensures
        r is Some <==> doc_entries(*d).contains_key(key@),
        r matches Some(v) ==> doc_entries(*d).contains_key(key@) && v@ == doc_entries(*d)[key@],
{
    d.get(key).and_then(toml_edit::Item::as_str).map(str::to_owned)
}

/// Relies on `toml_edit::DocumentMut`'s `Display`: the document rendered
/// as TOML text; toml_edit's rendering is lossless, so the text parses
/// back to a document with the same entries.
#[verifier::external_body]
fn doc_render(d: &toml_edit::DocumentMut) -> (r: String)
    ensures
        toml_entries(r@) == Some(doc_entries(*d)),
{
    d.to_string()
}

/// What `str::trim` returns for a given string.
pub uninterp spec fn trimmed(s: Seq<char>) -> Seq<char>;

/// Relies on `str::trim`: the string without leading and trailing
/// whitespace, a function of the characters alone.
#[verifier::external_body]
fn trim_str(s: &str) -> (r: String)
    ensures
        r@ == trimmed(s@),
{
    s.trim().to_owned()
}

/// The loaded configuration: all three fields present.
#[derive(Debug, Clone)]
pub struct DplConfig {
    pub endpoint: String,
    pub api_key: String,
    pub default_lang: String,
}

/// The entries of a configuration document after one key is set.
pub open spec fn updated_entries(
    m: Map<Seq<char>, Seq<char>>,
    key: Seq<char>,
    value: Seq<char>,
) -> Map<Seq<char>, Seq<char>> {
    m.insert(key, value)
}

impl DplConfig {
    /// Reads a configuration out of the file's text, handed over as
    /// `None` where the file does not exist.  Fails with `ConfigNotFound`
    /// on a missing file, with `ConfigParseError` on text that is not
    /// well-formed TOML or lacks one of the three required string fields,
    /// and otherwise returns exactly the three field values.
    pub fn load_config(content: Option<&str>) -> (r: Result<DplConfig, DplError>)
        ensures
            match content {
                None => r == Err::<DplConfig, DplError>(DplError::ConfigNotFound),
                Some(s) => match toml_entries(s@) {
                    None => r == Err::<DplConfig, DplError>(DplError::ConfigParseError),
                    Some(m) => {
                        if m.contains_key("endpoint"@) && m.contains_key("api_key"@)
                            && m.contains_key("default_lang"@) {
                            &&& r matches Ok(c)
                            &&& c.endpoint@ == m["endpoint"@]
                            &&& c.api_key@ == m["api_key"@]
                            &&& c.default_lang@ == m["default_lang"@]
                        } else {
                            r == Err::<DplConfig, DplError>(DplError::ConfigParseError)
                        }
                    },
                },
            },
    {
        let s = match content {
            None => {
                return Err(DplError::ConfigNotFound);
            },
            Some(s) => s,
        };
        let doc = match doc_parse(s) {
            None => {
                return Err(DplError::ConfigParseError);
            },
            Some(d) => d,
        };
        let endpoint = match doc_get_str(&doc, "endpoint") {
            None => {
                return Err(DplError::ConfigParseError);
            },
            Some(v) => v,
        };
        let api_key = match doc_get_str(&doc, "api_key") {
            None => {
                return Err(DplError::ConfigParseError);
            },
            Some(v) => v,
        };
        let default_lang = match doc_get_str(&doc, "default_lang") {
            None => {
                return Err(DplError::ConfigParseError);
            },
            Some(v) => v,
        };
        Ok(DplConfig { endpoint, api_key, default_lang })
    }

    /// Sets one key of the configuration document to a string value and
    /// returns the rewritten document text.  A missing file (`None`) is
    /// tolerated and treated as an empty document; existing text that is
    /// not well-formed TOML fails with `ConfigParseError`.  Every other
    /// entry of the document is preserved.
    pub fn update_config(content: Option<&str>, key: &str, value: &str) -> (r: Result<
        String,
        DplError,
    >)
        ensures
            match content {
                None => {
                    &&& r matches Ok(out)
                    &&& toml_entries(out@) == Some(updated_entries(no_entries(), key@, value@))
                },
                Some(s) => match toml_entries(s@) {
                    None => r == Err::<String, DplError>(DplError::ConfigParseError),
                    Some(m) => {
                        &&& r matches Ok(out)
                        &&& toml_entries(out@) == Some(updated_entries(m, key@, value@))
                    },
                },
            },
    {
        let mut doc = match content {
            None => doc_new(),
            Some(s) => match doc_parse(s) {
                None => {
                    return Err(DplError::ConfigParseError);
                },
                Some(d) => d,
            },
        };
        doc_set(&mut doc, key, value);
        Ok(doc_render(&doc))
    }

    /// Builds a configuration out of the interactively collected answers:
    /// the endpoint is taken as it is, the API key and the default
    /// language are trimmed as the prompts hand them over with a trailing
    /// line break.
    pub fn assemble(endpoint: &str, api_key: &str, default_lang: &str) -> (r: DplConfig)
        ensures
            r.endpoint@ == endpoint@,
            r.api_key@ == trimmed(api_key@),
            r.default_lang@ == trimmed(default_lang@),
    {
        DplConfig {
            endpoint: endpoint.to_owned(),
            api_key: trim_str(api_key),
            default_lang: trim_str(default_lang),
        }
    }

    /// Renders a full configuration as a fresh document whose entries are
    /// exactly the three fields.
    pub fn render(&self) -> (r: String)
        ensures
            toml_entries(r@) == Some(
                no_entries().insert("endpoint"@, self.endpoint@).insert(
                    "api_key"@,
                    self.api_key@,
                ).insert("default_lang"@, self.default_lang@),
            ),
    {
        let mut doc = doc_new();
        doc_set(&mut doc, "endpoint", self.endpoint.as_str());
        doc_set(&mut doc, "api_key", self.api_key.as_str());
        doc_set(&mut doc, "default_lang", self.default_lang.as_str());
        doc_render(&doc)
    }
}

/// Whether an answer to the overwrite prompt accepts the overwrite: only
/// a trimmed `y`, in either case, does.
pub fn overwrite_accepted(answer: &str) -> (r: bool)
    ensures
        r == (trimmed(answer@) == "y"@ || trimmed(answer@) == "Y"@),
{
    let t = trim_str(answer);
    let lower: String = "y".to_owned();
    let upper: String = "Y".to_owned();
    t == lower || t == upper
}

/// The endpoint chosen at the service-tier prompt: `pro` or `Pro` picks
/// the paid tier's endpoint, `free` or `Free` the free tier's, and any
/// other answer picks nothing, which makes the whole initialization a
/// silent no-op.
pub fn endpoint_for_choice(choice: &str) -> (r: Option<&'static str>)
    ensures
        (trimmed(choice@) == "pro"@ || trimmed(choice@) == "Pro"@) ==> (r matches Some(e)
            && e@ == DEEPL_ENDPOINT_PRO@),
        (trimmed(choice@) == "free"@ || trimmed(choice@) == "Free"@) ==> (r matches Some(e)
            && e@ == DEEPL_ENDPOINT_FREE@),
        !(trimmed(choice@) == "pro"@ || trimmed(choice@) == "Pro"@ || trimmed(choice@) == "free"@
            || trimmed(choice@) == "Free"@) ==> r is None,
{
    proof {
        reveal_strlit("pro");
        reveal_strlit("Pro");
        reveal_strlit("free");
        reveal_strlit("Free");
        // The lengths tell a paid-tier answer from a free-tier one.
        assert("pro"@.len() == 3 && "Pro"@.len() == 3);
        assert("free"@.len() == 4 && "Free"@.len() == 4);
    }
    let t = trim_str(choice);
    if t == "pro".to_owned() || t == "Pro".to_owned() {
        Some(DEEPL_ENDPOINT_PRO)
    } else if t == "free".to_owned() || t == "Free".to_owned() {
        Some(DEEPL_ENDPOINT_FREE)
    } else {
        None
    }
}

/// Updating a document twice with the same key and value leaves exactly
/// the entries that one update leaves.
pub proof fn lemma_update_idempotent(m: Map<Seq<char>, Seq<char>>, key: Seq<char>, value: Seq<char>)
    ensures
        updated_entries(updated_entries(m, key, value), key, value) == updated_entries(
            m,
            key,
            value,
        ),
{
    assert(updated_entries(updated_entries(m, key, value), key, value) =~= updated_entries(
        m,
        key,
        value,
    ));
}

/// Updating one key neither adds, removes nor changes any other key.
pub proof fn lemma_update_preserves_unrelated(
    m: Map<Seq<char>, Seq<char>>,
    key: Seq<char>,
    value: Seq<char>,
    other: Seq<char>,
)
    requires
        other != key,
    ensures
        updated_entries(m, key, value).contains_key(other) == m.contains_key(other),
        m.contains_key(other) ==> updated_entries(m, key, value)[other] == m[other],
{
}

} // verus!
