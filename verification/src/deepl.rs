//! One translation exchange: the request the tool sends and the response
//! it reads.
//!
//! The request — authorization header and form-encoded body — is built by
//! verified code with an exact byte-level contract.  The response body is
//! JSON; `serde_json` decodes it behind a trusted item, and everything the
//! tool decides about the decoded translations is verified.

use vstd::prelude::*;
use vstd::string::StringExecFns;
use vstd::string::StringSliceAdditionalSpecFns;

use crate::error::DplError;

verus! {

/// The fixed prefix of the authorization header's value.
pub const AUTH_PREFIX: &'static str = "DeepL-Auth-Key ";

/// The content type of the request body.
pub const FORM_CONTENT_TYPE: &'static str = "application/x-www-form-urlencoded";

/// Whether a byte passes through form encoding unchanged: the ASCII
/// letters and digits, and `- . _ *`.
pub open spec fn is_form_unreserved(b: u8) -> bool {
    (97 <= b && b <= 122) || (65 <= b && b <= 90) || (48 <= b && b <= 57) || b == 45 || b == 46
        || b == 95 || b == 42
}

/// The upper-case hexadecimal digit, as an ASCII byte, for a value below
/// sixteen.
pub open spec fn hex_upper(v: u8) -> u8 {
    if v < 10 {
        (48 + v) as u8  // '0' to '9'
    } else {
        (55 + v) as u8  // 'A' to 'F'
    }
}

/// One byte of a form-encoded body: unreserved bytes stand as they are, a
/// space becomes `+` and every other byte becomes a percent escape.
pub open spec fn form_encoded_byte(b: u8) -> Seq<u8> {
    if is_form_unreserved(b) {
        seq![b]
    } else if b == 32 {  // space
        seq![43u8]  // '+'
    } else {
        seq![37u8, hex_upper(b / 16), hex_upper(b % 16)]  // '%', then two digits
    }
}

/// A byte string form-encoded byte by byte.
pub open spec fn form_encoded(s: Seq<u8>) -> Seq<u8>
    decreases s.len(),
{
    if s.len() == 0 {
        Seq::empty()
    } else {
        form_encoded_byte(s[0]) + form_encoded(s.drop_first())
    }
}

/// The body's first field name with its separator: the bytes of `text=`.
pub open spec fn text_field_prefix() -> Seq<u8> {
    seq![116u8, 101u8, 120u8, 116u8, 61u8]
}

/// The body's second field name with the joining `&` and its separator:
/// the bytes of `&target_lang=`.
pub open spec fn lang_field_prefix() -> Seq<u8> {
    seq![38u8, 116u8, 97u8, 114u8, 103u8, 101u8, 116u8, 95u8, 108u8, 97u8, 110u8, 103u8, 61u8]
}

/// The full form-encoded body: exactly the two fields `text` and
/// `target_lang`, in that order.
pub open spec fn form_body_spec(text: Seq<u8>, lang: Seq<u8>) -> Seq<u8> {
    text_field_prefix() + form_encoded(text) + lang_field_prefix() + form_encoded(lang)
}

/// Encoding one byte more extends the encoding at its end.
proof fn lemma_form_encoded_push(s: Seq<u8>, b: u8)
    ensures
        form_encoded(s.push(b)) == form_encoded(s) + form_encoded_byte(b),
    decreases s.len(),
{
    if s.len() == 0 {
        assert(s.push(b)[0] == b);
        assert(s.push(b).drop_first() =~= Seq::<u8>::empty());
        assert(form_encoded(s.push(b)) == form_encoded_byte(b) + form_encoded(
            Seq::<u8>::empty(),
        ));
        assert(form_encoded(s.push(b)) =~= form_encoded(s) + form_encoded_byte(b));
    } else {
        assert(s.push(b)[0] == s[0]);
        assert(s.push(b).drop_first() =~= s.drop_first().push(b));
        lemma_form_encoded_push(s.drop_first(), b);
        assert(form_encoded(s.push(b)) == form_encoded_byte(s[0]) + (form_encoded(s.drop_first())
            + form_encoded_byte(b)));
        assert(form_encoded(s.push(b)) =~= form_encoded(s) + form_encoded_byte(b));
    }
}

/// Appends the form encoding of one byte.
fn push_encoded_byte(out: &mut Vec<u8>, b: u8)
    ensures
        final(out)@ == old(out)@ + form_encoded_byte(b),
{
    if (97 <= b && b <= 122) || (65 <= b && b <= 90) || (48 <= b && b <= 57) || b == 45 || b == 46
        || b == 95 || b == 42 {
        out.push(b);
        assert(final(out)@ =~= old(out)@ + form_encoded_byte(b));
    } else if b == 32 {
        out.push(43);
        assert(final(out)@ =~= old(out)@ + form_encoded_byte(b));
    } else {
        let hi: u8 = b / 16;
        let lo: u8 = b % 16;
        out.push(37);
        out.push(if hi < 10 { 48 + hi } else { 55 + hi });
        out.push(if lo < 10 { 48 + lo } else { 55 + lo });
        assert(final(out)@ =~= old(out)@ + form_encoded_byte(b));
    }
}

/// Form-encodes a byte string.
pub fn form_encode(s: &[u8]) -> (r: Vec<u8>)
    ensures
        r@ == form_encoded(s@),
{
    let mut out: Vec<u8> = Vec::new();
    let mut i: usize = 0;
    while i < s.len()
        invariant
            i <= s.len(),
            out@ == form_encoded(s@.take(i as int)),
        decreases s.len() - i,
    {
        push_encoded_byte(&mut out, s[i]);
        proof {
            lemma_form_encoded_push(s@.take(i as int), s@[i as int]);
            assert(s@.take(i as int + 1) =~= s@.take(i as int).push(s@[i as int]));
        }
        i = i + 1;
    }
    proof {
        assert(s@.take(s@.len() as int) =~= s@);
    }
    out
}

/// The form-encoded request body carrying exactly the two fields `text`
/// and `target_lang` with the given values.
pub fn form_body(text: &str, lang: &str) -> (r: Vec<u8>)
    ensures
        r@ == form_body_spec(text.spec_bytes(), lang.spec_bytes()),
{
    let mut out: Vec<u8> = Vec::new();
    // The bytes of "text=".
    out.push(116);
    out.push(101);
    out.push(120);
    out.push(116);
    out.push(61);
    assert(out@ =~= text_field_prefix());
    let mut enc_text = form_encode(text.as_bytes());
    out.append(&mut enc_text);
    // The bytes of "&target_lang=".
    out.push(38);
    out.push(116);
    out.push(97);
    out.push(114);
    out.push(103);
    out.push(101);
    out.push(116);
    out.push(95);
    out.push(108);
    out.push(97);
    out.push(110);
    out.push(103);
    out.push(61);
    assert(out@ =~= text_field_prefix() + form_encoded(text.spec_bytes()) + lang_field_prefix());
    let mut enc_lang = form_encode(lang.as_bytes());
    out.append(&mut enc_lang);
    proof {
        assert(out@ =~= form_body_spec(text.spec_bytes(), lang.spec_bytes()));
    }
    out
}

/// Everything that goes out on the wire for one translation: where to
/// send it, the authorization header's value, and the body's bytes.
pub struct TranslationRequest {
    pub endpoint: String,
    pub auth_header: String,
    pub body: Vec<u8>,
}

/// Builds the request for one translation: the body holds exactly the
/// `text` and `target_lang` fields, and the authorization header is the
/// fixed prefix followed by the API key.
pub fn build_request(endpoint: &str, api_key: &str, text: &str, lang: &str) -> (r:
    TranslationRequest)
    ensures
        r.endpoint@ == endpoint@,
        r.auth_header@ == "DeepL-Auth-Key "@ + api_key@,
        r.body@ == form_body_spec(text.spec_bytes(), lang.spec_bytes()),
{
    let mut auth = "DeepL-Auth-Key ".to_owned();
    auth.append(api_key);
    TranslationRequest {
        endpoint: endpoint.to_owned(),
        auth_header: auth,
        body: form_body(text, lang),
    }
}

/// What the provider answered: the first translation of the response.
pub struct TranslationResult {
    pub translated_text: String,
    pub detected_source_lang: String,
}

/// The outcome of decoding a response body: `None` where the body is not
/// a JSON object carrying a `translations` array of objects with string
/// fields `text` and `detected_source_language`; otherwise that array as
/// the sequence of those two fields.
pub uninterp spec fn translations_of(s: Seq<char>) -> Option<Seq<(Seq<char>, Seq<char>)>>;

/// Relies on `serde_json::from_str::<serde_json::Value>`, `Value::get`,
/// `Value::as_array` and `Value::as_str`: decodes the expected response
/// shape, a function of the body text alone.
#[verifier::external_body]
fn decode_translations(body: &str) -> (r: Option<Vec<(String, String)>>)
    ensures
        r is Some <==> translations_of(body@) is Some,
        r matches Some(v) ==> Some(v.deep_view()) == translations_of(body@),
{
    let parsed: serde_json::Value = serde_json::from_str(body).ok()?;
    let list = parsed.get("translations")?.as_array()?;
    let mut out: Vec<(String, String)> = Vec::with_capacity(list.len());
    for entry in list {
        let text = entry.get("text")?.as_str()?;
        let detected = entry.get("detected_source_language")?.as_str()?;
        out.push((text.to_owned(), detected.to_owned()));
    }
    Some(out)
}

/// Reads a response body.  A body that does not decode to the expected
/// shape fails with `DecodeError`; a decoded body with no translations
/// fails with `EmptyResult`; otherwise the first translation is returned.
pub fn parse_response(body: &str) -> (r: Result<TranslationResult, DplError>)
    ensures
        match translations_of(body@) {
            None => r == Err::<TranslationResult, DplError>(DplError::DecodeError),
            Some(ts) => {
                if ts.len() == 0 {
                    r == Err::<TranslationResult, DplError>(DplError::EmptyResult)
                } else {
                    &&& r matches Ok(t)
                    &&& t.translated_text@ == ts[0].0
                    &&& t.detected_source_lang@ == ts[0].1
                }
            },
        },
{
    let mut list = match decode_translations(body) {
        None => {
            return Err(DplError::DecodeError);
        },
        Some(l) => l,
    };
    if list.len() == 0 {
        return Err(DplError::EmptyResult);
    }
    let first = list.remove(0);
    proof {
        assert(translations_of(body@)->Some_0[0] == (first.0@, first.1@));
    }
    Ok(TranslationResult { translated_text: first.0, detected_source_lang: first.1 })
}

} // verus!
