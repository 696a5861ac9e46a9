use vstd::prelude::*;

verus! {

/// Verus-visible declaration of serde_json's JSON value type. The pipeline
/// carries such values through untouched; it never inspects their shape.
#[verifier::external_type_specification]
#[verifier::external_body]
pub struct ExValue(serde_json::Value);

/// The debug description of the error String::from_utf8 reports for a byte
/// sequence that is not valid UTF-8. The error holds only the rejected bytes
/// and the position and length of the offence, so the description is a
/// function of the bytes alone.
pub uninterp spec fn utf8_decode_error(bytes: Seq<u8>) -> Seq<char>;

/// The debug description of the parse error serde_json reports for a text,
/// or nothing when the text is a well-formed JSON document. Acceptance and
/// error alike are functions of the text alone.
pub uninterp spec fn json_parse_error(text: Seq<char>) -> Option<Seq<char>>;

/// Whether serde_json accepts the text as a single JSON document.
pub open spec fn json_wellformed(text: Seq<char>) -> bool {
    json_parse_error(text) is None
}

/// Relies on String::from_utf8: it returns Ok exactly when the bytes are
/// valid UTF-8, and the string then holds the decoded characters. On failure
/// the error's debug description, a function of the bytes alone, is handed
/// back instead.
#[verifier::external_body]
pub(crate) fn utf8_to_text(bytes: Vec<u8>) -> (r: Result<String, String>)
    ensures
        r is Ok <==> vstd::utf8::valid_utf8(bytes@),
        r matches Ok(text) ==> text@ == vstd::utf8::decode_utf8(bytes@),
        r matches Err(description) ==> description@ == utf8_decode_error(bytes@),
{
    match String::from_utf8(bytes) {
        Ok(text) => Ok(text),
        Err(e) => Err(format!("{:?}", e)),
    }
}

/// Relies on serde_json::from_str with serde_json::Value as the target: it
/// returns Ok exactly when the text is a well-formed JSON document. On
/// failure the parse error's debug description, a function of the text
/// alone, is handed back instead.
#[verifier::external_body]
pub(crate) fn text_to_json(text: &str) -> (r: Result<serde_json::Value, String>)
    ensures
        r is Ok <==> json_wellformed(text@),
        r matches Err(description) ==> Some(description@) == json_parse_error(text@),
{
    match serde_json::from_str::<serde_json::Value>(text) {
        Ok(value) => Ok(value),
        Err(e) => Err(format!("{:?}", e)),
    }
}

} // verus!
