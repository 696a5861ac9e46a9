use vstd::prelude::*;

use crate::decode::json_parse_error;
use crate::decode::json_wellformed;
use crate::decode::text_to_json;
use crate::decode::utf8_decode_error;
use crate::decode::utf8_to_text;
use crate::info::Info;

verus! {

/// Everything that can go wrong while serving one evaluation request, each
/// variant carrying a description of the underlying failure.
#[derive(Debug)]
pub enum PipelineError {
    /// The request body is not valid UTF-8.
    BodyNotUtf8(String),
    /// The decoded body is not a well-formed JSON document.
    ContextNotJson(String),
    /// The rule reference names no loadable artifact under the store root.
    ArtifactNotFound(String),
    /// The artifact was found but its content is not a usable decision graph.
    ArtifactInvalid(String),
    /// The evaluator rejected the context or failed internally.
    EvaluationFailed(String),
}

/// The rule reference used when a request names none.
pub open spec fn default_rule_name() -> Seq<char> {
    "test_rule.json"@
}

/// The rule reference a request is served with: the one it names, or the
/// default when it names none.
pub open spec fn spec_effective_rule(rule: Option<Seq<char>>) -> Seq<char> {
    match rule {
        Some(name) => name,
        None => default_rule_name(),
    }
}

/// Picks the rule reference for a request.
pub fn effective_rule(rule: Option<String>) -> (r: String)
    ensures
        r@ == spec_effective_rule(rule.deep_view()),
{
    match rule {
        Some(name) => name,
        None => "test_rule.json".to_owned(),
    }
}

/// Omitting the rule reference behaves exactly as naming the default
/// reference explicitly.
pub proof fn lemma_omitted_rule_is_default()
    ensures
        spec_effective_rule(None) == spec_effective_rule(Some("test_rule.json"@)),
{
}

/// Whether the pipeline accepts a request body: it must decode as UTF-8 and
/// the decoded text must be a well-formed JSON document.
pub open spec fn accepted(body: Seq<u8>) -> bool {
    vstd::utf8::valid_utf8(body) && json_wellformed(vstd::utf8::decode_utf8(body))
}

/// A request that passed every check the pipeline itself owns: the rule
/// reference to resolve and the context document to evaluate against it.
#[derive(Debug)]
pub struct Prepared {
    pub rule: String,
    pub context: serde_json::Value,
}

/// What `prepare` promises of its result for a given request pair.
pub open spec fn prepare_post(
    body: Seq<u8>,
    rule: Option<Seq<char>>,
    r: Result<Prepared, PipelineError>,
) -> bool {
    &&& (r is Ok <==> accepted(body))
    &&& (r matches Ok(p) ==> p.rule@ == spec_effective_rule(rule))
    &&& (!vstd::utf8::valid_utf8(body) ==> (r matches Err(PipelineError::BodyNotUtf8(m)) && m@
        == utf8_decode_error(body)))
    &&& (vstd::utf8::valid_utf8(body) && !json_wellformed(vstd::utf8::decode_utf8(body)) ==> (
    r matches Err(PipelineError::ContextNotJson(m)) && Some(m@) == json_parse_error(
        vstd::utf8::decode_utf8(body),
    )))
}

/// The front half of the pipeline: decodes the body as UTF-8, parses it as a
/// JSON context document, and picks the effective rule reference. Succeeds
/// exactly on accepted bodies; a rejected body is classified as a decode or
/// a parse failure, carrying exactly the decoder's or parser's description.
pub fn prepare(body: Vec<u8>, rule: Option<String>) -> (r: Result<Prepared, PipelineError>)
    ensures
        prepare_post(body@, rule.deep_view(), r),
{
    let text = match utf8_to_text(body) {
        Ok(text) => text,
        Err(description) => {
            return Err(PipelineError::BodyNotUtf8(description));
        },
    };
    let context = match text_to_json(text.as_str()) {
        Ok(value) => value,
        Err(description) => {
            return Err(PipelineError::ContextNotJson(description));
        },
    };
    let rule_name = effective_rule(rule);
    Ok(Prepared { rule: rule_name, context })
}

/// The status code each failure is answered with: the caller's fault for a
/// bad body or an unknown rule reference, the server's for a bad artifact or
/// an evaluator failure.
pub open spec fn spec_error_status(e: PipelineError) -> u16 {
    match e {
        PipelineError::BodyNotUtf8(_) => 400u16,
        PipelineError::ContextNotJson(_) => 400u16,
        PipelineError::ArtifactNotFound(_) => 404u16,
        PipelineError::ArtifactInvalid(_) => 500u16,
        PipelineError::EvaluationFailed(_) => 500u16,
    }
}

/// Reads the status code a failure is answered with.
pub fn error_status(e: &PipelineError) -> (s: u16)
    ensures
        s == spec_error_status(*e),
{
    match e {
        PipelineError::BodyNotUtf8(_) => 400,
        PipelineError::ContextNotJson(_) => 400,
        PipelineError::ArtifactNotFound(_) => 404,
        PipelineError::ArtifactInvalid(_) => 500,
        PipelineError::EvaluationFailed(_) => 500,
    }
}

/// The description a failure carries.
pub open spec fn spec_error_description(e: PipelineError) -> Seq<char> {
    match e {
        PipelineError::BodyNotUtf8(m) => m@,
        PipelineError::ContextNotJson(m) => m@,
        PipelineError::ArtifactNotFound(m) => m@,
        PipelineError::ArtifactInvalid(m) => m@,
        PipelineError::EvaluationFailed(m) => m@,
    }
}

/// Takes the description out of a failure.
pub fn error_description(e: PipelineError) -> (m: String)
    ensures
        m@ == spec_error_description(e),
{
    match e {
        PipelineError::BodyNotUtf8(m) => m,
        PipelineError::ContextNotJson(m) => m,
        PipelineError::ArtifactNotFound(m) => m,
        PipelineError::ArtifactInvalid(m) => m,
        PipelineError::EvaluationFailed(m) => m,
    }
}

/// What an evaluation request is answered with: the evaluator's own result,
/// forwarded verbatim, or an info record describing the failure.
#[derive(Debug)]
pub enum ResponseBody {
    Result(serde_json::Value),
    Note(Info),
}

/// A shaped response: the status code and the body to send.
#[derive(Debug)]
pub struct Response {
    pub status: u16,
    pub body: ResponseBody,
}

/// The back half of the pipeline: turns the outcome of an evaluation into
/// the response. A successful result is forwarded exactly as the evaluator
/// produced it, with status 200; a failure becomes an info record carrying
/// the failure's description, with the status `spec_error_status` assigns.
pub fn shape(outcome: Result<serde_json::Value, PipelineError>) -> (r: Response)
    ensures
        outcome matches Ok(v) ==> r.status == 200 && r.body == ResponseBody::Result(v),
        outcome matches Err(e) ==> (r.status == spec_error_status(e) && (
        r.body matches ResponseBody::Note(i) && i.message@ == spec_error_description(e))),
{
    match outcome {
        Ok(value) => Response { status: 200, body: ResponseBody::Result(value) },
        Err(e) => {
            let status = error_status(&e);
            let message = error_description(e);
            Response { status, body: ResponseBody::Note(Info { message }) }
        },
    }
}

/// Two attempts at the same body whose rule references agree after
/// defaulting are answered identically as far as the pipeline decides: both
/// are accepted or both rejected, an accepted pair is served with the same
/// rule reference, and a rejected pair is answered with the same status and
/// the same description, hence the same response body.
pub proof fn lemma_same_request_same_answer(
    body: Seq<u8>,
    rule1: Option<Seq<char>>,
    rule2: Option<Seq<char>>,
    r1: Result<Prepared, PipelineError>,
    r2: Result<Prepared, PipelineError>,
)
    requires
        spec_effective_rule(rule1) == spec_effective_rule(rule2),
        prepare_post(body, rule1, r1),
        prepare_post(body, rule2, r2),
    ensures
        r1 is Ok <==> r2 is Ok,
        r1 is Ok && r2 is Ok ==> r1->Ok_0.rule@ == r2->Ok_0.rule@,
        r1 is Err && r2 is Err ==> spec_error_status(r1->Err_0) == spec_error_status(r2->Err_0)
            && spec_error_description(r1->Err_0) == spec_error_description(r2->Err_0),
{
    match (r1, r2) {
        (Ok(p1), Ok(p2)) => {
            assert(p1.rule@ == spec_effective_rule(rule1));
            assert(p2.rule@ == spec_effective_rule(rule2));
        },
        (Err(e1), Err(e2)) => {
            if !vstd::utf8::valid_utf8(body) {
                assert(e1 is BodyNotUtf8);
                assert(e2 is BodyNotUtf8);
                assert(spec_error_description(e1) == utf8_decode_error(body));
                assert(spec_error_description(e2) == utf8_decode_error(body));
            } else {
                assert(!json_wellformed(vstd::utf8::decode_utf8(body)));
                assert(e1 is ContextNotJson);
                assert(e2 is ContextNotJson);
                assert(Some(spec_error_description(e1)) == json_parse_error(
                    vstd::utf8::decode_utf8(body),
                ));
                assert(Some(spec_error_description(e2)) == json_parse_error(
                    vstd::utf8::decode_utf8(body),
                ));
            }
        },
        _ => {
        },
    }
}

/// Serving the same request pair twice gives the same answer both times:
/// the same verdict, the same rule reference on success, and the same status
/// and description on failure. (What the evaluator then makes of an accepted
/// pair is its own affair; this library forwards it verbatim either way.)
pub proof fn lemma_repeat_same_verdict(
    body: Seq<u8>,
    rule: Option<Seq<char>>,
    r1: Result<Prepared, PipelineError>,
    r2: Result<Prepared, PipelineError>,
)
    requires
        prepare_post(body, rule, r1),
        prepare_post(body, rule, r2),
    ensures
        r1 is Ok <==> r2 is Ok,
        r1 is Ok && r2 is Ok ==> r1->Ok_0.rule@ == r2->Ok_0.rule@,
        r1 is Err && r2 is Err ==> spec_error_status(r1->Err_0) == spec_error_status(r2->Err_0)
            && spec_error_description(r1->Err_0) == spec_error_description(r2->Err_0),
{
    lemma_same_request_same_answer(body, rule, rule, r1, r2);
}

/// A request that omits the rule reference is answered exactly as one that
/// names the default reference: the same verdict, the same rule reference on
/// success, and the same status and description on failure.
pub proof fn lemma_omitted_rule_observational(
    body: Seq<u8>,
    r1: Result<Prepared, PipelineError>,
    r2: Result<Prepared, PipelineError>,
)
    requires
        prepare_post(body, None, r1),
        prepare_post(body, Some(default_rule_name()), r2),
    ensures
        r1 is Ok <==> r2 is Ok,
        r1 is Ok && r2 is Ok ==> r1->Ok_0.rule@ == r2->Ok_0.rule@,
        r1 is Err && r2 is Err ==> spec_error_status(r1->Err_0) == spec_error_status(r2->Err_0)
            && spec_error_description(r1->Err_0) == spec_error_description(r2->Err_0),
{
    lemma_same_request_same_answer(body, None, Some(default_rule_name()), r1, r2);
}

} // verus!
