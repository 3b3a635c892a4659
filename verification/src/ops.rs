use vstd::prelude::*;
use vstd::string::StringSliceAdditionalSpecFns;

use crate::bytes_util::{contains_sub, dec_digits, lemma_concat_contains, u64_digits};
use crate::jsonval::{jget, json_of, lemma_model_list, model, model_list, parse_json, Json, JsonVal};
use crate::question::{
    lenient_questions, lenient_questions_of, strict_questions, strict_questions_of, Question,
};
use crate::requests::{
    api_url, audit_body, base64_of, generate_body, probe_body, spec_api_url, spec_audit_body,
    spec_generate_body, spec_probe_body,
};
use crate::textops::{clean_text, spec_clean};

verus! {

/// Which of the three operations an error came out of; the operations
/// word a few messages differently.
#[derive(Debug, Clone, Copy, PartialEq, Eq)]
pub enum OpKind {
    Generate,
    Audit,
    Probe,
}

/// Everything that can abort an operation. Nothing is retried: the first
/// failure is returned as it stands.
#[derive(Debug, Clone, PartialEq, Eq)]
pub enum QuizError {
    /// The API key was not in the environment.
    CredentialMissing,
    /// The input path does not exist.
    FileNotFound { path: Vec<u8> },
    /// The input path exists but could not be read.
    FileReadError { detail: Vec<u8> },
    /// The HTTP client could not be built, or the request did not
    /// complete.
    TransportError { during_build: bool, detail: Vec<u8> },
    /// A non-success HTTP status; the body is kept for the generation
    /// and probe paths, and dropped for the audit path.
    ApiError { status: u16, body: Option<Vec<u8>> },
    /// The response was not JSON (`detail` holds the parser's message),
    /// or the expected text field was absent (`detail` is `None`).
    MalformedResponse { detail: Option<Vec<u8>> },
    /// The reply text did not parse as the expected JSON array; `raw`
    /// holds the offending text.
    InvalidGeneratedJson { detail: Vec<u8>, raw: Vec<u8> },
    /// A generated element's `options` field was not an array.
    InvalidOptionsFormat,
}

/// The message each error surfaces as, per operation.
pub open spec fn spec_message(e: QuizError, op: OpKind) -> Seq<u8> {
    match e {
        QuizError::CredentialMissing => match op {
            OpKind::Probe => "GEMINI_API_KEY not set".spec_bytes(),
            _ => "GEMINI_API_KEY not set in environment".spec_bytes(),
        },
        QuizError::FileNotFound { path } => "File not found at: ".spec_bytes() + path@,
        QuizError::FileReadError { detail } => "Failed to read file: ".spec_bytes() + detail@,
        QuizError::TransportError { during_build, detail } => match op {
            OpKind::Generate => if during_build {
                "Failed to build client: ".spec_bytes() + detail@
            } else {
                "Request failed: ".spec_bytes() + detail@
            },
            _ => detail@,
        },
        QuizError::ApiError { status, body } => match op {
            OpKind::Generate => "Gemini API Error: ".spec_bytes() + dec_digits(status as nat)
                + " | Body: ".spec_bytes() + (match body {
                Some(b) => b@,
                None => Seq::empty(),
            }),
            OpKind::Audit => "Audit failed: ".spec_bytes() + dec_digits(status as nat),
            OpKind::Probe => "Test Failed: ".spec_bytes() + dec_digits(status as nat)
                + " | Body: ".spec_bytes() + (match body {
                Some(b) => b@,
                None => Seq::empty(),
            }),
        },
        QuizError::MalformedResponse { detail } => match detail {
            Some(d) => match op {
                OpKind::Generate => "Failed to parse response JSON: ".spec_bytes() + d@,
                _ => d@,
            },
            None => match op {
                OpKind::Generate => "No text in response".spec_bytes(),
                _ => "No text".spec_bytes(),
            },
        },
        QuizError::InvalidGeneratedJson { detail, raw } => match op {
            OpKind::Audit => "Failed to parse audit result: ".spec_bytes() + detail@
                + " | Raw: ".spec_bytes() + raw@,
            _ => "Failed to parse generated JSON content: ".spec_bytes() + detail@
                + " | Raw: ".spec_bytes() + raw@,
        },
        QuizError::InvalidOptionsFormat => "Invalid options format".spec_bytes(),
    }
}

/// Renders the error message, as `spec_message` says.
pub fn error_message(e: &QuizError, op: &OpKind) -> (r: Vec<u8>)
    ensures
        r@ == spec_message(*e, *op),
{
    let mut out: Vec<u8> = Vec::new();
    match e {
        QuizError::CredentialMissing => match op {
            OpKind::Probe => {
                out.extend_from_slice("GEMINI_API_KEY not set".as_bytes());
            },
            _ => {
                out.extend_from_slice("GEMINI_API_KEY not set in environment".as_bytes());
            },
        },
        QuizError::FileNotFound { path } => {
            out.extend_from_slice("File not found at: ".as_bytes());
            out.extend_from_slice(path.as_slice());
        },
        QuizError::FileReadError { detail } => {
            out.extend_from_slice("Failed to read file: ".as_bytes());
            out.extend_from_slice(detail.as_slice());
        },
        QuizError::TransportError { during_build, detail } => match op {
            OpKind::Generate => {
                if *during_build {
                    out.extend_from_slice("Failed to build client: ".as_bytes());
                } else {
                    out.extend_from_slice("Request failed: ".as_bytes());
                }
                out.extend_from_slice(detail.as_slice());
            },
            _ => {
                out.extend_from_slice(detail.as_slice());
                proof {
                    assert(out@ =~= spec_message(*e, *op));
                }
            },
        },
        QuizError::ApiError { status, body } => {
            match op {
                OpKind::Generate => {
                    out.extend_from_slice("Gemini API Error: ".as_bytes());
                },
                OpKind::Audit => {
                    out.extend_from_slice("Audit failed: ".as_bytes());
                },
                OpKind::Probe => {
                    out.extend_from_slice("Test Failed: ".as_bytes());
                },
            }
            let digits = u64_digits(*status as u64);
            out.extend_from_slice(digits.as_slice());
            match op {
                OpKind::Audit => {},
                _ => {
                    out.extend_from_slice(" | Body: ".as_bytes());
                    match body {
                        Some(b) => {
                            out.extend_from_slice(b.as_slice());
                        },
                        None => {},
                    }
                },
            }
            proof {
                assert(out@ =~= spec_message(*e, *op));
            }
        },
        QuizError::MalformedResponse { detail } => match detail {
            Some(d) => match op {
                OpKind::Generate => {
                    out.extend_from_slice("Failed to parse response JSON: ".as_bytes());
                    out.extend_from_slice(d.as_slice());
                },
                _ => {
                    out.extend_from_slice(d.as_slice());
                    proof {
                        assert(out@ =~= spec_message(*e, *op));
                    }
                },
            },
            None => match op {
                OpKind::Generate => {
                    out.extend_from_slice("No text in response".as_bytes());
                },
                _ => {
                    out.extend_from_slice("No text".as_bytes());
                },
            },
        },
        QuizError::InvalidGeneratedJson { detail, raw } => {
            match op {
                OpKind::Audit => {
                    out.extend_from_slice("Failed to parse audit result: ".as_bytes());
                },
                _ => {
                    out.extend_from_slice("Failed to parse generated JSON content: ".as_bytes());
                },
            }
            out.extend_from_slice(detail.as_slice());
            out.extend_from_slice(" | Raw: ".as_bytes());
            out.extend_from_slice(raw.as_slice());
        },
        QuizError::InvalidOptionsFormat => {
            out.extend_from_slice("Invalid options format".as_bytes());
        },
    }
    out
}

/// A non-success status is always named, in decimal, inside the message
/// of the error it raises, whichever operation raised it.
pub proof fn lemma_api_error_message_names_status(status: u16, body: Option<Vec<u8>>, op: OpKind)
    ensures
        contains_sub(
            spec_message(QuizError::ApiError { status, body }, op),
            dec_digits(status as nat),
        ),
{
    let digits = dec_digits(status as nat);
    let m = spec_message(QuizError::ApiError { status, body }, op);
    match op {
        OpKind::Generate => {
            let pre = "Gemini API Error: ".spec_bytes();
            let post = " | Body: ".spec_bytes() + (match body {
                Some(b) => b@,
                None => Seq::<u8>::empty(),
            });
            assert(m =~= pre + digits + post);
            lemma_concat_contains(pre, digits, post);
        },
        OpKind::Audit => {
            let pre = "Audit failed: ".spec_bytes();
            assert(m =~= pre + digits + Seq::<u8>::empty());
            lemma_concat_contains(pre, digits, Seq::empty());
        },
        OpKind::Probe => {
            let pre = "Test Failed: ".spec_bytes();
            let post = " | Body: ".spec_bytes() + (match body {
                Some(b) => b@,
                None => Seq::<u8>::empty(),
            });
            assert(m =~= pre + digits + post);
            lemma_concat_contains(pre, digits, post);
        },
    }
}

// --- path base name ----------------------------------------------------

/// The path without its trailing separators.
pub open spec fn strip_trailing_slashes(p: Seq<u8>) -> Seq<u8>
    decreases p.len(),
{
    if p.len() > 0 && p.last() == 0x2f {
        strip_trailing_slashes(p.drop_last())
    } else {
        p
    }
}

/// The bytes after the last separator.
pub open spec fn tail_component(p: Seq<u8>) -> Seq<u8>
    decreases p.len(),
{
    if p.len() == 0 {
        Seq::empty()
    } else if p.last() == 0x2f {
        Seq::empty()
    } else {
        tail_component(p.drop_last()) + seq![p.last()]
    }
}

/// The base file name of a path: the last component, with trailing
/// separators ignored.
pub open spec fn spec_base_name(p: Seq<u8>) -> Seq<u8> {
    tail_component(strip_trailing_slashes(p))
}

/// Computes the base file name, as `spec_base_name` says.
pub fn base_name(p: &Vec<u8>) -> (r: Vec<u8>)
    ensures
        r@ == spec_base_name(p@),
{
    let mut hi: usize = p.len();
    proof {
        assert(p@.take(p@.len() as int) =~= p@);
    }
    while hi > 0 && p[hi - 1] == 0x2f
        invariant
            0 <= hi <= p@.len(),
            strip_trailing_slashes(p@) == strip_trailing_slashes(p@.take(hi as int)),
        decreases hi,
    {
        proof {
            assert(p@.take(hi as int).drop_last() =~= p@.take(hi - 1));
        }
        hi = hi - 1;
    }
    let ghost t = strip_trailing_slashes(p@);
    proof {
        assert(t == p@.take(hi as int));
    }
    let mut lo: usize = hi;
    proof {
        assert(t.take(hi as int) =~= t);
        assert(p@.subrange(hi as int, hi as int) =~= Seq::<u8>::empty());
        assert(tail_component(t) + Seq::<u8>::empty() =~= tail_component(t));
    }
    while lo > 0 && p[lo - 1] != 0x2f
        invariant
            0 <= lo <= hi <= p@.len(),
            t == strip_trailing_slashes(p@),
            t == p@.take(hi as int),
            tail_component(t) == tail_component(t.take(lo as int)) + p@.subrange(
                lo as int,
                hi as int,
            ),
        decreases lo,
    {
        proof {
            assert(t.take(lo as int).drop_last() =~= t.take(lo - 1));
            assert(t.take(lo as int).last() == p@[lo - 1]);
            let lhs = tail_component(t.take(lo - 1)) + seq![p@[lo - 1]] + p@.subrange(
                lo as int,
                hi as int,
            );
            assert(lhs =~= tail_component(t.take(lo - 1)) + p@.subrange(lo - 1, hi as int));
        }
        lo = lo - 1;
    }
    proof {
        if lo == 0 {
            assert(t.take(0) =~= Seq::<u8>::empty());
        } else {
            assert(t.take(lo as int).last() == p@[lo - 1]);
        }
        assert(tail_component(t) =~= p@.subrange(lo as int, hi as int));
    }
    vstd::slice::slice_to_vec(vstd::slice::slice_subrange(p.as_slice(), lo, hi))
}

// --- the three operations ----------------------------------------------

/// One prepared HTTP request: where to send what, and the per-request
/// timeout (`None` for the client default).
#[derive(Debug, Clone)]
pub struct Prepared {
    pub url: Vec<u8>,
    pub body: Vec<u8>,
    pub timeout_secs: Option<u64>,
}

/// What came of looking for and reading the input file.
#[derive(Debug, Clone)]
pub enum FileOutcome {
    /// The path does not exist.
    Missing,
    /// The path exists but reading failed, with the I/O error's message.
    ReadFailed(Vec<u8>),
    /// The file's bytes.
    Read(Vec<u8>),
}

/// Decides the generation request. The key is checked first — without it
/// the operation fails before any file or network work — then the file
/// outcome; only a read file yields a request to send.
pub fn prepare_generate(file_path: &Vec<u8>, key: Option<&Vec<u8>>, file: &FileOutcome) -> (r:
    Result<Prepared, QuizError>)
    requires
        file matches FileOutcome::Read(b) ==> b@.len() <= 0x1000_0000_0000_0000,
    ensures
        match key {
            None => r matches Err(QuizError::CredentialMissing),
            Some(k) => match file {
                FileOutcome::Missing => r matches Err(QuizError::FileNotFound { path })
                    && path@ == file_path@,
                FileOutcome::ReadFailed(d) => r matches Err(QuizError::FileReadError { detail })
                    && detail@ == d@,
                FileOutcome::Read(bytes) => r matches Ok(p) && p.url@ == spec_api_url(k@)
                    && p.body@ == spec_generate_body(base64_of(bytes@)) && p.timeout_secs
                    == Some(300u64),
            },
        },
{
    let k = match key {
        None => {
            return Err(QuizError::CredentialMissing);
        },
        Some(k) => k,
    };
    match file {
        FileOutcome::Missing => Err(
            QuizError::FileNotFound { path: vstd::slice::slice_to_vec(file_path.as_slice()) },
        ),
        FileOutcome::ReadFailed(d) => Err(
            QuizError::FileReadError { detail: vstd::slice::slice_to_vec(d.as_slice()) },
        ),
        FileOutcome::Read(bytes) => Ok(
            Prepared {
                url: api_url(k),
                body: generate_body(bytes),
                timeout_secs: Some(300),
            },
        ),
    }
}

/// The text field at the response's fixed path
/// `candidates[0].content.parts[0].text`.
pub open spec fn spec_extract_text(doc: Json) -> Option<Seq<u8>> {
    match jget(doc, "candidates".spec_bytes()) {
        Some(Json::Arr(cands)) => if cands.len() > 0 {
            match jget(cands[0], "content".spec_bytes()) {
                Some(content) => match jget(content, "parts".spec_bytes()) {
                    Some(Json::Arr(parts)) => if parts.len() > 0 {
                        match jget(parts[0], "text".spec_bytes()) {
                            Some(Json::Str(s)) => Some(s),
                            _ => None,
                        }
                    } else {
                        None
                    },
                    _ => None,
                },
                _ => None,
            }
        } else {
            None
        },
        _ => None,
    }
}

/// Walks the fixed response path, as `spec_extract_text` says.
pub fn extract_text(v: &JsonVal) -> (r: Option<Vec<u8>>)
    ensures
        match r {
            Some(t) => spec_extract_text(model(*v)) == Some(t@),
            None => spec_extract_text(model(*v)) is None,
        },
{
    let cands = match v.get("candidates".as_bytes()) {
        Some(JsonVal::Arr(a)) => a,
        _ => {
            return None;
        },
    };
    if cands.len() == 0 {
        proof {
            lemma_model_list(cands@);
        }
        return None;
    }
    proof {
        lemma_model_list(cands@);
    }
    let content = match cands[0].get("content".as_bytes()) {
        Some(c) => c,
        None => {
            return None;
        },
    };
    let parts = match content.get("parts".as_bytes()) {
        Some(JsonVal::Arr(a)) => a,
        _ => {
            return None;
        },
    };
    if parts.len() == 0 {
        proof {
            lemma_model_list(parts@);
        }
        return None;
    }
    proof {
        lemma_model_list(parts@);
    }
    match parts[0].get("text".as_bytes()) {
        Some(JsonVal::Str(s)) => Some(vstd::slice::slice_to_vec(s.as_slice())),
        _ => None,
    }
}

/// Turns the generation response into records. A non-success status is
/// an `ApiError` carrying the body; then the body must parse, hold the
/// text field, and the cleaned text must parse as an array whose every
/// element has an array `options` field.
pub fn finish_generate(status: u16, body: &Vec<u8>, source_file: &Vec<u8>) -> (r: Result<
    Vec<Question>,
    QuizError,
>)
    ensures
        !(200 <= status < 300) ==> (r matches Err(QuizError::ApiError { status: s, body: b })
            && s == status && (b matches Some(bb) && bb@ == body@)),
        (200 <= status < 300) ==> match json_of(body@) {
            None => r matches Err(QuizError::MalformedResponse { detail }) && detail is Some,
            Some(doc) => match spec_extract_text(doc) {
                None => r matches Err(QuizError::MalformedResponse { detail }) && detail is None,
                Some(text) => match json_of(spec_clean(text)) {
                    Some(Json::Arr(elems)) => match lenient_questions(elems, source_file@) {
                        Some(qs) => r matches Ok(v) && v.deep_view() == qs,
                        None => r matches Err(QuizError::InvalidOptionsFormat),
                    },
                    _ => r matches Err(QuizError::InvalidGeneratedJson { raw, .. }) && raw@
                        == spec_clean(text),
                },
            },
        },
{
    if !(200 <= status && status < 300) {
        return Err(
            QuizError::ApiError {
                status,
                body: Some(vstd::slice::slice_to_vec(body.as_slice())),
            },
        );
    }
    let doc = match parse_json(body.as_slice()) {
        Ok(d) => d,
        Err(e) => {
            return Err(QuizError::MalformedResponse { detail: Some(e) });
        },
    };
    let text = match extract_text(&doc) {
        Some(t) => t,
        None => {
            return Err(QuizError::MalformedResponse { detail: None });
        },
    };
    let cleaned = clean_text(text.as_slice());
    let arr = match parse_json(cleaned.as_slice()) {
        Ok(JsonVal::Arr(a)) => a,
        Ok(_) => {
            return Err(
                QuizError::InvalidGeneratedJson {
                    detail: vstd::slice::slice_to_vec("expected a JSON array".as_bytes()),
                    raw: cleaned,
                },
            );
        },
        Err(e) => {
            return Err(QuizError::InvalidGeneratedJson { detail: e, raw: cleaned });
        },
    };
    match lenient_questions_of(&arr, source_file) {
        Some(qs) => Ok(qs),
        None => Err(QuizError::InvalidOptionsFormat),
    }
}

/// Decides the audit request: the key is checked first, then the whole
/// list is serialized into the fixed audit prompt.
pub fn prepare_audit(questions: &Vec<Question>, key: Option<&Vec<u8>>) -> (r: Result<
    Prepared,
    QuizError,
>)
    ensures
        match key {
            None => r matches Err(QuizError::CredentialMissing),
            Some(k) => r matches Ok(p) && p.url@ == spec_api_url(k@) && p.body@ == spec_audit_body(
                questions.deep_view(),
            ) && p.timeout_secs is None,
        },
{
    match key {
        None => Err(QuizError::CredentialMissing),
        Some(k) => Ok(
            Prepared { url: api_url(k), body: audit_body(questions), timeout_secs: None },
        ),
    }
}

/// Turns the audit response into records. A non-success status is an
/// `ApiError` without the body; then the text field must parse, with no
/// fence cleanup, as an array of complete records.
pub fn finish_audit(status: u16, body: &Vec<u8>) -> (r: Result<Vec<Question>, QuizError>)
    ensures
        !(200 <= status < 300) ==> (r matches Err(QuizError::ApiError { status: s, body: b })
            && s == status && b is None),
        (200 <= status < 300) ==> match json_of(body@) {
            None => r matches Err(QuizError::MalformedResponse { detail }) && detail is Some,
            Some(doc) => match spec_extract_text(doc) {
                None => r matches Err(QuizError::MalformedResponse { detail }) && detail is None,
                Some(text) => match json_of(text) {
                    Some(Json::Arr(elems)) => match strict_questions(elems) {
                        Some(qs) => r matches Ok(v) && v.deep_view() == qs,
                        None => r matches Err(QuizError::InvalidGeneratedJson { raw, .. }) && raw@
                            == text,
                    },
                    _ => r matches Err(QuizError::InvalidGeneratedJson { raw, .. }) && raw@
                        == text,
                },
            },
        },
{
    if !(200 <= status && status < 300) {
        return Err(QuizError::ApiError { status, body: None });
    }
    let doc = match parse_json(body.as_slice()) {
        Ok(d) => d,
        Err(e) => {
            return Err(QuizError::MalformedResponse { detail: Some(e) });
        },
    };
    let text = match extract_text(&doc) {
        Some(t) => t,
        None => {
            return Err(QuizError::MalformedResponse { detail: None });
        },
    };
    let arr = match parse_json(text.as_slice()) {
        Ok(JsonVal::Arr(a)) => a,
        Ok(_) => {
            return Err(
                QuizError::InvalidGeneratedJson {
                    detail: vstd::slice::slice_to_vec("expected a JSON array".as_bytes()),
                    raw: text,
                },
            );
        },
        Err(e) => {
            return Err(QuizError::InvalidGeneratedJson { detail: e, raw: text });
        },
    };
    match strict_questions_of(&arr) {
        Some(qs) => Ok(qs),
        None => Err(
            QuizError::InvalidGeneratedJson {
                detail: vstd::slice::slice_to_vec("a record field is missing or mistyped".as_bytes()),
                raw: text,
            },
        ),
    }
}

/// Decides the probe request: the key is checked first, then the fixed
/// probe body is sent with a ten-second timeout.
pub fn prepare_probe(key: Option<&Vec<u8>>) -> (r: Result<Prepared, QuizError>)
    ensures
        match key {
            None => r matches Err(QuizError::CredentialMissing),
            Some(k) => r matches Ok(p) && p.url@ == spec_api_url(k@) && p.body@
                == spec_probe_body() && p.timeout_secs == Some(10u64),
        },
{
    match key {
        None => Err(QuizError::CredentialMissing),
        Some(k) => Ok(Prepared { url: api_url(k), body: probe_body(), timeout_secs: Some(10) }),
    }
}

/// Turns the probe response into the reply text. A non-success status is
/// an `ApiError` carrying the body; an unparseable body fails; a missing
/// text field degrades to the fixed placeholder.
pub fn finish_probe(status: u16, body: &Vec<u8>) -> (r: Result<Vec<u8>, QuizError>)
    ensures
        !(200 <= status < 300) ==> (r matches Err(QuizError::ApiError { status: s, body: b })
            && s == status && (b matches Some(bb) && bb@ == body@)),
        (200 <= status < 300) ==> match json_of(body@) {
            None => r matches Err(QuizError::MalformedResponse { detail }) && detail is Some,
            Some(doc) => match spec_extract_text(doc) {
                Some(text) => r matches Ok(t) && t@ == text,
                None => r matches Ok(t) && t@ == "No text".spec_bytes(),
            },
        },
{
    if !(200 <= status && status < 300) {
        return Err(
            QuizError::ApiError {
                status,
                body: Some(vstd::slice::slice_to_vec(body.as_slice())),
            },
        );
    }
    let doc = match parse_json(body.as_slice()) {
        Ok(d) => d,
        Err(e) => {
            return Err(QuizError::MalformedResponse { detail: Some(e) });
        },
    };
    match extract_text(&doc) {
        Some(t) => Ok(t),
        None => Ok(vstd::slice::slice_to_vec("No text".as_bytes())),
    }
}

} // verus!
