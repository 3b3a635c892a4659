use vstd::prelude::*;
use vstd::string::StringSliceAdditionalSpecFns;

use crate::question::{qs_json, Question};
use crate::textops::esc_bytes;

verus! {

/// The generation-endpoint URL, with the API key as query parameter.
pub open spec fn spec_api_url(key: Seq<u8>) -> Seq<u8> {
    "https://generativelanguage.googleapis.com/v1beta/models/gemini-2.0-flash:generateContent?key=".spec_bytes()
        + key
}

/// Builds the endpoint URL for `key`.
pub fn api_url(key: &Vec<u8>) -> (r: Vec<u8>)
    ensures
        r@ == spec_api_url(key@),
{
    let mut out: Vec<u8> = vstd::slice::slice_to_vec(
        "https://generativelanguage.googleapis.com/v1beta/models/gemini-2.0-flash:generateContent?key=".as_bytes(),
    );
    out.extend_from_slice(key.as_slice());
    out
}

/// What the standard base64 engine (padding included) produces for `b`.
pub uninterp spec fn base64_of(b: Seq<u8>) -> Seq<u8>;

/// Relies on `base64::engine::general_purpose::STANDARD.encode`:
/// standard alphabet with `=` padding, four output bytes for every
/// started group of three input bytes. The length bound keeps the
/// engine's internal output-size computation from overflowing.
#[verifier::external_body]
fn encode_base64(b: &[u8]) -> (r: Vec<u8>)
    requires
        b@.len() <= 0x1000_0000_0000_0000,
    ensures
        r@ == base64_of(b@),
        r@.len() == 4 * ((b@.len() + 2) / 3),
{
    base64::Engine::encode(&base64::engine::general_purpose::STANDARD, b).into_bytes()
}

/// The fixed instruction prompt of the generation request.
pub open spec fn spec_generate_prompt() -> Seq<u8> {
    "\n    あなたは社会福祉士・精神保健福祉士国家試験のカリスマ講師です。\n    提供されたPDF資料を徹底的に分析し、本番試験レベルの5択クイズを可能な限り多く作成してください。\n    \n    【重要要件】\n    1. 出力形式: JSON配列のみ。Markdown記法は禁止。\n    2. arrayの各要素のオブジェクト構造:\n       - \"question_text\": 問題文（具体的な状況設定や制度の知識を問うもの）\n       - \"options\": 選択肢の配列（文字列5つ）\n       - \"correct_answer\": 正解の選択肢の配列（文字列の配列。通常は1つですが、「2つ選べ」などの場合は複数含めてください）\n       - \"explanation\": 簡潔で分かりやすい解説（2〜3文程度）。\n    3. 問題数: **資料の内容が許す限り、最大限多く（目標: 30問〜50問）** 作成してください。\n       - 資料が膨大な場合は重要なポイントを優先してください。\n    ".spec_bytes()
}

/// The generation request body: the fixed prompt plus the PDF bytes as
/// inline base64 data, with the response constrained to JSON.
pub open spec fn spec_generate_body(b64: Seq<u8>) -> Seq<u8> {
    "{\"contents\":[{\"parts\":[{\"text\":\"".spec_bytes() + esc_bytes(spec_generate_prompt())
        + "\"},{\"inline_data\":{\"mime_type\":\"application/pdf\",\"data\":\"".spec_bytes() + b64
        + "\"}}]}],\"generationConfig\":{\"response_mime_type\":\"application/json\"}}".spec_bytes()
}

/// Builds the generation request body for the PDF bytes.
pub fn generate_body(pdf: &Vec<u8>) -> (r: Vec<u8>)
    requires
        pdf@.len() <= 0x1000_0000_0000_0000,
    ensures
        r@ == spec_generate_body(base64_of(pdf@)),
{
    let mut out: Vec<u8> = vstd::slice::slice_to_vec(
        "{\"contents\":[{\"parts\":[{\"text\":\"".as_bytes(),
    );
    let prompt = crate::textops::escape_json(
        "\n    あなたは社会福祉士・精神保健福祉士国家試験のカリスマ講師です。\n    提供されたPDF資料を徹底的に分析し、本番試験レベルの5択クイズを可能な限り多く作成してください。\n    \n    【重要要件】\n    1. 出力形式: JSON配列のみ。Markdown記法は禁止。\n    2. arrayの各要素のオブジェクト構造:\n       - \"question_text\": 問題文（具体的な状況設定や制度の知識を問うもの）\n       - \"options\": 選択肢の配列（文字列5つ）\n       - \"correct_answer\": 正解の選択肢の配列（文字列の配列。通常は1つですが、「2つ選べ」などの場合は複数含めてください）\n       - \"explanation\": 簡潔で分かりやすい解説（2〜3文程度）。\n    3. 問題数: **資料の内容が許す限り、最大限多く（目標: 30問〜50問）** 作成してください。\n       - 資料が膨大な場合は重要なポイントを優先してください。\n    ".as_bytes(),
    );
    out.extend_from_slice(prompt.as_slice());
    out.extend_from_slice("\"},{\"inline_data\":{\"mime_type\":\"application/pdf\",\"data\":\"".as_bytes());
    let b64 = encode_base64(pdf.as_slice());
    out.extend_from_slice(b64.as_slice());
    out.extend_from_slice(
        "\"}}]}],\"generationConfig\":{\"response_mime_type\":\"application/json\"}}".as_bytes(),
    );
    proof {
        assert(out@ =~= spec_generate_body(base64_of(pdf@)));
    }
    out
}

/// The fixed audit prompt around the serialized question list.
pub open spec fn spec_audit_prompt(qs: Seq<crate::question::QModel>) -> Seq<u8> {
    "\n        あなたは社会福祉士国家試験の専門校閲者です。以下の学習用クイズのリストを精査してください。\n        \n        【校閲のポイント】\n        1. 事実誤認、制度の解釈ミス、古い情報の修正（最新の法改正に対応）。\n        2. 「2つ選べ」という指示があるのに正解(correct_answer)が1つしかない等の論理矛盾の修正。\n        3. 解説文(explanation)をより分かりやすく、かつプロ級の品質にブラッシュアップ。\n        4. 選択肢(options)に紛らわしすぎるものや無意味なものがあれば改善。\n        \n        【出力形式】\n        入力と同じ構造のJSON配列（全てのフィールドを維持）のみを出力してください。修正がない場合も、修正なしの状態で全ての要素を返してください。\n        \n        対象データ:\n        ".spec_bytes()
        + qs_json(qs) + "\n        ".spec_bytes()
}

/// The audit request body: the audit prompt, JSON-escaped, as the one
/// text part, with the response constrained to JSON.
pub open spec fn spec_audit_body(qs: Seq<crate::question::QModel>) -> Seq<u8> {
    "{\"contents\":[{\"parts\":[{\"text\":\"".spec_bytes() + esc_bytes(spec_audit_prompt(qs))
        + "\"}]}],\"generationConfig\":{\"response_mime_type\":\"application/json\"}}".spec_bytes()
}

/// Builds the audit request body for the given records.
pub fn audit_body(qs: &Vec<Question>) -> (r: Vec<u8>)
    ensures
        r@ == spec_audit_body(qs.deep_view()),
{
    let mut prompt: Vec<u8> = vstd::slice::slice_to_vec(
        "\n        あなたは社会福祉士国家試験の専門校閲者です。以下の学習用クイズのリストを精査してください。\n        \n        【校閲のポイント】\n        1. 事実誤認、制度の解釈ミス、古い情報の修正（最新の法改正に対応）。\n        2. 「2つ選べ」という指示があるのに正解(correct_answer)が1つしかない等の論理矛盾の修正。\n        3. 解説文(explanation)をより分かりやすく、かつプロ級の品質にブラッシュアップ。\n        4. 選択肢(options)に紛らわしすぎるものや無意味なものがあれば改善。\n        \n        【出力形式】\n        入力と同じ構造のJSON配列（全てのフィールドを維持）のみを出力してください。修正がない場合も、修正なしの状態で全ての要素を返してください。\n        \n        対象データ:\n        ".as_bytes(),
    );
    let ser = crate::question::questions_to_json(qs);
    prompt.extend_from_slice(ser.as_slice());
    prompt.extend_from_slice("\n        ".as_bytes());
    proof {
        assert(prompt@ =~= spec_audit_prompt(qs.deep_view()));
    }
    let mut out: Vec<u8> = vstd::slice::slice_to_vec(
        "{\"contents\":[{\"parts\":[{\"text\":\"".as_bytes(),
    );
    let esc = crate::textops::escape_json(prompt.as_slice());
    out.extend_from_slice(esc.as_slice());
    out.extend_from_slice(
        "\"}]}],\"generationConfig\":{\"response_mime_type\":\"application/json\"}}".as_bytes(),
    );
    proof {
        assert(out@ =~= spec_audit_body(qs.deep_view()));
    }
    out
}

/// The connectivity-probe body: one short fixed text prompt, and no
/// generation configuration.
pub open spec fn spec_probe_body() -> Seq<u8> {
    "{\"contents\":[{\"parts\":[{\"text\":\"Hello, write 'OK' if you can read this.\"}]}]}".spec_bytes()
}

/// Builds the probe request body.
pub fn probe_body() -> (r: Vec<u8>)
    ensures
        r@ == spec_probe_body(),
{
    vstd::slice::slice_to_vec(
        "{\"contents\":[{\"parts\":[{\"text\":\"Hello, write 'OK' if you can read this.\"}]}]}".as_bytes(),
    )
}

} // verus!
