use quizgen::ops::{
    base_name, error_message, finish_audit, finish_generate, finish_probe, prepare_audit,
    prepare_generate, prepare_probe, FileOutcome, OpKind, QuizError,
};
use quizgen::question::{questions_to_json, Question};

fn msg(e: &QuizError, op: OpKind) -> String {
    String::from_utf8(error_message(e, &op)).unwrap()
}

fn response_with_text(text: &str) -> Vec<u8> {
    let quoted = serde_json::Value::String(text.to_string()).to_string();
    format!(
        "{{\"candidates\":[{{\"content\":{{\"parts\":[{{\"text\":{}}}]}}}}]}}",
        quoted
    )
    .into_bytes()
}

fn sample_question() -> Question {
    Question {
        id: Some(3),
        question_text: b"He said \"hi\"\nagain".to_vec(),
        options: vec![
            b"a".to_vec(),
            b"b".to_vec(),
            b"c".to_vec(),
            b"d".to_vec(),
            b"e".to_vec(),
        ],
        correct_answer: vec![b"a".to_vec(), b"b".to_vec()],
        explanation: b"because".to_vec(),
        source_file: b"doc.pdf".to_vec(),
        category: Some(b"law".to_vec()),
        exam_year: Some(2024),
        status: b"audited".to_vec(),
        next_review_at: Some(170000),
        correct_streak: 2,
        last_reviewed_at: Some(160000),
    }
}

#[test]
fn generated_questions_are_fresh() {
    let text = r#"[
        {"question_text":"Q1","options":["a","b","c","d","e"],"correct_answer":["a"],"explanation":"E1"},
        {"question_text":"Q2","options":["f","g","h","i","j"],"correct_answer":["g","h"],"explanation":"E2"}
    ]"#;
    let body = response_with_text(text);
    let qs = finish_generate(200, &body, &b"doc.pdf".to_vec()).unwrap();
    assert_eq!(qs.len(), 2);
    for q in &qs {
        assert_eq!(q.status, b"new".to_vec());
        assert_eq!(q.correct_streak, 0);
        assert!(q.id.is_none());
        assert!(q.category.is_none());
        assert!(q.exam_year.is_none());
        assert!(q.next_review_at.is_none());
        assert!(q.last_reviewed_at.is_none());
        assert_eq!(q.source_file, b"doc.pdf".to_vec());
    }
    assert_eq!(qs[0].question_text, b"Q1".to_vec());
    assert_eq!(qs[0].options.len(), 5);
    assert_eq!(qs[1].correct_answer, vec![b"g".to_vec(), b"h".to_vec()]);
}

#[test]
fn correct_answer_array_is_kept() {
    let text = r#"[{"question_text":"q","options":["x"],"correct_answer":["A","B"],"explanation":"e"}]"#;
    let qs = finish_generate(200, &response_with_text(text), &b"f".to_vec()).unwrap();
    assert_eq!(qs[0].correct_answer, vec![b"A".to_vec(), b"B".to_vec()]);
}

#[test]
fn correct_answer_lone_string_becomes_singleton() {
    let text = r#"[{"question_text":"q","options":["x"],"correct_answer":"A","explanation":"e"}]"#;
    let qs = finish_generate(200, &response_with_text(text), &b"f".to_vec()).unwrap();
    assert_eq!(qs[0].correct_answer, vec![b"A".to_vec()]);
}

#[test]
fn correct_answer_other_type_becomes_empty() {
    let text = r#"[{"question_text":"q","options":["x"],"correct_answer":5,"explanation":"e"}]"#;
    let qs = finish_generate(200, &response_with_text(text), &b"f".to_vec()).unwrap();
    assert!(qs[0].correct_answer.is_empty());
}

#[test]
fn lenient_non_string_fields_default_to_empty() {
    let text = r#"[{"question_text":7,"options":["x",3,null],"correct_answer":["A"]}]"#;
    let qs = finish_generate(200, &response_with_text(text), &b"f".to_vec()).unwrap();
    assert_eq!(qs[0].question_text, Vec::<u8>::new());
    assert_eq!(qs[0].explanation, Vec::<u8>::new());
    assert_eq!(
        qs[0].options,
        vec![b"x".to_vec(), Vec::new(), Vec::new()]
    );
}

#[test]
fn fenced_reply_parses_like_bare() {
    let inner = r#"[{"question_text":"Q","options":["a"],"correct_answer":"a","explanation":"E"}]"#;
    let fenced = format!(" ```json\n{}\n``` ", inner);
    let sf = b"x.pdf".to_vec();
    let bare = finish_generate(200, &response_with_text(inner), &sf).unwrap();
    let wrapped = finish_generate(200, &response_with_text(&fenced), &sf).unwrap();
    assert_eq!(bare, wrapped);
    assert_eq!(bare[0].question_text, b"Q".to_vec());
}

#[test]
fn missing_key_fails_before_any_request() {
    let path = b"/tmp/x.pdf".to_vec();
    let r = prepare_generate(&path, None, &FileOutcome::Read(b"x".to_vec()));
    assert_eq!(r.unwrap_err(), QuizError::CredentialMissing);
    assert_eq!(
        msg(&QuizError::CredentialMissing, OpKind::Generate),
        "GEMINI_API_KEY not set in environment"
    );
    assert_eq!(
        msg(&QuizError::CredentialMissing, OpKind::Probe),
        "GEMINI_API_KEY not set"
    );
    assert!(prepare_audit(&Vec::new(), None).is_err());
    assert!(prepare_probe(None).is_err());
}

#[test]
fn missing_file_fails_without_request() {
    let path = b"/no/such.pdf".to_vec();
    let key = b"K".to_vec();
    let e = prepare_generate(&path, Some(&key), &FileOutcome::Missing).unwrap_err();
    assert_eq!(
        e,
        QuizError::FileNotFound {
            path: b"/no/such.pdf".to_vec()
        }
    );
    assert_eq!(msg(&e, OpKind::Generate), "File not found at: /no/such.pdf");
}

#[test]
fn unreadable_file_reports_read_error() {
    let path = b"/tmp/x.pdf".to_vec();
    let key = b"K".to_vec();
    let e = prepare_generate(&path, Some(&key), &FileOutcome::ReadFailed(b"denied".to_vec()))
        .unwrap_err();
    assert_eq!(msg(&e, OpKind::Generate), "Failed to read file: denied");
}

#[test]
fn non_success_status_names_status_and_body() {
    let e = finish_generate(404, &b"oops".to_vec(), &b"f".to_vec()).unwrap_err();
    let m = msg(&e, OpKind::Generate);
    assert!(m.contains("404"), "{}", m);
    assert!(m.contains("oops"), "{}", m);

    let e = finish_audit(500, &b"whatever".to_vec()).unwrap_err();
    assert_eq!(msg(&e, OpKind::Audit), "Audit failed: 500");

    let e = finish_probe(403, &b"nope".to_vec()).unwrap_err();
    let m = msg(&e, OpKind::Probe);
    assert_eq!(m, "Test Failed: 403 | Body: nope");
}

#[test]
fn audit_of_empty_list_returns_empty() {
    let qs = finish_audit(200, &response_with_text("[]")).unwrap();
    assert!(qs.is_empty());
}

#[test]
fn prepare_generate_builds_request() {
    let path = b"/tmp/a/doc.pdf".to_vec();
    let key = b"SECRETKEY".to_vec();
    let p = prepare_generate(&path, Some(&key), &FileOutcome::Read(b"abc".to_vec())).unwrap();
    let url = String::from_utf8(p.url.clone()).unwrap();
    assert_eq!(
        url,
        "https://generativelanguage.googleapis.com/v1beta/models/gemini-2.0-flash:generateContent?key=SECRETKEY"
    );
    assert_eq!(p.timeout_secs, Some(300));
    let body: serde_json::Value = serde_json::from_slice(&p.body).unwrap();
    let inline = &body["contents"][0]["parts"][1]["inline_data"];
    assert_eq!(inline["mime_type"], "application/pdf");
    assert_eq!(inline["data"], "YWJj");
    assert_eq!(
        body["generationConfig"]["response_mime_type"],
        "application/json"
    );
    assert!(body["contents"][0]["parts"][0]["text"].is_string());
}

#[test]
fn prepare_audit_embeds_serialized_questions() {
    let qs = vec![sample_question()];
    let key = b"K".to_vec();
    let p = prepare_audit(&qs, Some(&key)).unwrap();
    assert_eq!(p.timeout_secs, None);
    let body: serde_json::Value = serde_json::from_slice(&p.body).unwrap();
    let text = body["contents"][0]["parts"][0]["text"].as_str().unwrap();
    let expected_fragment = "\"question_text\":\"He said \\\"hi\\\"\\nagain\"";
    assert!(text.contains(expected_fragment), "{}", text);
    assert_eq!(
        body["generationConfig"]["response_mime_type"],
        "application/json"
    );
}

#[test]
fn prepare_probe_builds_fixed_request() {
    let key = b"K".to_vec();
    let p = prepare_probe(Some(&key)).unwrap();
    assert_eq!(p.timeout_secs, Some(10));
    assert_eq!(
        String::from_utf8(p.body).unwrap(),
        "{\"contents\":[{\"parts\":[{\"text\":\"Hello, write 'OK' if you can read this.\"}]}]}"
    );
}

#[test]
fn questions_to_json_exact() {
    let q = Question {
        id: None,
        question_text: b"Q".to_vec(),
        options: vec![b"a".to_vec(), b"b".to_vec()],
        correct_answer: vec![b"a".to_vec()],
        explanation: b"E".to_vec(),
        source_file: b"s.pdf".to_vec(),
        category: None,
        exam_year: None,
        status: b"new".to_vec(),
        next_review_at: None,
        correct_streak: 0,
        last_reviewed_at: None,
    };
    let ser = String::from_utf8(questions_to_json(&vec![q])).unwrap();
    assert_eq!(
        ser,
        "[{\"id\":null,\"question_text\":\"Q\",\"options\":[\"a\",\"b\"],\"correct_answer\":[\"a\"],\"explanation\":\"E\",\"source_file\":\"s.pdf\",\"category\":null,\"exam_year\":null,\"status\":\"new\",\"next_review_at\":null,\"correct_streak\":0,\"last_reviewed_at\":null}]"
    );
}

#[test]
fn audit_round_trips_serialized_questions() {
    let qs = vec![sample_question()];
    let ser = String::from_utf8(questions_to_json(&qs)).unwrap();
    let back = finish_audit(200, &response_with_text(&ser)).unwrap();
    assert_eq!(back, qs);
}

#[test]
fn audit_rejects_incomplete_record() {
    let text = r#"[{"question_text":"q"}]"#;
    let e = finish_audit(200, &response_with_text(text)).unwrap_err();
    let m = msg(&e, OpKind::Audit);
    assert!(m.starts_with("Failed to parse audit result: "), "{}", m);
    assert!(m.contains(" | Raw: "), "{}", m);
}

#[test]
fn audit_rejects_mistyped_field() {
    let text = r#"[{"question_text":"q","options":["a",2],"correct_answer":["a"],"explanation":"e","source_file":"s","status":"new","correct_streak":0}]"#;
    assert!(finish_audit(200, &response_with_text(text)).is_err());
}

#[test]
fn invalid_options_format_is_reported() {
    let text = r#"[{"question_text":"q","options":"not an array","correct_answer":["a"],"explanation":"e"}]"#;
    let e = finish_generate(200, &response_with_text(text), &b"f".to_vec()).unwrap_err();
    assert_eq!(e, QuizError::InvalidOptionsFormat);
    assert_eq!(msg(&e, OpKind::Generate), "Invalid options format");
}

#[test]
fn unparseable_response_body_is_malformed() {
    let e = finish_generate(200, &b"not json".to_vec(), &b"f".to_vec()).unwrap_err();
    match &e {
        QuizError::MalformedResponse { detail } => assert!(detail.is_some()),
        other => panic!("unexpected error {:?}", other),
    }
    assert!(msg(&e, OpKind::Generate).starts_with("Failed to parse response JSON: "));
}

#[test]
fn response_without_text_field_is_malformed() {
    let e = finish_generate(200, &b"{}".to_vec(), &b"f".to_vec()).unwrap_err();
    assert_eq!(e, QuizError::MalformedResponse { detail: None });
    assert_eq!(msg(&e, OpKind::Generate), "No text in response");
    let e = finish_audit(200, &b"{}".to_vec()).unwrap_err();
    assert_eq!(msg(&e, OpKind::Audit), "No text");
}

#[test]
fn unparseable_generated_text_keeps_raw() {
    let e = finish_generate(200, &response_with_text("not json at all"), &b"f".to_vec())
        .unwrap_err();
    let m = msg(&e, OpKind::Generate);
    assert!(m.starts_with("Failed to parse generated JSON content: "), "{}", m);
    assert!(m.ends_with(" | Raw: not json at all"), "{}", m);
}

#[test]
fn probe_returns_reply_text() {
    let r = finish_probe(200, &response_with_text("OK")).unwrap();
    assert_eq!(r, b"OK".to_vec());
}

#[test]
fn probe_without_text_degrades_to_placeholder() {
    let r = finish_probe(200, &b"{}".to_vec()).unwrap();
    assert_eq!(r, b"No text".to_vec());
}

#[test]
fn base_name_takes_last_component() {
    assert_eq!(base_name(&b"/tmp/docs/file.pdf".to_vec()), b"file.pdf".to_vec());
    assert_eq!(base_name(&b"file.pdf".to_vec()), b"file.pdf".to_vec());
    assert_eq!(base_name(&b"/tmp/dir/".to_vec()), b"dir".to_vec());
    assert_eq!(base_name(&b"".to_vec()), b"".to_vec());
}

#[test]
fn transport_error_messages_follow_operation() {
    let build = QuizError::TransportError {
        during_build: true,
        detail: b"tls broken".to_vec(),
    };
    let send = QuizError::TransportError {
        during_build: false,
        detail: b"timed out".to_vec(),
    };
    assert_eq!(msg(&build, OpKind::Generate), "Failed to build client: tls broken");
    assert_eq!(msg(&send, OpKind::Generate), "Request failed: timed out");
    assert_eq!(msg(&build, OpKind::Audit), "tls broken");
    assert_eq!(msg(&send, OpKind::Probe), "timed out");
}
