use vstd::prelude::*;
use vstd::string::StringSliceAdditionalSpecFns;

use crate::bytes_util::dec_digits;
use crate::jsonval::{jget, lemma_model_list, model, model_list, Json, JsonVal};
use crate::textops::esc_bytes;

verus! {

/// One quiz item. Text fields hold UTF-8 bytes; the record is built by
/// this library with `status` `"new"`, `correct_streak` `0`, and the
/// optional metadata unset, and is never mutated afterwards.
#[derive(Debug, Clone, PartialEq, Eq)]
pub struct Question {
    pub id: Option<u64>,
    pub question_text: Vec<u8>,
    pub options: Vec<Vec<u8>>,
    pub correct_answer: Vec<Vec<u8>>,
    pub explanation: Vec<u8>,
    pub source_file: Vec<u8>,
    pub category: Option<Vec<u8>>,
    pub exam_year: Option<u64>,
    pub status: Vec<u8>,
    pub next_review_at: Option<u64>,
    pub correct_streak: u64,
    pub last_reviewed_at: Option<u64>,
}

/// Mathematical image of a `Question`.
pub struct QModel {
    pub id: Option<u64>,
    pub question_text: Seq<u8>,
    pub options: Seq<Seq<u8>>,
    pub correct_answer: Seq<Seq<u8>>,
    pub explanation: Seq<u8>,
    pub source_file: Seq<u8>,
    pub category: Option<Seq<u8>>,
    pub exam_year: Option<u64>,
    pub status: Seq<u8>,
    pub next_review_at: Option<u64>,
    pub correct_streak: u64,
    pub last_reviewed_at: Option<u64>,
}

impl View for Question {
    type V = QModel;

    open spec fn view(&self) -> QModel {
        QModel {
            id: self.id,
            question_text: self.question_text@,
            options: self.options.deep_view(),
            correct_answer: self.correct_answer.deep_view(),
            explanation: self.explanation@,
            source_file: self.source_file@,
            category: self.category.deep_view(),
            exam_year: self.exam_year,
            status: self.status@,
            next_review_at: self.next_review_at,
            correct_streak: self.correct_streak,
            last_reviewed_at: self.last_reviewed_at,
        }
    }
}

impl DeepView for Question {
    type V = QModel;

    open spec fn deep_view(&self) -> QModel {
        self.view()
    }
}

/// The status tag every freshly generated question carries.
pub open spec fn new_status() -> Seq<u8> {
    "new".spec_bytes()
}

/// A record as `generate_quiz_from_pdf` creates it: only content fields
/// are set, everything owned by outside collaborators is unset.
pub open spec fn fresh_question(
    qt: Seq<u8>,
    options: Seq<Seq<u8>>,
    ca: Seq<Seq<u8>>,
    expl: Seq<u8>,
    sf: Seq<u8>,
) -> QModel {
    QModel {
        id: None,
        question_text: qt,
        options: options,
        correct_answer: ca,
        explanation: expl,
        source_file: sf,
        category: None,
        exam_year: None,
        status: new_status(),
        next_review_at: None,
        correct_streak: 0,
        last_reviewed_at: None,
    }
}

// --- lenient mapping (generation path) --------------------------------

/// A string field read leniently: anything but a string becomes empty.
pub open spec fn str_or_empty(f: Option<Json>) -> Seq<u8> {
    match f {
        Some(Json::Str(s)) => s,
        _ => Seq::empty(),
    }
}

/// Each array element coerced to a string, defaulting to empty.
pub open spec fn coerce_strings(a: Seq<Json>) -> Seq<Seq<u8>> {
    Seq::new(
        a.len(),
        |i: int|
            match a[i] {
                Json::Str(s) => s,
                _ => Seq::<u8>::empty(),
            },
    )
}

/// `correct_answer` read leniently: an array is coerced element-wise, a
/// lone string becomes a one-element list, anything else is empty.
pub open spec fn lenient_correct_answer(f: Option<Json>) -> Seq<Seq<u8>> {
    match f {
        Some(Json::Arr(a)) => coerce_strings(a),
        Some(Json::Str(s)) => seq![s],
        _ => Seq::empty(),
    }
}

/// One generated array element turned into a record; `None` exactly when
/// its `options` field is absent or not an array.
pub open spec fn lenient_question(j: Json, sf: Seq<u8>) -> Option<QModel> {
    match jget(j, "options".spec_bytes()) {
        Some(Json::Arr(a)) => Some(
            fresh_question(
                str_or_empty(jget(j, "question_text".spec_bytes())),
                coerce_strings(a),
                lenient_correct_answer(jget(j, "correct_answer".spec_bytes())),
                str_or_empty(jget(j, "explanation".spec_bytes())),
                sf,
            ),
        ),
        _ => None,
    }
}

/// The whole generated array; `None` exactly when some element fails.
pub open spec fn lenient_questions(a: Seq<Json>, sf: Seq<u8>) -> Option<Seq<QModel>>
    decreases a.len(),
{
    if a.len() == 0 {
        Some(Seq::empty())
    } else {
        match lenient_question(a[0], sf) {
            Some(q) => match lenient_questions(a.skip(1), sf) {
                Some(rest) => Some(seq![q] + rest),
                None => None,
            },
            None => None,
        }
    }
}

/// Every record a well-formed response produces is fresh: status `"new"`,
/// zero streak, review timestamps and metadata unset, and `source_file`
/// as handed in.
pub proof fn lemma_lenient_questions_fresh(a: Seq<Json>, sf: Seq<u8>)
    ensures
        lenient_questions(a, sf) matches Some(qs) ==> forall|i: int|
            0 <= i < qs.len() ==> ((#[trigger] qs[i]).status == new_status() && qs[i].correct_streak
                == 0 && qs[i].id is None && qs[i].category is None && qs[i].exam_year is None
                && qs[i].next_review_at is None && qs[i].last_reviewed_at is None
                && qs[i].source_file == sf),
    decreases a.len(),
{
    if a.len() > 0 {
        lemma_lenient_questions_fresh(a.skip(1), sf);
    }
}

/// Copies a byte vector.
fn copy_bytes(s: &Vec<u8>) -> (r: Vec<u8>)
    ensures
        r@ == s@,
{
    vstd::slice::slice_to_vec(s.as_slice())
}

/// An empty string list whose deep view is the empty sequence.
fn empty_string_list() -> (r: Vec<Vec<u8>>)
    ensures
        r.deep_view() == Seq::<Seq<u8>>::empty(),
        r@.len() == 0,
{
    let r: Vec<Vec<u8>> = Vec::new();
    proof {
        assert(r.deep_view() =~~= Seq::<Seq<u8>>::empty());
    }
    r
}

/// Coerces a parsed array to strings, as `coerce_strings` says.
fn coerce_string_list(a: &Vec<JsonVal>) -> (r: Vec<Vec<u8>>)
    ensures
        r.deep_view() == coerce_strings(model_list(a@)),
{
    proof {
        lemma_model_list(a@);
    }
    let ghost ma = model_list(a@);
    let mut out: Vec<Vec<u8>> = Vec::new();
    let mut i: usize = 0;
    while i < a.len()
        invariant
            0 <= i <= a@.len(),
            ma == model_list(a@),
            ma.len() == a@.len(),
            forall|k: int| 0 <= k < a@.len() ==> ma[k] == model(a@[k]),
            out@.len() == i,
            forall|k: int|
                0 <= k < i ==> out@[k]@ == (match ma[k] {
                    Json::Str(s) => s,
                    _ => Seq::<u8>::empty(),
                }),
        decreases a@.len() - i,
    {
        match &a[i] {
            JsonVal::Str(s) => {
                let c = copy_bytes(s);
                out.push(c);
            },
            _ => {
                out.push(Vec::new());
            },
        }
        i = i + 1;
    }
    proof {
        assert(out.deep_view() =~~= coerce_strings(ma));
    }
    out
}

/// Maps one parsed element into a fresh record, or reports the
/// invalid-options shape by `None`, as `lenient_question` says.
pub fn lenient_question_of(v: &JsonVal, sf: &Vec<u8>) -> (r: Option<Question>)
    ensures
        match r {
            Some(q) => lenient_question(model(*v), sf@) == Some(q@),
            None => lenient_question(model(*v), sf@) is None,
        },
{
    let opts = match v.get("options".as_bytes()) {
        Some(JsonVal::Arr(a)) => coerce_string_list(a),
        _ => {
            return None;
        },
    };
    let qt = match v.get("question_text".as_bytes()) {
        Some(JsonVal::Str(s)) => copy_bytes(s),
        _ => Vec::new(),
    };
    let ca = match v.get("correct_answer".as_bytes()) {
        Some(JsonVal::Arr(a)) => coerce_string_list(a),
        Some(JsonVal::Str(s)) => {
            let mut one: Vec<Vec<u8>> = Vec::new();
            one.push(copy_bytes(s));
            proof {
                assert(one.deep_view() =~~= seq![s@]);
            }
            one
        },
        _ => empty_string_list(),
    };
    let expl = match v.get("explanation".as_bytes()) {
        Some(JsonVal::Str(s)) => copy_bytes(s),
        _ => Vec::new(),
    };
    let q = Question {
        id: None,
        question_text: qt,
        options: opts,
        correct_answer: ca,
        explanation: expl,
        source_file: copy_bytes(sf),
        category: None,
        exam_year: None,
        status: vstd::slice::slice_to_vec("new".as_bytes()),
        next_review_at: None,
        correct_streak: 0,
        last_reviewed_at: None,
    };
    Some(q)
}

/// Maps the whole generated array, as `lenient_questions` says.
pub fn lenient_questions_of(arr: &Vec<JsonVal>, sf: &Vec<u8>) -> (r: Option<Vec<Question>>)
    ensures
        match r {
            Some(qs) => lenient_questions(model_list(arr@), sf@) == Some(qs.deep_view()),
            None => lenient_questions(model_list(arr@), sf@) is None,
        },
{
    proof {
        lemma_model_list(arr@);
    }
    let ghost ma = model_list(arr@);
    let mut out: Vec<Question> = Vec::new();
    let mut i: usize = 0;
    proof {
        assert(ma.skip(0) =~= ma);
    }
    while i < arr.len()
        invariant
            0 <= i <= arr@.len(),
            ma == model_list(arr@),
            ma.len() == arr@.len(),
            forall|k: int| 0 <= k < arr@.len() ==> ma[k] == model(arr@[k]),
            out@.len() == i,
            lenient_questions(ma, sf@) == (match lenient_questions(ma.skip(i as int), sf@) {
                Some(rest) => Some(out.deep_view() + rest),
                None => None::<Seq<QModel>>,
            }),
        decreases arr@.len() - i,
    {
        let ghost pre = out.deep_view();
        match lenient_question_of(&arr[i], sf) {
            Some(q) => {
                out.push(q);
            },
            None => {
                proof {
                    assert(ma.skip(i as int)[0] == ma[i as int]);
                }
                return None;
            },
        }
        proof {
            assert(ma.skip(i as int)[0] == ma[i as int]);
            assert(ma.skip(i as int).skip(1) =~= ma.skip(i as int + 1));
            assert(out.deep_view() =~~= pre + seq![out@[i as int]@]);
            match lenient_questions(ma.skip(i as int + 1), sf@) {
                Some(rest) => {
                    assert(pre + (seq![out@[i as int]@] + rest) =~= out.deep_view() + rest);
                },
                None => {},
            }
        }
        i = i + 1;
    }
    proof {
        assert(ma.skip(i as int) =~= Seq::<Json>::empty());
        assert(out.deep_view() + Seq::<QModel>::empty() =~= out.deep_view());
    }
    Some(out)
}

// --- strict mapping (audit path) --------------------------------------

/// Every element must be a string.
pub open spec fn strict_strings(a: Seq<Json>) -> Option<Seq<Seq<u8>>>
    decreases a.len(),
{
    if a.len() == 0 {
        Some(Seq::empty())
    } else {
        match a[0] {
            Json::Str(s) => match strict_strings(a.skip(1)) {
                Some(r) => Some(seq![s] + r),
                None => None,
            },
            _ => None,
        }
    }
}

/// A required string field.
pub open spec fn req_str(j: Json, key: Seq<u8>) -> Option<Seq<u8>> {
    match jget(j, key) {
        Some(Json::Str(s)) => Some(s),
        _ => None,
    }
}

/// A required list-of-strings field.
pub open spec fn req_str_list(j: Json, key: Seq<u8>) -> Option<Seq<Seq<u8>>> {
    match jget(j, key) {
        Some(Json::Arr(a)) => strict_strings(a),
        _ => None,
    }
}

/// An optional string field: absent or `null` is `None`, any other
/// non-string shape is a type error.
pub open spec fn opt_str(j: Json, key: Seq<u8>) -> Option<Option<Seq<u8>>> {
    match jget(j, key) {
        None => Some(None),
        Some(Json::Null) => Some(None),
        Some(Json::Str(s)) => Some(Some(s)),
        _ => None,
    }
}

/// An optional non-negative integer field.
pub open spec fn opt_u64(j: Json, key: Seq<u8>) -> Option<Option<u64>> {
    match jget(j, key) {
        None => Some(None),
        Some(Json::Null) => Some(None),
        Some(Json::Int(i)) => if i >= 0 {
            Some(Some(i as u64))
        } else {
            None
        },
        _ => None,
    }
}

/// A required non-negative integer field.
pub open spec fn req_u64(j: Json, key: Seq<u8>) -> Option<u64> {
    match jget(j, key) {
        Some(Json::Int(i)) => if i >= 0 {
            Some(i as u64)
        } else {
            None
        },
        _ => None,
    }
}

/// One audited element read strictly: every content field must be
/// present with the right type, or the whole element is rejected.
pub open spec fn strict_question(j: Json) -> Option<QModel> {
    match (
        req_str(j, "question_text".spec_bytes()),
        req_str_list(j, "options".spec_bytes()),
        req_str_list(j, "correct_answer".spec_bytes()),
        req_str(j, "explanation".spec_bytes()),
        req_str(j, "source_file".spec_bytes()),
        req_str(j, "status".spec_bytes()),
    ) {
        (Some(qt), Some(opts), Some(ca), Some(expl), Some(sf), Some(st)) => match (
            req_u64(j, "correct_streak".spec_bytes()),
            opt_u64(j, "id".spec_bytes()),
            opt_str(j, "category".spec_bytes()),
            opt_u64(j, "exam_year".spec_bytes()),
            opt_u64(j, "next_review_at".spec_bytes()),
            opt_u64(j, "last_reviewed_at".spec_bytes()),
        ) {
            (Some(streak), Some(id), Some(cat), Some(ey), Some(nra), Some(lra)) => Some(
                QModel {
                    id: id,
                    question_text: qt,
                    options: opts,
                    correct_answer: ca,
                    explanation: expl,
                    source_file: sf,
                    category: cat,
                    exam_year: ey,
                    status: st,
                    next_review_at: nra,
                    correct_streak: streak,
                    last_reviewed_at: lra,
                },
            ),
            _ => None,
        },
        _ => None,
    }
}

/// The whole audited array read strictly; `None` when any element fails.
pub open spec fn strict_questions(a: Seq<Json>) -> Option<Seq<QModel>>
    decreases a.len(),
{
    if a.len() == 0 {
        Some(Seq::empty())
    } else {
        match strict_question(a[0]) {
            Some(q) => match strict_questions(a.skip(1)) {
                Some(rest) => Some(seq![q] + rest),
                None => None,
            },
            None => None,
        }
    }
}

/// Reads every element as a string, as `strict_strings` says.
fn strict_string_list(a: &Vec<JsonVal>) -> (r: Option<Vec<Vec<u8>>>)
    ensures
        match r {
            Some(v) => strict_strings(model_list(a@)) == Some(v.deep_view()),
            None => strict_strings(model_list(a@)) is None,
        },
{
    proof {
        lemma_model_list(a@);
    }
    let ghost ma = model_list(a@);
    let mut out: Vec<Vec<u8>> = Vec::new();
    let mut i: usize = 0;
    proof {
        assert(ma.skip(0) =~= ma);
    }
    while i < a.len()
        invariant
            0 <= i <= a@.len(),
            ma == model_list(a@),
            ma.len() == a@.len(),
            forall|k: int| 0 <= k < a@.len() ==> ma[k] == model(a@[k]),
            out@.len() == i,
            strict_strings(ma) == (match strict_strings(ma.skip(i as int)) {
                Some(rest) => Some(out.deep_view() + rest),
                None => None::<Seq<Seq<u8>>>,
            }),
        decreases a@.len() - i,
    {
        let ghost pre = out.deep_view();
        match &a[i] {
            JsonVal::Str(s) => {
                out.push(copy_bytes(s));
            },
            _ => {
                proof {
                    assert(ma.skip(i as int)[0] == ma[i as int]);
                }
                return None;
            },
        }
        proof {
            assert(ma.skip(i as int)[0] == ma[i as int]);
            assert(ma.skip(i as int).skip(1) =~= ma.skip(i as int + 1));
            assert(out.deep_view() =~~= pre + seq![out@[i as int]@]);
            match strict_strings(ma.skip(i as int + 1)) {
                Some(rest) => {
                    assert(pre + (seq![out@[i as int]@] + rest) =~= out.deep_view() + rest);
                },
                None => {},
            }
        }
        i = i + 1;
    }
    proof {
        assert(ma.skip(i as int) =~= Seq::<Json>::empty());
        assert(out.deep_view() + Seq::<Seq<u8>>::empty() =~= out.deep_view());
    }
    Some(out)
}

/// Reads a required string field of `v`, as `req_str` says.
fn get_req_str(v: &JsonVal, key: &[u8]) -> (r: Option<Vec<u8>>)
    ensures
        match r {
            Some(s) => req_str(model(*v), key@) == Some(s@),
            None => req_str(model(*v), key@) is None,
        },
{
    match v.get(key) {
        Some(JsonVal::Str(s)) => Some(copy_bytes(s)),
        _ => None,
    }
}

/// Reads an optional string field of `v`, as `opt_str` says.
fn get_opt_str(v: &JsonVal, key: &[u8]) -> (r: Option<Option<Vec<u8>>>)
    ensures
        match r {
            Some(s) => opt_str(model(*v), key@) == Some(s.deep_view()),
            None => opt_str(model(*v), key@) is None,
        },
{
    match v.get(key) {
        None => Some(None),
        Some(JsonVal::Null) => Some(None),
        Some(JsonVal::Str(s)) => Some(Some(copy_bytes(s))),
        _ => None,
    }
}

/// Reads an optional non-negative integer field of `v`, as `opt_u64` says.
fn get_opt_u64(v: &JsonVal, key: &[u8]) -> (r: Option<Option<u64>>)
    ensures
        match r {
            Some(s) => opt_u64(model(*v), key@) == Some(s),
            None => opt_u64(model(*v), key@) is None,
        },
{
    match v.get(key) {
        None => Some(None),
        Some(JsonVal::Null) => Some(None),
        Some(JsonVal::Int(i)) => {
            let iv = *i;
            if iv >= 0 {
                Some(Some(iv as u64))
            } else {
                None
            }
        },
        _ => None,
    }
}

/// Reads one audited element strictly, as `strict_question` says.
pub fn strict_question_of(v: &JsonVal) -> (r: Option<Question>)
    ensures
        match r {
            Some(q) => strict_question(model(*v)) == Some(q@),
            None => strict_question(model(*v)) is None,
        },
{
    let qt = match get_req_str(v, "question_text".as_bytes()) {
        Some(s) => s,
        None => {
            return None;
        },
    };
    let opts = match v.get("options".as_bytes()) {
        Some(JsonVal::Arr(a)) => match strict_string_list(a) {
            Some(l) => l,
            None => {
                return None;
            },
        },
        _ => {
            return None;
        },
    };
    let ca = match v.get("correct_answer".as_bytes()) {
        Some(JsonVal::Arr(a)) => match strict_string_list(a) {
            Some(l) => l,
            None => {
                return None;
            },
        },
        _ => {
            return None;
        },
    };
    let expl = match get_req_str(v, "explanation".as_bytes()) {
        Some(s) => s,
        None => {
            return None;
        },
    };
    let sf = match get_req_str(v, "source_file".as_bytes()) {
        Some(s) => s,
        None => {
            return None;
        },
    };
    let st = match get_req_str(v, "status".as_bytes()) {
        Some(s) => s,
        None => {
            return None;
        },
    };
    let streak = match v.get("correct_streak".as_bytes()) {
        Some(JsonVal::Int(i)) => {
            let iv = *i;
            if iv >= 0 {
                iv as u64
            } else {
                return None;
            }
        },
        _ => {
            return None;
        },
    };
    let id = match get_opt_u64(v, "id".as_bytes()) {
        Some(x) => x,
        None => {
            return None;
        },
    };
    let cat = match get_opt_str(v, "category".as_bytes()) {
        Some(x) => x,
        None => {
            return None;
        },
    };
    let ey = match get_opt_u64(v, "exam_year".as_bytes()) {
        Some(x) => x,
        None => {
            return None;
        },
    };
    let nra = match get_opt_u64(v, "next_review_at".as_bytes()) {
        Some(x) => x,
        None => {
            return None;
        },
    };
    let lra = match get_opt_u64(v, "last_reviewed_at".as_bytes()) {
        Some(x) => x,
        None => {
            return None;
        },
    };
    Some(
        Question {
            id: id,
            question_text: qt,
            options: opts,
            correct_answer: ca,
            explanation: expl,
            source_file: sf,
            category: cat,
            exam_year: ey,
            status: st,
            next_review_at: nra,
            correct_streak: streak,
            last_reviewed_at: lra,
        },
    )
}

/// Reads the whole audited array strictly, as `strict_questions` says.
pub fn strict_questions_of(arr: &Vec<JsonVal>) -> (r: Option<Vec<Question>>)
    ensures
        match r {
            Some(qs) => strict_questions(model_list(arr@)) == Some(qs.deep_view()),
            None => strict_questions(model_list(arr@)) is None,
        },
{
    proof {
        lemma_model_list(arr@);
    }
    let ghost ma = model_list(arr@);
    let mut out: Vec<Question> = Vec::new();
    let mut i: usize = 0;
    proof {
        assert(ma.skip(0) =~= ma);
    }
    while i < arr.len()
        invariant
            0 <= i <= arr@.len(),
            ma == model_list(arr@),
            ma.len() == arr@.len(),
            forall|k: int| 0 <= k < arr@.len() ==> ma[k] == model(arr@[k]),
            out@.len() == i,
            strict_questions(ma) == (match strict_questions(ma.skip(i as int)) {
                Some(rest) => Some(out.deep_view() + rest),
                None => None::<Seq<QModel>>,
            }),
        decreases arr@.len() - i,
    {
        let ghost pre = out.deep_view();
        match strict_question_of(&arr[i]) {
            Some(q) => {
                out.push(q);
            },
            None => {
                proof {
                    assert(ma.skip(i as int)[0] == ma[i as int]);
                }
                return None;
            },
        }
        proof {
            assert(ma.skip(i as int)[0] == ma[i as int]);
            assert(ma.skip(i as int).skip(1) =~= ma.skip(i as int + 1));
            assert(out.deep_view() =~~= pre + seq![out@[i as int]@]);
            match strict_questions(ma.skip(i as int + 1)) {
                Some(rest) => {
                    assert(pre + (seq![out@[i as int]@] + rest) =~= out.deep_view() + rest);
                },
                None => {},
            }
        }
        i = i + 1;
    }
    proof {
        assert(ma.skip(i as int) =~= Seq::<Json>::empty());
        assert(out.deep_view() + Seq::<QModel>::empty() =~= out.deep_view());
    }
    Some(out)
}

// --- serialization (audit prompt) -------------------------------------

/// A JSON string literal: quotes around the escaped bytes.
pub open spec fn jstr(s: Seq<u8>) -> Seq<u8> {
    seq![0x22u8] + esc_bytes(s) + seq![0x22u8]
}

/// An optional number: `null` or decimal digits.
pub open spec fn jnum_opt(v: Option<u64>) -> Seq<u8> {
    match v {
        None => "null".spec_bytes(),
        Some(n) => dec_digits(n as nat),
    }
}

/// An optional string: `null` or a JSON string literal.
pub open spec fn jstr_opt(v: Option<Seq<u8>>) -> Seq<u8> {
    match v {
        None => "null".spec_bytes(),
        Some(s) => jstr(s),
    }
}

/// `,"x","y"` — the tail of a JSON array of strings.
pub open spec fn jstr_items(a: Seq<Seq<u8>>) -> Seq<u8>
    decreases a.len(),
{
    if a.len() == 0 {
        Seq::empty()
    } else {
        jstr_items(a.drop_last()) + seq![0x2cu8] + jstr(a.last())
    }
}

/// A JSON array of strings.
pub open spec fn jstr_list(a: Seq<Seq<u8>>) -> Seq<u8> {
    if a.len() == 0 {
        "[]".spec_bytes()
    } else {
        seq![0x5bu8] + jstr(a[0]) + jstr_items(a.skip(1)) + seq![0x5du8]
    }
}

/// One record as a JSON object, fields in declaration order.
pub open spec fn q_json(q: QModel) -> Seq<u8> {
    "{\"id\":".spec_bytes() + jnum_opt(q.id) + ",\"question_text\":".spec_bytes() + jstr(
        q.question_text,
    ) + ",\"options\":".spec_bytes() + jstr_list(q.options) + ",\"correct_answer\":".spec_bytes()
        + jstr_list(q.correct_answer) + ",\"explanation\":".spec_bytes() + jstr(q.explanation)
        + ",\"source_file\":".spec_bytes() + jstr(q.source_file) + ",\"category\":".spec_bytes()
        + jstr_opt(q.category) + ",\"exam_year\":".spec_bytes() + jnum_opt(q.exam_year)
        + ",\"status\":".spec_bytes() + jstr(q.status) + ",\"next_review_at\":".spec_bytes()
        + jnum_opt(q.next_review_at) + ",\"correct_streak\":".spec_bytes() + dec_digits(
        q.correct_streak as nat,
    ) + ",\"last_reviewed_at\":".spec_bytes() + jnum_opt(q.last_reviewed_at) + "}".spec_bytes()
}

/// `,{...},{...}` — the tail of a JSON array of records.
pub open spec fn q_items(a: Seq<QModel>) -> Seq<u8>
    decreases a.len(),
{
    if a.len() == 0 {
        Seq::empty()
    } else {
        q_items(a.drop_last()) + seq![0x2cu8] + q_json(a.last())
    }
}

/// A list of records as a JSON array.
pub open spec fn qs_json(a: Seq<QModel>) -> Seq<u8> {
    if a.len() == 0 {
        "[]".spec_bytes()
    } else {
        seq![0x5bu8] + q_json(a[0]) + q_items(a.skip(1)) + seq![0x5du8]
    }
}

/// Appends a JSON string literal for `s`.
fn push_jstr(out: &mut Vec<u8>, s: &Vec<u8>)
    ensures
        final(out)@ == old(out)@ + jstr(s@),
{
    let ghost base = out@;
    out.push(0x22);
    let esc = crate::textops::escape_json(s.as_slice());
    out.extend_from_slice(esc.as_slice());
    out.push(0x22);
    proof {
        assert(out@ =~= base + jstr(s@));
    }
}

/// Appends `null` or decimal digits for `v`.
fn push_jnum_opt(out: &mut Vec<u8>, v: &Option<u64>)
    ensures
        final(out)@ == old(out)@ + jnum_opt(*v),
{
    match v {
        None => {
            out.extend_from_slice("null".as_bytes());
        },
        Some(n) => {
            let d = crate::bytes_util::u64_digits(*n);
            out.extend_from_slice(d.as_slice());
        },
    }
}

/// Appends a JSON array of string literals for `a`.
fn push_jstr_list(out: &mut Vec<u8>, a: &Vec<Vec<u8>>)
    ensures
        final(out)@ == old(out)@ + jstr_list(a.deep_view()),
{
    let ghost base = out@;
    let ghost dv = a.deep_view();
    if a.len() == 0 {
        out.extend_from_slice("[]".as_bytes());
        return ;
    }
    proof {
        assert forall|k: int| 0 <= k < a@.len() implies dv[k] == a@[k]@ by {
            assert(a@[k].deep_view() =~= a@[k]@);
        }
    }
    out.push(0x5b);
    push_jstr(out, &a[0]);
    let mut i: usize = 1;
    proof {
        assert(dv.skip(1).take(0) =~= Seq::<Seq<u8>>::empty());
        assert(jstr_items(dv.skip(1).take(0)) =~= Seq::<u8>::empty());
        assert(out@ =~= base + seq![0x5bu8] + jstr(dv[0]) + jstr_items(dv.skip(1).take(0)));
    }
    while i < a.len()
        invariant
            1 <= i <= a@.len(),
            dv == a.deep_view(),
            dv.len() == a@.len(),
            forall|k: int| 0 <= k < a@.len() ==> dv[k] == a@[k]@,
            out@ == base + seq![0x5bu8] + jstr(dv[0]) + jstr_items(dv.skip(1).take(i - 1)),
        decreases a@.len() - i,
    {
        out.push(0x2c);
        push_jstr(out, &a[i]);
        proof {
            let tail = dv.skip(1);
            assert(tail.take(i as int).drop_last() =~= tail.take(i - 1));
            assert(tail.take(i as int).last() == dv[i as int]);
            assert(out@ =~= base + seq![0x5bu8] + jstr(dv[0]) + jstr_items(tail.take(i as int)));
        }
        i = i + 1;
    }
    out.push(0x5d);
    proof {
        assert(dv.skip(1).take(i - 1) =~= dv.skip(1));
        assert(out@ =~= base + jstr_list(dv));
    }
}

/// Serializes one record, as `q_json` says.
#[verifier::rlimit(100)]
pub fn question_to_json(q: &Question) -> (r: Vec<u8>)
    ensures
        r@ == q_json(q@),
{
    let mut out: Vec<u8> = Vec::new();
    out.extend_from_slice("{\"id\":".as_bytes());
    push_jnum_opt(&mut out, &q.id);
    out.extend_from_slice(",\"question_text\":".as_bytes());
    push_jstr(&mut out, &q.question_text);
    out.extend_from_slice(",\"options\":".as_bytes());
    push_jstr_list(&mut out, &q.options);
    out.extend_from_slice(",\"correct_answer\":".as_bytes());
    push_jstr_list(&mut out, &q.correct_answer);
    out.extend_from_slice(",\"explanation\":".as_bytes());
    push_jstr(&mut out, &q.explanation);
    out.extend_from_slice(",\"source_file\":".as_bytes());
    push_jstr(&mut out, &q.source_file);
    out.extend_from_slice(",\"category\":".as_bytes());
    match &q.category {
        None => {
            out.extend_from_slice("null".as_bytes());
        },
        Some(c) => {
            proof {
                assert(c.deep_view() =~= c@);
            }
            push_jstr(&mut out, c);
        },
    }
    out.extend_from_slice(",\"exam_year\":".as_bytes());
    push_jnum_opt(&mut out, &q.exam_year);
    out.extend_from_slice(",\"status\":".as_bytes());
    push_jstr(&mut out, &q.status);
    out.extend_from_slice(",\"next_review_at\":".as_bytes());
    push_jnum_opt(&mut out, &q.next_review_at);
    out.extend_from_slice(",\"correct_streak\":".as_bytes());
    let d = crate::bytes_util::u64_digits(q.correct_streak);
    out.extend_from_slice(d.as_slice());
    out.extend_from_slice(",\"last_reviewed_at\":".as_bytes());
    push_jnum_opt(&mut out, &q.last_reviewed_at);
    out.extend_from_slice("}".as_bytes());
    proof {
        assert(out@ =~= q_json(q@));
    }
    out
}

/// Serializes a list of records, as `qs_json` says.
#[verifier::rlimit(100)]
pub fn questions_to_json(qs: &Vec<Question>) -> (r: Vec<u8>)
    ensures
        r@ == qs_json(qs.deep_view()),
{
    let ghost dv = qs.deep_view();
    let mut out: Vec<u8> = Vec::new();
    if qs.len() == 0 {
        out.extend_from_slice("[]".as_bytes());
        return out;
    }
    out.push(0x5b);
    let first = question_to_json(&qs[0]);
    out.extend_from_slice(first.as_slice());
    let mut i: usize = 1;
    proof {
        assert(dv.skip(1).take(0) =~= Seq::<QModel>::empty());
        assert(q_items(dv.skip(1).take(0)) =~= Seq::<u8>::empty());
        assert(out@ =~= seq![0x5bu8] + q_json(dv[0]) + q_items(dv.skip(1).take(0)));
    }
    while i < qs.len()
        invariant
            1 <= i <= qs@.len(),
            dv == qs.deep_view(),
            dv.len() == qs@.len(),
            forall|k: int| 0 <= k < qs@.len() ==> dv[k] == qs@[k]@,
            out@ == seq![0x5bu8] + q_json(dv[0]) + q_items(dv.skip(1).take(i - 1)),
        decreases qs@.len() - i,
    {
        out.push(0x2c);
        let piece = question_to_json(&qs[i]);
        out.extend_from_slice(piece.as_slice());
        proof {
            let tail = dv.skip(1);
            assert(tail.take(i as int).drop_last() =~= tail.take(i - 1));
            assert(tail.take(i as int).last() == dv[i as int]);
            assert(out@ =~= seq![0x5bu8] + q_json(dv[0]) + q_items(tail.take(i as int)));
        }
        i = i + 1;
    }
    out.push(0x5d);
    proof {
        assert(dv.skip(1).take(i - 1) =~= dv.skip(1));
        assert(out@ =~= qs_json(dv));
    }
    out
}

} // verus!
