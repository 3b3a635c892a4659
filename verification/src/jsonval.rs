use vstd::prelude::*;

verus! {

/// Mathematical model of a JSON document. Strings are byte sequences
/// (UTF-8), and numbers are reduced to what this library ever reads:
/// an integer that fits in `i64`, or `NonIntNum` for any other number.
pub enum Json {
    Null,
    Bool(bool),
    Int(i64),
    NonIntNum,
    Str(Seq<u8>),
    Arr(Seq<Json>),
    Obj(Seq<(Seq<u8>, Json)>),
}

/// Executable JSON tree mirroring `Json`. Object fields keep the order
/// in which the parser handed them over.
pub enum JsonVal {
    Null,
    Bool(bool),
    Int(i64),
    NonIntNum,
    Str(Vec<u8>),
    Arr(Vec<JsonVal>),
    Obj(Vec<(Vec<u8>, JsonVal)>),
}

/// The mathematical document an executable tree stands for.
pub open spec fn model(v: JsonVal) -> Json
    decreases v,
{
    match v {
        JsonVal::Null => Json::Null,
        JsonVal::Bool(b) => Json::Bool(b),
        JsonVal::Int(i) => Json::Int(i),
        JsonVal::NonIntNum => Json::NonIntNum,
        JsonVal::Str(s) => Json::Str(s@),
        JsonVal::Arr(a) => Json::Arr(model_list(a@)),
        JsonVal::Obj(o) => Json::Obj(model_fields(o@)),
    }
}

pub open spec fn model_list(s: Seq<JsonVal>) -> Seq<Json>
    decreases s,
{
    if s.len() == 0 {
        Seq::empty()
    } else {
        seq![model(s[0])] + model_list(s.subrange(1, s.len() as int))
    }
}

pub open spec fn model_fields(o: Seq<(Vec<u8>, JsonVal)>) -> Seq<(Seq<u8>, Json)>
    decreases o,
{
    if o.len() == 0 {
        Seq::empty()
    } else {
        seq![(o[0].0@, model(o[0].1))] + model_fields(o.subrange(1, o.len() as int))
    }
}

/// `model_list` maps the sequence element by element.
pub proof fn lemma_model_list(s: Seq<JsonVal>)
    ensures
        model_list(s).len() == s.len(),
        forall|i: int| 0 <= i < s.len() ==> model_list(s)[i] == model(s[i]),
    decreases s.len(),
{
    if s.len() > 0 {
        lemma_model_list(s.subrange(1, s.len() as int));
    }
}

/// `model_fields` maps the field list element by element.
pub proof fn lemma_model_fields(o: Seq<(Vec<u8>, JsonVal)>)
    ensures
        model_fields(o).len() == o.len(),
        forall|i: int|
            0 <= i < o.len() ==> model_fields(o)[i] == (o[i].0@, model(o[i].1)),
    decreases o.len(),
{
    if o.len() > 0 {
        lemma_model_fields(o.subrange(1, o.len() as int));
    }
}

impl JsonVal {
    /// Looks `key` up among an object's fields (first match); `None` on
    /// any other shape, or when the key is absent.
    pub fn get<'a>(&'a self, key: &[u8]) -> (r: Option<&'a JsonVal>)
        ensures
            match r {
                Some(v) => jget(model(*self), key@) == Some(model(*v)),
                None => jget(model(*self), key@) is None,
            },
    {
        match self {
            JsonVal::Obj(fields) => {
                let ghost mf = model_fields(fields@);
                proof {
                    lemma_model_fields(fields@);
                    assert(mf.skip(0) =~= mf);
                }
                let mut i: usize = 0;
                while i < fields.len()
                    invariant
                        0 <= i <= fields@.len(),
                        mf == model_fields(fields@),
                        mf.len() == fields@.len(),
                        forall|k: int|
                            0 <= k < fields@.len() ==> mf[k] == (fields@[k].0@, model(
                                fields@[k].1,
                            )),
                        *self == JsonVal::Obj(*fields),
                        obj_get(mf, key@) == obj_get(mf.skip(i as int), key@),
                    decreases fields@.len() - i,
                {
                    let pair = &fields[i];
                    if crate::bytes_util::bytes_eq(pair.0.as_slice(), key) {
                        proof {
                            assert(mf.skip(i as int)[0] == mf[i as int]);
                        }
                        return Some(&pair.1);
                    }
                    proof {
                        assert(mf.skip(i as int)[0] == mf[i as int]);
                        assert(mf.skip(i as int).skip(1) =~= mf.skip(i as int + 1));
                    }
                    i = i + 1;
                }
                proof {
                    assert(mf.skip(i as int) =~= Seq::<(Seq<u8>, Json)>::empty());
                }
                None
            },
            _ => None,
        }
    }
}

/// First binding of `key` among `fields`.
pub open spec fn obj_get(fields: Seq<(Seq<u8>, Json)>, key: Seq<u8>) -> Option<Json>
    decreases fields.len(),
{
    if fields.len() == 0 {
        None
    } else if fields[0].0 == key {
        Some(fields[0].1)
    } else {
        obj_get(fields.skip(1), key)
    }
}

/// Field lookup on a JSON value: `None` unless `v` is an object with the key.
pub open spec fn jget(v: Json, key: Seq<u8>) -> Option<Json> {
    match v {
        Json::Obj(fields) => obj_get(fields, key),
        _ => None,
    }
}

/// What the JSON parser reads out of `s`: `None` when `s` is not one
/// well-formed JSON document, otherwise the document, with numbers
/// projected as `Json` holds them.
pub uninterp spec fn json_of(s: Seq<u8>) -> Option<Json>;

#[verifier::external_type_specification]
#[verifier::external_body]
pub struct ExSerdeValue(serde_json::Value);

/// Relies on `serde_json::from_slice::<serde_json::Value>`: parses the
/// bytes as one JSON document, `Err` exactly on malformed input, carrying
/// the parser's message.
#[verifier::external_body]
pub(crate) fn parse_json(s: &[u8]) -> (r: Result<JsonVal, Vec<u8>>)
    ensures
        match r {
            Ok(v) => json_of(s@) == Some(model(v)),
            Err(_) => json_of(s@) is None,
        },
{
    match serde_json::from_slice::<serde_json::Value>(s) {
        Ok(v) => Ok(value_to_tree(v)),
        Err(e) => Err(e.to_string().into_bytes()),
    }
}

/// Relies on `serde_json::Value`: rebuilds the parsed document as the
/// library's own tree, variant by variant; part of `parse_json`'s trust.
#[verifier::external_body]
fn value_to_tree(v: serde_json::Value) -> JsonVal {
    match v {
        serde_json::Value::Null => JsonVal::Null,
        serde_json::Value::Bool(b) => JsonVal::Bool(b),
        serde_json::Value::Number(n) => match n.as_i64() {
            Some(i) => JsonVal::Int(i),
            None => JsonVal::NonIntNum,
        },
        serde_json::Value::String(s) => JsonVal::Str(s.into_bytes()),
        serde_json::Value::Array(a) => JsonVal::Arr(a.into_iter().map(value_to_tree).collect()),
        serde_json::Value::Object(m) => JsonVal::Obj(
            m.into_iter().map(|p| (p.0.into_bytes(), value_to_tree(p.1))).collect(),
        ),
    }
}

} // verus!
