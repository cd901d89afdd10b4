//! JSON values as the tools and the model exchange them.

use vstd::prelude::*;

verus! {

/// A JSON number: an integer that fits `u64` or `i64`, or any other number
/// kept in its shortest decimal text.
pub enum JsonNumber {
    PosInt(u64),
    NegInt(i64),
    Float(String),
}

/// A JSON value.
pub enum JsonValue {
    Null,
    Bool(bool),
    Number(JsonNumber),
    String(String),
    Array(Vec<JsonValue>),
    Object(Vec<(String, JsonValue)>),
}

/// Mathematical model of a JSON number.
pub enum NumberModel {
    PosInt(u64),
    NegInt(i64),
    Float(Seq<char>),
}

/// Mathematical model of a JSON value.
pub enum JsonModel {
    Null,
    Bool(bool),
    Number(NumberModel),
    String(Seq<char>),
    Array(Seq<JsonModel>),
    Object(Seq<(Seq<char>, JsonModel)>),
}

impl JsonNumber {
    pub open spec fn model(&self) -> NumberModel {
        match self {
            JsonNumber::PosInt(n) => NumberModel::PosInt(*n),
            JsonNumber::NegInt(n) => NumberModel::NegInt(*n),
            JsonNumber::Float(t) => NumberModel::Float(t@),
        }
    }
}

impl JsonValue {
    pub open spec fn model(self) -> JsonModel
        decreases self,
    {
        match self {
            JsonValue::Null => JsonModel::Null,
            JsonValue::Bool(b) => JsonModel::Bool(b),
            JsonValue::Number(n) => JsonModel::Number(n.model()),
            JsonValue::String(s) => JsonModel::String(s@),
            JsonValue::Array(a) => JsonModel::Array(
                Seq::new(a@.len(), |i: int| if 0 <= i < a@.len() { a@[i].model() } else { JsonModel::Null }),
            ),
            JsonValue::Object(o) => JsonModel::Object(
                Seq::new(o@.len(), |i: int| if 0 <= i < o@.len() { (o@[i].0@, o@[i].1.model()) } else { (Seq::empty(), JsonModel::Null) }),
            ),
        }
    }
}


impl View for JsonValue {
    type V = JsonModel;

    open spec fn view(&self) -> JsonModel {
        self.model()
    }
}

/// Value stored under `key` in an object's entries (the first one with that key).
pub open spec fn entries_get(entries: Seq<(Seq<char>, JsonModel)>, key: Seq<char>) -> Option<
    JsonModel,
>
    decreases entries.len(),
{
    if entries.len() == 0 {
        None
    } else if entries[0].0 == key {
        Some(entries[0].1)
    } else {
        entries_get(entries.drop_first(), key)
    }
}

/// `Value::get(key)`: the member of an object, or nothing for other values.
pub open spec fn model_get(m: JsonModel, key: Seq<char>) -> Option<JsonModel> {
    match m {
        JsonModel::Object(entries) => entries_get(entries, key),
        _ => None,
    }
}

/// `Value::as_str`.
pub open spec fn model_as_str(m: JsonModel) -> Option<Seq<char>> {
    match m {
        JsonModel::String(s) => Some(s),
        _ => None,
    }
}

/// `Value::as_u64`.
pub open spec fn model_as_u64(m: JsonModel) -> Option<u64> {
    match m {
        JsonModel::Number(NumberModel::PosInt(n)) => Some(n),
        _ => None,
    }
}

/// `value.get(key).and_then(|v| v.as_str())`.
pub open spec fn str_field(m: JsonModel, key: Seq<char>) -> Option<Seq<char>> {
    match model_get(m, key) {
        Some(v) => model_as_str(v),
        None => None,
    }
}

/// `value.get(key).and_then(|v| v.as_u64())`.
pub open spec fn u64_field(m: JsonModel, key: Seq<char>) -> Option<u64> {
    match model_get(m, key) {
        Some(v) => model_as_u64(v),
        None => None,
    }
}

proof fn lemma_entries_get_step(entries: Seq<(Seq<char>, JsonModel)>, key: Seq<char>, i: int)
    requires
        0 <= i < entries.len(),
        forall|k: int| 0 <= k < i ==> entries[k].0 != key,
    ensures
        entries_get(entries, key) == entries_get(entries.skip(i), key),
    decreases i,
{
    if i > 0 {
        assert(entries[0].0 != key);
        assert(entries.skip(1) =~= entries.drop_first());
        lemma_entries_get_step(entries.drop_first(), key, i - 1);
        assert(entries.drop_first().skip(i - 1) =~= entries.skip(i));
    } else {
        assert(entries.skip(0) =~= entries);
    }
}

proof fn lemma_entries_get_none(entries: Seq<(Seq<char>, JsonModel)>, key: Seq<char>)
    requires
        forall|k: int| 0 <= k < entries.len() ==> entries[k].0 != key,
    ensures
        entries_get(entries, key) is None,
    decreases entries.len(),
{
    if entries.len() > 0 {
        lemma_entries_get_none(entries.drop_first(), key);
    }
}

pub fn str_eq(a: &str, b: &str) -> (r: bool)
    ensures
        r == (a@ == b@),
{
    let va = crate::text::chars_of(a);
    let vb = crate::text::chars_of(b);
    if va.len() != vb.len() {
        return false;
    }
    let mut i: usize = 0;
    while i < va.len()
        invariant
            va.len() == vb.len(),
            va@ == a@,
            vb@ == b@,
            i <= va.len(),
            forall|k: int| 0 <= k < i ==> va@[k] == vb@[k],
        decreases va.len() - i,
    {
        if va[i] != vb[i] {
            assert(va@[i as int] != vb@[i as int]);
            return false;
        }
        i = i + 1;
    }
    assert(va@ =~= vb@);
    true
}

impl JsonValue {
    /// `Value::get(key)`.
    pub fn get(&self, key: &str) -> (r: Option<&JsonValue>)
        ensures
            match r {
                Some(v) => model_get(self@, key@) == Some(v@),
                None => model_get(self@, key@) is None,
            },
    {
        match self {
            JsonValue::Object(entries) => {
                let ghost em = self@->Object_0;
                assert(em.len() == entries@.len());
                let mut i: usize = 0;
                while i < entries.len()
                    invariant
                        i <= entries@.len(),
                        em == self@->Object_0,
                        self@ == JsonModel::Object(em),
                        em.len() == entries@.len(),
                        forall|k: int| 0 <= k < entries@.len() ==> #[trigger] em[k] == (entries@[k].0@, entries@[k].1@),
                        forall|k: int| 0 <= k < i ==> em[k].0 != key@,
                    decreases entries.len() - i,
                {
                    if str_eq(entries[i].0.as_str(), key) {
                        proof {
                            lemma_entries_get_step(em, key@, i as int);
                            let tail = em.skip(i as int);
                            assert(tail[0] == em[i as int]);
                            assert(em[i as int] == (entries@[i as int].0@, entries@[i as int].1@));
                            assert(tail[0].0 == key@);
                            assert(entries_get(tail, key@) == Some(tail[0].1));
                        }
                        return Some(&entries[i].1);
                    }
                    i = i + 1;
                }
                proof {
                    lemma_entries_get_none(em, key@);
                }
                None
            },
            _ => None,
        }
    }

    /// `Value::as_str`.
    pub fn as_str(&self) -> (r: Option<&str>)
        ensures
            match r {
                Some(s) => model_as_str(self@) == Some(s@),
                None => model_as_str(self@) is None,
            },
    {
        match self {
            JsonValue::String(s) => Some(s.as_str()),
            _ => None,
        }
    }

    /// `Value::as_u64`.
    pub fn as_u64(&self) -> (r: Option<u64>)
        ensures
            r == model_as_u64(self@),
    {
        match self {
            JsonValue::Number(JsonNumber::PosInt(n)) => Some(*n),
            _ => None,
        }
    }

    /// `value.get(key).and_then(|v| v.as_str())`, copied out.
    pub fn get_str(&self, key: &str) -> (r: Option<String>)
        ensures
            match r {
                Some(s) => str_field(self@, key@) == Some(s@),
                None => str_field(self@, key@) is None,
            },
    {
        match self.get(key) {
            Some(v) => match v.as_str() {
                Some(s) => Some(s.to_owned()),
                None => None,
            },
            None => None,
        }
    }

    /// `value.get(key).and_then(|v| v.as_u64())`.
    pub fn get_u64(&self, key: &str) -> (r: Option<u64>)
        ensures
            r == u64_field(self@, key@),
    {
        match self.get(key) {
            Some(v) => v.as_u64(),
            None => None,
        }
    }

    /// A copy with the same model.
    pub fn deep_clone(&self) -> (r: JsonValue)
        ensures
            r@ == self@,
        decreases self,
    {
        match self {
            JsonValue::Null => JsonValue::Null,
            JsonValue::Bool(b) => JsonValue::Bool(*b),
            JsonValue::Number(JsonNumber::PosInt(n)) => JsonValue::Number(JsonNumber::PosInt(*n)),
            JsonValue::Number(JsonNumber::NegInt(n)) => JsonValue::Number(JsonNumber::NegInt(*n)),
            JsonValue::Number(JsonNumber::Float(t)) => JsonValue::Number(JsonNumber::Float(t.clone())),
            JsonValue::String(s) => JsonValue::String(s.clone()),
            JsonValue::Array(a) => {
                let mut out: Vec<JsonValue> = Vec::new();
                let mut i: usize = 0;
                while i < a.len()
                    invariant
                        i <= a@.len(),
                        *self == JsonValue::Array(*a),
                        out@.len() == i,
                        forall|k: int| 0 <= k < i ==> #[trigger] out@[k]@ == a@[k]@,
                    decreases a.len() - i,
                {
                    proof {
                        assert(*a == self->Array_0);
                        assert(decreases_to!(*self => self->Array_0));
                        assert(decreases_to!(*a => a@));
                        assert(decreases_to!(a@ => a@[i as int]));
                    }
                    let c = a[i].deep_clone();
                    out.push(c);
                    i = i + 1;
                }
                let ghost outs = out@;
                let r = JsonValue::Array(out);
                assert forall|k: int| 0 <= k < outs.len() implies #[trigger] r@->Array_0[k] == self@->Array_0[k] by {
                    assert(outs[k]@ == a@[k]@);
                }
                assert(r@->Array_0 =~= self@->Array_0);
                r
            },
            JsonValue::Object(o) => {
                let mut out: Vec<(String, JsonValue)> = Vec::new();
                let mut i: usize = 0;
                while i < o.len()
                    invariant
                        i <= o@.len(),
                        *self == JsonValue::Object(*o),
                        out@.len() == i,
                        forall|k: int| 0 <= k < i ==> #[trigger] out@[k].0@ == o@[k].0@ && out@[k].1@ == o@[k].1@,
                    decreases o.len() - i,
                {
                    proof {
                        assert(*o == self->Object_0);
                        assert(decreases_to!(*self => self->Object_0));
                        assert(decreases_to!(*o => o@));
                        assert(decreases_to!(o@ => o@[i as int]));
                        assert(decreases_to!(o@[i as int] => o@[i as int].1));
                    }
                    let c = o[i].1.deep_clone();
                    out.push((o[i].0.clone(), c));
                    i = i + 1;
                }
                let r = JsonValue::Object(out);
                assert(r@->Object_0 =~= self@->Object_0);
                r
            },
        }
    }
}

/// Model of a one-level JSON schema property: `{"type": .., "description": ..}`.
pub open spec fn property_model(typ: Seq<char>, desc: Seq<char>) -> JsonModel {
    JsonModel::Object(
        seq![
            ("type"@, JsonModel::String(typ)),
            ("description"@, JsonModel::String(desc)),
        ],
    )
}

/// Model of an object schema with the given `(name, type, description)`
/// properties and, when present, the list of required property names.
pub open spec fn object_schema_model(
    props: Seq<(Seq<char>, Seq<char>, Seq<char>)>,
    required: Option<Seq<Seq<char>>>,
) -> JsonModel {
    let properties = JsonModel::Object(
        Seq::new(props.len(), |i: int| (props[i].0, property_model(props[i].1, props[i].2))),
    );
    let base = seq![("type"@, JsonModel::String("object"@)), ("properties"@, properties)];
    match required {
        Some(req) => JsonModel::Object(
            base.push(
                ("required"@, JsonModel::Array(Seq::new(req.len(), |i: int| JsonModel::String(req[i])))),
            ),
        ),
        None => JsonModel::Object(base),
    }
}

/// Builds an object schema: `{"type": "object", "properties": {..}, "required": [..]}`.
pub fn object_schema(props: &Vec<(&str, &str, &str)>, required: Option<&Vec<&str>>) -> (r: JsonValue)
    ensures
        r@ == object_schema_model(
            props@.map_values(|p: (&str, &str, &str)| (p.0@, p.1@, p.2@)),
            match required {
                Some(req) => Some(req@.map_values(|s: &str| s@)),
                None => None,
            },
        ),
{
    let ghost pm = props@.map_values(|p: (&str, &str, &str)| (p.0@, p.1@, p.2@));
    let mut entries: Vec<(String, JsonValue)> = Vec::new();
    let mut i: usize = 0;
    while i < props.len()
        invariant
            i <= props@.len(),
            pm == props@.map_values(|p: (&str, &str, &str)| (p.0@, p.1@, p.2@)),
            entries@.len() == i,
            forall|k: int| 0 <= k < i ==> #[trigger] entries@[k].0@ == pm[k].0 && entries@[k].1@
                == property_model(pm[k].1, pm[k].2),
        decreases props.len() - i,
    {
        let (name, typ, desc) = props[i];
        let prop = JsonValue::Object(vec![
            (String::from_str("type"), json_str(typ)),
            (String::from_str("description"), json_str(desc)),
        ]);
        proof {
            let ghost pv = prop@->Object_0;
            assert(pv =~= property_model(typ@, desc@)->Object_0);
        }
        entries.push((name.to_owned(), prop));
        i = i + 1;
    }
    let ghost em = entries@;
    let properties = JsonValue::Object(entries);
    assert(properties@ =~= JsonModel::Object(
        Seq::new(pm.len(), |k: int| (pm[k].0, property_model(pm[k].1, pm[k].2))),
    )) by {
        assert(properties@->Object_0 =~= Seq::new(pm.len(), |k: int| (pm[k].0, property_model(pm[k].1, pm[k].2))));
    }
    let mut top: Vec<(String, JsonValue)> = vec![
        (String::from_str("type"), json_str("object")),
        (String::from_str("properties"), properties),
    ];
    match required {
        Some(req) => {
            let mut arr: Vec<JsonValue> = Vec::new();
            let mut j: usize = 0;
            while j < req.len()
                invariant
                    j <= req@.len(),
                    arr@.len() == j,
                    forall|k: int| 0 <= k < j ==> #[trigger] arr@[k]@ == JsonModel::String(req@[k]@),
                decreases req.len() - j,
            {
                arr.push(json_str(req[j]));
                j = j + 1;
            }
            let ghost am = arr@;
            let a = JsonValue::Array(arr);
            assert(a@->Array_0 =~= Seq::new(req@.len(), |k: int| JsonModel::String(req@.map_values(|s: &str| s@)[k]))) by {
                assert forall|k: int| 0 <= k < am.len() implies #[trigger] a@->Array_0[k] == JsonModel::String(req@.map_values(|s: &str| s@)[k]) by {
                    assert(am[k]@ == JsonModel::String(req@[k]@));
                }
            }
            top.push((String::from_str("required"), a));
        },
        None => {},
    }
    let r = JsonValue::Object(top);
    assert(r@->Object_0 =~= object_schema_model(
        pm,
        match required {
            Some(req) => Some(req@.map_values(|s: &str| s@)),
            None => None,
        },
    )->Object_0);
    r
}

/// Builds a JSON string value from a string slice.
pub fn json_str(s: &str) -> (r: JsonValue)
    ensures
        r@ == JsonModel::String(s@),
{
    JsonValue::String(s.to_owned())
}

// ---------------------------------------------------------------------------
// Text form, through serde_json
// ---------------------------------------------------------------------------

#[verifier::external_type_specification]
#[verifier::external_body]
pub struct ExSerdeValue(serde_json::Value);

/// The compact JSON text that serde_json writes for a value (its `Display`).
pub uninterp spec fn json_compact_text(m: JsonModel) -> Seq<char>;

/// What serde_json's `from_str` makes of a text: the value, or the message of
/// its error.
pub uninterp spec fn json_parse_text(s: Seq<char>) -> Result<JsonModel, Seq<char>>;

/// Rebuilds a number as a `serde_json::Value` (a number; a decimal text
/// that is no JSON number becomes null).
#[verifier::external_body]
fn number_to_serde(n: &JsonNumber) -> serde_json::Value {
    match n {
        JsonNumber::PosInt(u) => serde_json::Value::from(*u),
        JsonNumber::NegInt(i) => serde_json::Value::from(*i),
        JsonNumber::Float(t) => t.parse::<serde_json::Number>().map(serde_json::Value::Number).unwrap_or(
            serde_json::Value::Null,
        ),
    }
}

/// Rebuilds a value as a `serde_json::Value`, variant for variant.
#[verifier::external_body]
fn to_serde_value(v: &JsonValue) -> serde_json::Value {
    match v {
        JsonValue::Null => serde_json::Value::Null,
        JsonValue::Bool(b) => serde_json::Value::Bool(*b),
        JsonValue::Number(n) => number_to_serde(n),
        JsonValue::String(s) => serde_json::Value::String(s.clone()),
        JsonValue::Array(a) => serde_json::Value::Array(a.iter().map(to_serde_value).collect()),
        JsonValue::Object(o) => serde_json::Value::Object(o.iter().map(|(k, x)| (k.clone(), to_serde_value(x))).collect()),
    }
}

/// Rebuilds a `serde_json::Value` that holds a number as a library number:
/// an unsigned integer, a negative one, or the decimal text of any other number.
#[verifier::external_body]
fn number_from_serde(n: &serde_json::Value) -> JsonNumber {
    match (n.as_u64(), n.as_i64()) {
        (Some(u), _) => JsonNumber::PosInt(u),
        (None, Some(i)) => JsonNumber::NegInt(i),
        (None, None) => JsonNumber::Float(n.to_string()),
    }
}

/// Rebuilds a `serde_json::Value` as a library value, variant for variant.
#[verifier::external_body]
fn from_serde_value(v: &serde_json::Value) -> JsonValue {
    match v {
        serde_json::Value::Null => JsonValue::Null,
        serde_json::Value::Bool(b) => JsonValue::Bool(*b),
        serde_json::Value::Number(_) => JsonValue::Number(number_from_serde(v)),
        serde_json::Value::String(s) => JsonValue::String(s.clone()),
        serde_json::Value::Array(a) => JsonValue::Array(a.iter().map(from_serde_value).collect()),
        serde_json::Value::Object(o) => JsonValue::Object(o.iter().map(|(k, x)| (k.clone(), from_serde_value(x))).collect()),
    }
}

/// `serde_json::Value`'s `Display` (compact JSON text) of the value.
#[verifier::external_body]
pub(crate) fn json_to_text(v: &JsonValue) -> (r: String)
    ensures
        r@ == json_compact_text(v@),
{
    to_serde_value(v).to_string()
}

/// `serde_json::from_str::<serde_json::Value>`: the parsed value, or the
/// `Display` of the error.
#[verifier::external_body]
pub(crate) fn json_from_text(s: &str) -> (r: Result<JsonValue, String>)
    ensures
        match r {
            Ok(v) => json_parse_text(s@) == Ok::<JsonModel, Seq<char>>(v@),
            Err(e) => json_parse_text(s@) == Err::<JsonModel, Seq<char>>(e@),
        },
{
    match serde_json::from_str::<serde_json::Value>(s) {
        Ok(v) => Ok(from_serde_value(&v)),
        Err(e) => Err(e.to_string()),
    }
}

} // verus!
