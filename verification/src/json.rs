use vstd::prelude::*;
use vstd::string::StringExecFns;

verus! {

/// Mathematical model of a JSON document, as `serde_json` represents one:
/// non-negative integers are stored as `u64`, negative integers as `i64`,
/// and floating-point numbers are collapsed into one constructor because no
/// contract of this crate depends on their value.
#[verifier::ext_equal]
pub ghost enum Json {
    Null,
    Bool(bool),
    UInt(u64),
    NInt(i64),
    InexactNum,
    Text(Seq<char>),
    Arr(Seq<Json>),
    Obj(Map<Seq<char>, Json>),
}

#[verifier::external_type_specification]
#[verifier::external_body]
pub struct ExValue(serde_json::Value);

/// The document held by a `serde_json::Value` tree.
pub uninterp spec fn value_model(v: serde_json::Value) -> Json;

/// What `serde_json` parsing yields on a given text: the document's value
/// tree, or nothing when the text is not valid JSON. Parsing is a pure
/// function of the input text.
pub uninterp spec fn parsed_json(s: Seq<char>) -> Option<Json>;

/// What lossy UTF-8 decoding yields on a given byte sequence; a pure function
/// of the bytes.
pub uninterp spec fn lossy_utf8(b: Seq<u8>) -> Seq<char>;

/// Relies on `serde_json::from_str::<Value>`: it returns the parsed value
/// tree of the text, or an error when the text is not valid JSON.
#[verifier::external_body]
pub(crate) fn parse_json(s: &str) -> (r: Result<serde_json::Value, String>)
    ensures
        match r {
            Ok(v) => parsed_json(s@) == Some(value_model(v)),
            Err(_) => parsed_json(s@) is None,
        },
{
    serde_json::from_str::<serde_json::Value>(s).map_err(|e| e.to_string())
}

/// Relies on `serde_json::Value::get` with a string index: on an object it
/// looks the key up; on any other value, or an absent key, it returns `None`.
#[verifier::external_body]
pub(crate) fn get_field<'a>(v: &'a serde_json::Value, key: &str) -> (r: Option<
    &'a serde_json::Value,
>)
    ensures
        match r {
            Some(w) => value_model(*v) matches Json::Obj(m) && m.contains_key(key@)
                && m[key@] == value_model(*w),
            None => !(value_model(*v) matches Json::Obj(m) && m.contains_key(key@)),
        },
{
    v.get(key)
}

/// Relies on `serde_json::Value::as_str`: `Some` exactly on JSON strings.
#[verifier::external_body]
pub(crate) fn as_text<'a>(v: &'a serde_json::Value) -> (r: Option<&'a str>)
    ensures
        match r {
            Some(s) => value_model(*v) == Json::Text(s@),
            None => !(value_model(*v) matches Json::Text(_)),
        },
{
    v.as_str()
}

/// Relies on `serde_json::Value::as_u64`: `Some` exactly on non-negative
/// integer numbers.
#[verifier::external_body]
pub(crate) fn as_uint(v: &serde_json::Value) -> (r: Option<u64>)
    ensures
        match r {
            Some(n) => value_model(*v) == Json::UInt(n),
            None => !(value_model(*v) matches Json::UInt(_)),
        },
{
    v.as_u64()
}

/// Relies on `serde_json::Value::as_i64`: `Some` exactly on integer numbers
/// that fit an `i64` (negative integers always do).
#[verifier::external_body]
pub(crate) fn as_int(v: &serde_json::Value) -> (r: Option<i64>)
    ensures
        match r {
            Some(n) => if n >= 0 {
                value_model(*v) == Json::UInt(n as u64)
            } else {
                value_model(*v) == Json::NInt(n)
            },
            None => !(value_model(*v) matches Json::UInt(u) && u <= i64::MAX)
                && !(value_model(*v) matches Json::NInt(_)),
        },
{
    v.as_i64()
}

/// Relies on `serde_json::Value::as_array`: `Some` exactly on JSON arrays,
/// handing back the elements in order.
#[verifier::external_body]
pub(crate) fn as_array<'a>(v: &'a serde_json::Value) -> (r: Option<&'a Vec<serde_json::Value>>)
    ensures
        match r {
            Some(a) => value_model(*v) matches Json::Arr(s) && s.len() == a@.len() && (forall|
                i: int,
            |
                0 <= i < s.len() ==> s[i] == value_model(a@[i])),
            None => !(value_model(*v) matches Json::Arr(_)),
        },
{
    v.as_array()
}

/// Relies on `String::from_utf8_lossy`: the output is a pure function of the
/// input bytes (ill-formed UTF-8 sequences become replacement characters).
#[verifier::external_body]
pub(crate) fn utf8_lossy(b: &[u8]) -> (r: String)
    ensures
        r@ == lossy_utf8(b@),
{
    String::from_utf8_lossy(b).into_owned()
}

/// Capability of a type to be carried as the `data` payload of a response
/// envelope: each value has a canonical JSON image, and decoding from a
/// parsed document succeeds exactly on the decodable documents, returning a
/// value whose image is the document itself.
pub trait ApiPayload: Sized {
    /// The canonical JSON image of the value.
    spec fn to_json(&self) -> Json;

    /// Whether some value of the type decodes from `j`.
    spec fn json_decodable(j: Json) -> bool;

    /// The image of a value is always decodable.
    proof fn lemma_image_decodable(&self)
        ensures
            Self::json_decodable(self.to_json()),
    ;

    /// Decode a value of the type from a parsed document.
    fn decode_json(v: &serde_json::Value) -> (r: Option<Self>)
        ensures
            match r {
                Some(t) => Self::json_decodable(value_model(*v)) && t.to_json() == value_model(*v),
                None => !Self::json_decodable(value_model(*v)),
            },
    ;
}

impl ApiPayload for String {
    open spec fn to_json(&self) -> Json {
        Json::Text(self@)
    }

    open spec fn json_decodable(j: Json) -> bool {
        j matches Json::Text(_)
    }

    proof fn lemma_image_decodable(&self) {
    }

    fn decode_json(v: &serde_json::Value) -> (r: Option<String>) {
        match as_text(v) {
            Some(s) => Some(s.to_owned()),
            None => None,
        }
    }
}

impl ApiPayload for u32 {
    open spec fn to_json(&self) -> Json {
        Json::UInt(*self as u64)
    }

    open spec fn json_decodable(j: Json) -> bool {
        j matches Json::UInt(n) && n <= u32::MAX
    }

    proof fn lemma_image_decodable(&self) {
    }

    fn decode_json(v: &serde_json::Value) -> (r: Option<u32>) {
        match as_uint(v) {
            Some(n) => if n <= u32::MAX as u64 {
                Some(n as u32)
            } else {
                None
            },
            None => None,
        }
    }
}

impl ApiPayload for i32 {
    open spec fn to_json(&self) -> Json {
        if *self >= 0 {
            Json::UInt(*self as u64)
        } else {
            Json::NInt(*self as i64)
        }
    }

    open spec fn json_decodable(j: Json) -> bool {
        ||| j matches Json::UInt(n) && n <= i32::MAX
        ||| j matches Json::NInt(n) && i32::MIN <= n < 0
    }

    proof fn lemma_image_decodable(&self) {
    }

    fn decode_json(v: &serde_json::Value) -> (r: Option<i32>) {
        match as_int(v) {
            Some(n) => if i32::MIN as i64 <= n && n <= i32::MAX as i64 {
                Some(n as i32)
            } else {
                None
            },
            None => None,
        }
    }
}

impl ApiPayload for u8 {
    open spec fn to_json(&self) -> Json {
        Json::UInt(*self as u64)
    }

    open spec fn json_decodable(j: Json) -> bool {
        j matches Json::UInt(n) && n <= u8::MAX
    }

    proof fn lemma_image_decodable(&self) {
    }

    fn decode_json(v: &serde_json::Value) -> (r: Option<u8>) {
        match as_uint(v) {
            Some(n) => if n <= u8::MAX as u64 {
                Some(n as u8)
            } else {
                None
            },
            None => None,
        }
    }
}

impl ApiPayload for (i32, String) {
    open spec fn to_json(&self) -> Json {
        Json::Arr(seq![self.0.to_json(), Json::Text(self.1@)])
    }

    open spec fn json_decodable(j: Json) -> bool {
        j matches Json::Arr(s) && s.len() == 2 && <i32 as ApiPayload>::json_decodable(s[0]) && (
        s[1] matches Json::Text(_))
    }

    proof fn lemma_image_decodable(&self) {
        self.0.lemma_image_decodable();
    }

    fn decode_json(v: &serde_json::Value) -> (r: Option<(i32, String)>) {
        let arr = match as_array(v) {
            Some(a) => a,
            None => {
                return None;
            },
        };
        if arr.len() != 2 {
            return None;
        }
        let first = match <i32 as ApiPayload>::decode_json(&arr[0]) {
            Some(n) => n,
            None => {
                return None;
            },
        };
        let second = match <String as ApiPayload>::decode_json(&arr[1]) {
            Some(sv) => sv,
            None => {
                return None;
            },
        };
        proof {
            let s = value_model(*v)->Arr_0;
            assert(seq![first.to_json(), Json::Text(second@)] =~= s);
        }
        Some((first, second))
    }
}

impl<T: ApiPayload> ApiPayload for Vec<T> {
    open spec fn to_json(&self) -> Json {
        Json::Arr(self@.map_values(|t: T| t.to_json()))
    }

    open spec fn json_decodable(j: Json) -> bool {
        j matches Json::Arr(s) && (forall|i: int|
            0 <= i < s.len() ==> T::json_decodable(#[trigger] s[i]))
    }

    proof fn lemma_image_decodable(&self) {
        let s = self@.map_values(|t: T| t.to_json());
        assert forall|i: int| 0 <= i < s.len() implies T::json_decodable(#[trigger] s[i]) by {
            self@[i].lemma_image_decodable();
        }
    }

    fn decode_json(v: &serde_json::Value) -> (r: Option<Vec<T>>) {
        let arr = match as_array(v) {
            Some(a) => a,
            None => {
                return None;
            },
        };
        let mut out: Vec<T> = Vec::new();
        let mut i: usize = 0;
        while i < arr.len()
            invariant
                i <= arr.len(),
                value_model(*v) matches Json::Arr(s) && s.len() == arr@.len() && (forall|k: int|
                    0 <= k < s.len() ==> s[k] == value_model(arr@[k])),
                out@.len() == i,
                forall|k: int| 0 <= k < i ==> (#[trigger] out@[k]).to_json() == value_model(
                    arr@[k],
                ),
            decreases arr.len() - i,
        {
            match T::decode_json(&arr[i]) {
                Some(t) => out.push(t),
                None => {
                    proof {
                        let s = value_model(*v)->Arr_0;
                        assert(s[i as int] == value_model(arr@[i as int]));
                        assert(!T::json_decodable(s[i as int]));
                    }
                    return None;
                },
            }
            i += 1;
        }
        proof {
            let s = value_model(*v)->Arr_0;
            assert(out@.map_values(|t: T| t.to_json()) =~= s);
            assert forall|k: int| 0 <= k < s.len() implies T::json_decodable(#[trigger] s[k]) by {
                out@[k].lemma_image_decodable();
                assert(out@[k].to_json() == s[k]);
            }
        }
        Some(out)
    }
}

} // verus!
