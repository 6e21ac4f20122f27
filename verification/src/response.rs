use crate::error::Error;
use crate::json::{
    as_text, as_uint, get_field, parse_json, parsed_json, value_model, ApiPayload, Json,
};
use vstd::prelude::*;
use vstd::string::StringExecFns;

verus! {

/// Capability of a type to produce a canonical zero/empty value.
///
/// Every payload type carried by an [`ApiResponse`] must supply one, so that
/// an envelope recovered from a status-only body can still hand the caller a
/// well-typed `data` field without inventing domain data.
pub trait ApiDefault: Sized {
    /// Whether `self` is the canonical zero/empty value of the type.
    spec fn is_default(&self) -> bool;

    /// Produce the canonical zero/empty value.
    fn default_value() -> (r: Self)
        ensures
            r.is_default(),
    ;
}

impl ApiDefault for i32 {
    open spec fn is_default(&self) -> bool {
        *self == 0
    }

    fn default_value() -> (r: i32) {
        0
    }
}

impl ApiDefault for u32 {
    open spec fn is_default(&self) -> bool {
        *self == 0
    }

    fn default_value() -> (r: u32) {
        0
    }
}

impl ApiDefault for String {
    open spec fn is_default(&self) -> bool {
        self@ == Seq::<char>::empty()
    }

    fn default_value() -> (r: String) {
        let r = String::new();
        proof {
            assert(r@ =~= Seq::<char>::empty());
        }
        r
    }
}

impl<T> ApiDefault for Vec<T> {
    open spec fn is_default(&self) -> bool {
        self@ == Seq::<T>::empty()
    }

    fn default_value() -> (r: Vec<T>) {
        let r = Vec::new();
        proof {
            assert(r@ =~= Seq::<T>::empty());
        }
        r
    }
}

impl<T> ApiDefault for Option<T> {
    open spec fn is_default(&self) -> bool {
        *self is None
    }

    fn default_value() -> (r: Option<T>) {
        None
    }
}

/// The subset of the envelope that every backend reply is guaranteed to carry,
/// even when the typed `data` field is absent or malformed. Used only as an
/// intermediate recovery value during decoding.
#[derive(Debug, Clone, PartialEq, Eq)]
pub struct RawApiResponse {
    pub status: String,
    pub message: String,
    pub code: u16,
}

/// The uniform response envelope exchanged on every call: a status string
/// (`"success"`, `"failed"`, or another marker), a human-readable message, an
/// HTTP-derived code, and a typed payload that is always present.
#[derive(Debug, Clone, PartialEq, Eq)]
pub struct ApiResponse<T> {
    pub status: String,
    pub message: String,
    pub code: u16,
    pub data: T,
}

impl<T: ApiDefault> ApiResponse<T> {
    /// Direct construction from parts; no validation beyond typing.
    pub fn new(status: &str, message: &str, code: u16, data: T) -> (r: Self)
        ensures
            r.status@ == status@,
            r.message@ == message@,
            r.code == code,
            r.data == data,
    {
        ApiResponse {
            status: String::from_str(status),
            message: String::from_str(message),
            code,
            data,
        }
    }

    /// Construct an envelope whose payload is the type's zero value,
    /// preserving the given status, message and code. This is the recovery
    /// path used when only a [`RawApiResponse`] could be decoded.
    pub fn with_default(status: &str, message: &str, code: u16) -> (r: Self)
        ensures
            r.status@ == status@,
            r.message@ == message@,
            r.code == code,
            r.data.is_default(),
    {
        ApiResponse {
            status: String::from_str(status),
            message: String::from_str(message),
            code,
            data: T::default_value(),
        }
    }
}

/// Spec-level model of a raw (status-only) envelope.
#[verifier::ext_equal]
pub ghost struct RawModel {
    pub status: Seq<char>,
    pub message: Seq<char>,
    pub code: u16,
}

/// Spec-level model of a typed envelope; the payload appears as its JSON
/// image, so the model is independent of the payload's Rust type.
#[verifier::ext_equal]
pub ghost struct EnvModel {
    pub status: Seq<char>,
    pub message: Seq<char>,
    pub code: u16,
    pub data: Json,
}

pub open spec fn is_text(j: Json) -> bool {
    j matches Json::Text(_)
}

pub open spec fn text_of(j: Json) -> Seq<char>
    recommends
        is_text(j),
{
    j->Text_0
}

pub open spec fn is_code(j: Json) -> bool {
    j matches Json::UInt(n) && n <= u16::MAX
}

pub open spec fn code_of(j: Json) -> u16
    recommends
        is_code(j),
{
    j->UInt_0 as u16
}

pub open spec fn obj_fields(j: Json) -> Map<Seq<char>, Json>
    recommends
        j matches Json::Obj(_),
{
    j->Obj_0
}

/// The document is an object carrying at least well-typed `status`, `message`
/// and `code` members: the shape every backend reply guarantees.
pub open spec fn raw_shape(j: Json) -> bool {
    &&& j matches Json::Obj(m)
    &&& m.contains_key("status"@) && is_text(m["status"@])
    &&& m.contains_key("message"@) && is_text(m["message"@])
    &&& m.contains_key("code"@) && is_code(m["code"@])
}

pub open spec fn raw_model(j: Json) -> RawModel
    recommends
        raw_shape(j),
{
    RawModel {
        status: text_of(obj_fields(j)["status"@]),
        message: text_of(obj_fields(j)["message"@]),
        code: code_of(obj_fields(j)["code"@]),
    }
}

/// The document additionally carries a `data` member decodable as `T`: the
/// shape of a complete typed envelope.
pub open spec fn strict_shape<T: ApiPayload>(j: Json) -> bool {
    &&& raw_shape(j)
    &&& obj_fields(j).contains_key("data"@)
    &&& T::json_decodable(obj_fields(j)["data"@])
}

pub open spec fn strict_model<T: ApiPayload>(j: Json) -> EnvModel
    recommends
        strict_shape::<T>(j),
{
    EnvModel {
        status: raw_model(j).status,
        message: raw_model(j).message,
        code: raw_model(j).code,
        data: obj_fields(j)["data"@],
    }
}

/// The canonical JSON image of an envelope with the given model.
pub open spec fn env_image(m: EnvModel) -> Json {
    Json::Obj(
        map![
            "status"@ => Json::Text(m.status),
            "message"@ => Json::Text(m.message),
            "code"@ => Json::UInt(m.code as u64),
            "data"@ => m.data,
        ],
    )
}

/// The envelope reconstructed from a status-only body: raw fields preserved,
/// payload defaulted.
pub open spec fn fallback_matches<T: ApiPayload + ApiDefault>(
    env: ApiResponse<T>,
    j: Json,
) -> bool {
    &&& raw_shape(j)
    &&& env.status@ == raw_model(j).status
    &&& env.message@ == raw_model(j).message
    &&& env.code == raw_model(j).code
    &&& env.data.is_default()
}

impl RawApiResponse {
    pub open spec fn model(&self) -> RawModel {
        RawModel { status: self.status@, message: self.message@, code: self.code }
    }

    /// Decode the guaranteed `status`/`message`/`code` subset from a parsed
    /// document; `None` exactly when the document does not have that shape.
    pub fn from_json(v: &serde_json::Value) -> (r: Option<RawApiResponse>)
        ensures
            match r {
                Some(raw) => raw_shape(value_model(*v)) && raw.model() == raw_model(
                    value_model(*v),
                ),
                None => !raw_shape(value_model(*v)),
            },
    {
        let status = match get_field(v, "status") {
            Some(f) => match as_text(f) {
                Some(s) => s.to_owned(),
                None => {
                    return None;
                },
            },
            None => {
                return None;
            },
        };
        let message = match get_field(v, "message") {
            Some(f) => match as_text(f) {
                Some(s) => s.to_owned(),
                None => {
                    return None;
                },
            },
            None => {
                return None;
            },
        };
        let code = match get_field(v, "code") {
            Some(f) => match as_uint(f) {
                Some(n) => if n <= u16::MAX as u64 {
                    n as u16
                } else {
                    return None;
                },
                None => {
                    return None;
                },
            },
            None => {
                return None;
            },
        };
        Some(RawApiResponse { status, message, code })
    }
}

impl<T: ApiPayload> ApiResponse<T> {
    pub open spec fn model(&self) -> EnvModel {
        EnvModel {
            status: self.status@,
            message: self.message@,
            code: self.code,
            data: self.data.to_json(),
        }
    }

    /// The canonical JSON image of this envelope.
    pub open spec fn image(&self) -> Json {
        env_image(self.model())
    }

    /// Strict structural decode of a complete typed envelope from a parsed
    /// document; `None` exactly when the document is not strict-shaped.
    pub fn decode_strict(v: &serde_json::Value) -> (r: Option<ApiResponse<T>>)
        ensures
            match r {
                Some(env) => strict_shape::<T>(value_model(*v)) && env.model() == strict_model::<
                    T,
                >(value_model(*v)),
                None => !strict_shape::<T>(value_model(*v)),
            },
    {
        let raw = match RawApiResponse::from_json(v) {
            Some(raw) => raw,
            None => {
                return None;
            },
        };
        let data = match get_field(v, "data") {
            Some(f) => match T::decode_json(f) {
                Some(d) => d,
                None => {
                    return None;
                },
            },
            None => {
                return None;
            },
        };
        Some(ApiResponse { status: raw.status, message: raw.message, code: raw.code, data })
    }
}

impl<T: ApiPayload + ApiDefault> ApiResponse<T> {
    /// Decode a fully-buffered response body.
    ///
    /// Two-tier contract: first a strict structural decode into a complete
    /// typed envelope; failing that, a status-only decode whose result keeps
    /// the backend's `status`, `message` and `code` but substitutes the
    /// payload's zero value; failing both, a `JsonError` — a body that is not
    /// a recognizable envelope is never mapped to a default-valued success.
    pub fn from_body(body: &str) -> (r: Result<ApiResponse<T>, Error>)
        ensures
            match r {
                Ok(env) => parsed_json(body@) matches Some(j) && (if strict_shape::<T>(j) {
                    env.model() == strict_model::<T>(j)
                } else {
                    fallback_matches(env, j)
                }),
                Err(e) => e matches Error::JsonError(_),
            },
            r is Ok <==> (parsed_json(body@) matches Some(j) && raw_shape(j)),
    {
        let v = match parse_json(body) {
            Ok(v) => v,
            Err(m) => {
                return Err(Error::JsonError(m));
            },
        };
        match ApiResponse::<T>::decode_strict(&v) {
            Some(env) => Ok(env),
            None => match RawApiResponse::from_json(&v) {
                Some(raw) => Ok(
                    ApiResponse::with_default(raw.status.as_str(), raw.message.as_str(), raw.code),
                ),
                None => Err(
                    Error::JsonError(
                        String::from_str("body is not a recognizable response envelope"),
                    ),
                ),
            },
        }
    }
}

/// Law: strict decoding is exact. The canonical image of any envelope is
/// strict-shaped, and its strict model is the envelope's own model — so a
/// body whose document is the image of an envelope decodes back to an
/// envelope with the same `status`, `message`, `code` and payload image.
pub proof fn lemma_image_round_trip<T: ApiPayload>(env: ApiResponse<T>)
    ensures
        strict_shape::<T>(env.image()),
        strict_model::<T>(env.image()) == env.model(),
{
    reveal_strlit("status");
    reveal_strlit("message");
    reveal_strlit("code");
    reveal_strlit("data");
    assert("status"@.len() == 6);
    assert("message"@.len() == 7);
    assert("code"@.len() == 4);
    assert("data"@.len() == 4);
    assert("code"@[0] == 'c');
    assert("data"@[0] == 'd');
    assert("code"@ != "data"@);
    env.data.lemma_image_decodable();
    assert(obj_fields(env.image())["data"@] == env.data.to_json());
    assert(strict_model::<T>(env.image()) == env.model());
}

} // verus!
