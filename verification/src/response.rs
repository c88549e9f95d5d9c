//! Reading the upload endpoint's response body. The remote service names
//! the replay identifier under several accepted fields; serde_json does the
//! parsing behind trusted wrappers, and the field-precedence and coercion
//! rules are decided and proved here.

use vstd::prelude::*;
use vstd::string::StringExecFns;
use crate::errors::UploadError;
use crate::text;

verus! {

/// What a JSON field lookup found, as far as this library reads it.
#[derive(Debug, Clone)]
pub enum JsonField {
    /// The body is not valid JSON.
    Invalid,
    /// The field is absent (or the body is not an object).
    Absent,
    /// A JSON string.
    Text(String),
    /// A JSON number representable as a signed 64-bit integer.
    Integer(i64),
    /// Present, but neither a string nor such an integer.
    OtherKind,
}

/// The mathematical shape of a lookup result.
pub enum JsonFieldModel {
    Invalid,
    Absent,
    Text(Seq<char>),
    Integer(int),
    OtherKind,
}

impl View for JsonField {
    type V = JsonFieldModel;

    open spec fn view(&self) -> JsonFieldModel {
        match self {
            JsonField::Invalid => JsonFieldModel::Invalid,
            JsonField::Absent => JsonFieldModel::Absent,
            JsonField::Text(s) => JsonFieldModel::Text(s@),
            JsonField::Integer(i) => JsonFieldModel::Integer(*i as int),
            JsonField::OtherKind => JsonFieldModel::OtherKind,
        }
    }
}

/// What a top-level field of the JSON body holds: a function of the body
/// text and the key alone.
pub uninterp spec fn top_field(body: Seq<char>, key: Seq<char>) -> JsonFieldModel;

/// What a field one level down holds (`body[key][sub_key]`): a function of
/// the body text and the two keys alone.
pub uninterp spec fn nested_field(
    body: Seq<char>,
    key: Seq<char>,
    sub_key: Seq<char>,
) -> JsonFieldModel;

/// Relies on serde_json's `from_str`, `Value::get`, `Value::as_str` and
/// `Value::as_i64`: all pure functions of the body text and key, so the
/// lookup result depends on them alone.
#[verifier::external_body]
fn json_top_field(body: &str, key: &str) -> (r: JsonField)
    ensures
        r@ == top_field(body@, key@),
{
    match serde_json::from_str::<serde_json::Value>(body) {
        Err(_) => JsonField::Invalid,
        Ok(v) => match v.get(key) {
            None => JsonField::Absent,
            Some(f) => match (f.as_str(), f.as_i64()) {
                (Some(s), _) => JsonField::Text(s.to_string()),
                (None, Some(i)) => JsonField::Integer(i),
                (None, None) => JsonField::OtherKind,
            },
        },
    }
}

/// Relies on serde_json's `from_str`, `Value::get`, `Value::as_str` and
/// `Value::as_i64`, as `json_top_field` does, for a lookup one level down.
#[verifier::external_body]
fn json_nested_field(body: &str, key: &str, sub_key: &str) -> (r: JsonField)
    ensures
        r@ == nested_field(body@, key@, sub_key@),
{
    match serde_json::from_str::<serde_json::Value>(body) {
        Err(_) => JsonField::Invalid,
        Ok(v) => match v.get(key) {
            None => JsonField::Absent,
            Some(o) => match o.get(sub_key) {
                None => JsonField::Absent,
                Some(f) => match (f.as_str(), f.as_i64()) {
                    (Some(s), _) => JsonField::Text(s.to_string()),
                    (None, Some(i)) => JsonField::Integer(i),
                    (None, None) => JsonField::OtherKind,
                },
            },
        },
    }
}

/// The identifier a found field yields: a string as it stands, an integer
/// coerced to its decimal rendering, anything else nothing.
pub open spec fn spec_field_to_id(f: JsonFieldModel) -> Option<Seq<char>> {
    match f {
        JsonFieldModel::Text(s) => Some(s),
        JsonFieldModel::Integer(i) => Some(text::dec_str_signed(i)),
        _ => None::<Seq<char>>,
    }
}

/// The field the extraction reads: the first *present* of the accepted
/// locations `id`, `replayId`, `replay_id`, `replay.id`, in that order. A
/// present but uncoercible field is chosen and then yields no identifier;
/// later locations are not consulted.
pub open spec fn spec_chosen_field(body: Seq<char>) -> JsonFieldModel {
    if !(top_field(body, "id"@) is Absent) {
        top_field(body, "id"@)
    } else if !(top_field(body, "replayId"@) is Absent) {
        top_field(body, "replayId"@)
    } else if !(top_field(body, "replay_id"@) is Absent) {
        top_field(body, "replay_id"@)
    } else {
        nested_field(body, "replay"@, "id"@)
    }
}

/// Coerce one found field to the identifier it yields.
pub fn field_to_id(f: JsonField) -> (r: Option<String>)
    ensures
        match spec_field_to_id(f@) {
            Some(id) => r matches Some(s) && s@ == id,
            None => r is None,
        },
{
    match f {
        JsonField::Text(s) => Some(s),
        JsonField::Integer(i) => Some(text::i64_to_string(i)),
        _ => None,
    }
}

fn is_absent(f: &JsonField) -> (r: bool)
    ensures
        r == (f@ is Absent),
{
    match f {
        JsonField::Absent => true,
        _ => false,
    }
}

/// Extract the replay identifier from the response body. A body that is
/// not JSON fails as malformed; a JSON body without an identifier under
/// any accepted field fails as missing, even though the HTTP status was
/// success.
pub fn extract_replay_id(body: &str) -> (r: Result<String, UploadError>)
    ensures
        match r {
            Ok(id) => !(top_field(body@, "id"@) is Invalid) && spec_field_to_id(
                spec_chosen_field(body@),
            ) == Some(id@),
            Err(e) => {
                if top_field(body@, "id"@) is Invalid {
                    e is MalformedResponse
                } else {
                    e is MissingReplayId && spec_field_to_id(spec_chosen_field(body@)) is None
                }
            },
        },
{
    let f1 = json_top_field(body, "id");
    if let JsonField::Invalid = &f1 {
        return Err(UploadError::MalformedResponse);
    }
    let chosen = if !is_absent(&f1) {
        f1
    } else {
        let f2 = json_top_field(body, "replayId");
        if !is_absent(&f2) {
            f2
        } else {
            let f3 = json_top_field(body, "replay_id");
            if !is_absent(&f3) {
                f3
            } else {
                json_nested_field(body, "replay", "id")
            }
        }
    };
    match field_to_id(chosen) {
        Some(id) => Ok(id),
        None => Err(UploadError::MissingReplayId),
    }
}

/// Interpret the upload endpoint's response: a non-success status is a
/// remote rejection carrying the status and body; a success status yields
/// the replay identifier, or fails as malformed or missing exactly as
/// `extract_replay_id` says.
pub fn upload_response_result(status: u16, body: &str) -> (r: Result<String, UploadError>)
    ensures
        !crate::session::spec_is_success(status) ==> (r matches Err(e) && e matches
            UploadError::RemoteRejected(s, b) && s == status && b@ == body@),
        crate::session::spec_is_success(status) ==> match r {
            Ok(id) => !(top_field(body@, "id"@) is Invalid) && spec_field_to_id(
                spec_chosen_field(body@),
            ) == Some(id@),
            Err(e) => {
                if top_field(body@, "id"@) is Invalid {
                    e is MalformedResponse
                } else {
                    e is MissingReplayId && spec_field_to_id(spec_chosen_field(body@)) is None
                }
            },
        },
{
    if status < 200 || status >= 300 {
        return Err(UploadError::RemoteRejected(status, body.to_owned()));
    }
    extract_replay_id(body)
}

/// The user-facing frontend base.
pub fn frontend_url() -> (r: &'static str)
    ensures
        r@ == "https://ballcam.tv"@,
{
    "https://ballcam.tv"
}

/// The remote API base.
pub fn api_base_url() -> (r: &'static str)
    ensures
        r@ == "https://ballcam.tv/api"@,
{
    "https://ballcam.tv/api"
}

/// The user-facing URL of an uploaded replay.
pub open spec fn spec_replay_url(id: Seq<char>) -> Seq<char> {
    "https://ballcam.tv"@ + "/replays/"@ + id
}

/// Join the frontend base with the replay's path.
pub fn replay_url_for(id: &str) -> (r: String)
    ensures
        r@ == spec_replay_url(id@),
{
    let mut url = String::from_str(frontend_url());
    url.append("/replays/");
    url.append(id);
    assert(url@ =~= spec_replay_url(id@));
    url
}

} // verus!
