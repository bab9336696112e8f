//! The wire data shapes and the unified error taxonomy.

use vstd::prelude::*;
use vstd::string::*;
use crate::json::{Json, JsonV, obj_get, obj_get_v, str_eq};

pub mod tet;
pub mod tetification;
pub mod user;

verus! {

/// A hexadecimal digit, either case.
pub open spec fn is_hex_digit(c: char) -> bool {
    ('0' <= c && c <= '9') || ('a' <= c && c <= 'f') || ('A' <= c && c <= 'F')
}

/// What the hyphenated UUID form asks of the character at one position:
/// a hyphen at the four separators, a hexadecimal digit elsewhere.
pub open spec fn hyphenated_char_ok(s: Seq<char>, i: int) -> bool {
    if i == 8 || i == 13 || i == 18 || i == 23 {
        s[i] == '-'
    } else {
        is_hex_digit(s[i])
    }
}

/// The hyphenated UUID form: 8-4-4-4-12 hexadecimal digits.
pub open spec fn is_hyphenated_uuid(s: Seq<char>) -> bool {
    s.len() == 36 && forall|i: int| 0 <= i < 36 ==> #[trigger] hyphenated_char_ok(s, i)
}

/// The simple UUID form: 32 hexadecimal digits.
pub open spec fn is_simple_uuid(s: Seq<char>) -> bool {
    s.len() == 32 && forall|i: int| 0 <= i < 32 ==> is_hex_digit(#[trigger] s[i])
}

/// The nine characters `urn:uuid:`, letters in either case.
pub open spec fn has_urn_prefix(s: Seq<char>) -> bool {
    &&& s.len() >= 9
    &&& (s[0] == 'u' || s[0] == 'U')
    &&& (s[1] == 'r' || s[1] == 'R')
    &&& (s[2] == 'n' || s[2] == 'N')
    &&& s[3] == ':'
    &&& (s[4] == 'u' || s[4] == 'U')
    &&& (s[5] == 'u' || s[5] == 'U')
    &&& (s[6] == 'i' || s[6] == 'I')
    &&& (s[7] == 'd' || s[7] == 'D')
    &&& s[8] == ':'
}

/// The UUID spellings the wire accepts for an identifier: simple,
/// hyphenated, braced hyphenated, or a `urn:uuid:` URN.
pub open spec fn is_uuid_text(s: Seq<char>) -> bool {
    ||| is_simple_uuid(s)
    ||| is_hyphenated_uuid(s)
    ||| (s.len() == 38 && s[0] == '{' && s[37] == '}' && is_hyphenated_uuid(s.subrange(1, 37)))
    ||| (s.len() == 45 && has_urn_prefix(s) && is_hyphenated_uuid(s.skip(9)))
}

fn is_hex_digit_char(c: char) -> (r: bool)
    ensures
        r == is_hex_digit(c),
{
    ('0' <= c && c <= '9') || ('a' <= c && c <= 'f') || ('A' <= c && c <= 'F')
}

fn is_hyphenated_uuid_str(s: &str) -> (r: bool)
    ensures
        r == is_hyphenated_uuid(s@),
{
    let n = s.unicode_len();
    if n != 36 {
        return false;
    }
    let mut i: usize = 0;
    while i < 36
        invariant
            0 <= i <= 36,
            s@.len() == 36,
            forall|j: int| 0 <= j < i ==> #[trigger] hyphenated_char_ok(s@, j),
        decreases 36 - i,
    {
        let c = s.get_char(i);
        let ok = if i == 8 || i == 13 || i == 18 || i == 23 {
            c == '-'
        } else {
            is_hex_digit_char(c)
        };
        if !ok {
            proof {
                assert(!hyphenated_char_ok(s@, i as int));
            }
            return false;
        }
        i = i + 1;
    }
    true
}

/// Whether a text spells a UUID in one of the accepted forms.
pub fn is_uuid_str(s: &str) -> (r: bool)
    ensures
        r == is_uuid_text(s@),
{
    let n = s.unicode_len();
    if n == 32 {
        let mut i: usize = 0;
        while i < 32
            invariant
                0 <= i <= 32,
                s@.len() == 32,
                forall|j: int| 0 <= j < i ==> is_hex_digit(#[trigger] s@[j]),
            decreases 32 - i,
        {
            if !is_hex_digit_char(s.get_char(i)) {
                return false;
            }
            i = i + 1;
        }
        true
    } else if n == 36 {
        is_hyphenated_uuid_str(s)
    } else if n == 38 {
        if s.get_char(0) == '{' && s.get_char(37) == '}' {
            is_hyphenated_uuid_str(s.substring_char(1, 37))
        } else {
            false
        }
    } else if n == 45 {
        let c0 = s.get_char(0);
        let c1 = s.get_char(1);
        let c2 = s.get_char(2);
        let c4 = s.get_char(4);
        let c5 = s.get_char(5);
        let c6 = s.get_char(6);
        let c7 = s.get_char(7);
        let prefix_ok = (c0 == 'u' || c0 == 'U') && (c1 == 'r' || c1 == 'R') && (c2 == 'n' || c2
            == 'N') && s.get_char(3) == ':' && (c4 == 'u' || c4 == 'U') && (c5 == 'u' || c5 == 'U')
            && (c6 == 'i' || c6 == 'I') && (c7 == 'd' || c7 == 'D') && s.get_char(8) == ':';
        if prefix_ok {
            proof {
                assert(s@.subrange(9, 45) =~= s@.skip(9));
            }
            is_hyphenated_uuid_str(s.substring_char(9, 45))
        } else {
            false
        }
    } else {
        false
    }
}

/// The structured error body the server returns on a failed request:
/// `{error, message, statusCode}` on the wire.
#[derive(Debug, Clone, PartialEq)]
pub struct TetterError {
    pub error: String,
    pub message: String,
    pub status_code: i32,
}

/// Mathematical shape of a structured server error.
pub struct TetterErrorV {
    pub error: Seq<char>,
    pub message: Seq<char>,
    pub status_code: int,
}

impl View for TetterError {
    type V = TetterErrorV;

    open spec fn view(&self) -> TetterErrorV {
        TetterErrorV {
            error: self.error@,
            message: self.message@,
            status_code: self.status_code as int,
        }
    }
}

/// The unified failure taxonomy: a transport-level fault (no HTTP status was
/// ever observed), a structured error the server reported, or a response
/// body that could not be decoded into the expected shape.
#[derive(Debug, Clone, PartialEq)]
pub enum Error {
    /// Name resolution, connection, TLS or timeout failure, with its cause.
    Transport(String),
    /// A non-success status whose body held a structured server error.
    Tetter(TetterError),
    /// A body (success or error path) that does not parse as expected.
    Decode,
}

pub type ApiResult<T> = Result<T, Error>;

/// What decoding a structured server error from a JSON value yields:
/// an object with a string `error`, a string `message` and an integral
/// `statusCode` that fits `i32`; anything else is no structured error.
pub open spec fn tetter_error_from_json_v(j: JsonV) -> Option<TetterErrorV> {
    match j {
        JsonV::Obj(o) => {
            match (obj_get_v(o, "error"@), obj_get_v(o, "message"@), obj_get_v(o, "statusCode"@)) {
                (Some(JsonV::Str(e)), Some(JsonV::Str(m)), Some(JsonV::Int(c))) => {
                    if i32::MIN <= c <= i32::MAX {
                        Some(TetterErrorV { error: e, message: m, status_code: c })
                    } else {
                        None
                    }
                },
                _ => None,
            }
        },
        _ => None,
    }
}

/// The wire JSON of a structured server error.
pub open spec fn tetter_error_to_json_v(e: TetterErrorV) -> JsonV {
    JsonV::Obj(
        seq![
            ("error"@, JsonV::Str(e.error)),
            ("message"@, JsonV::Str(e.message)),
            ("statusCode"@, JsonV::Int(e.status_code)),
        ],
    )
}

impl TetterError {
    /// Decodes a structured server error from a JSON value.
    pub fn from_json(j: &Json) -> (r: Option<TetterError>)
        ensures
            match r {
                Some(e) => tetter_error_from_json_v(j@) == Some(e@),
                None => tetter_error_from_json_v(j@) is None,
            },
    {
        match j {
            Json::Obj(o) => {
                proof {
                    crate::json::lemma_obj_view(*o);
                }
                match (obj_get(o, "error"), obj_get(o, "message"), obj_get(o, "statusCode")) {
                    (Some(Json::Str(e)), Some(Json::Str(m)), Some(Json::Int(c))) => {
                        if i32::MIN as i64 <= *c && *c <= i32::MAX as i64 {
                            Some(TetterError {
                                error: e.clone(),
                                message: m.clone(),
                                status_code: *c as i32,
                            })
                        } else {
                            None
                        }
                    },
                    _ => None,
                }
            },
            _ => None,
        }
    }

    /// Encodes this error to its wire JSON; decoding that JSON yields this
    /// error back.
    pub fn to_json(&self) -> (r: Json)
        ensures
            r@ == tetter_error_to_json_v(self@),
            tetter_error_from_json_v(r@) == Some(self@),
    {
        let mut fields: Vec<(String, Json)> = Vec::new();
        fields.push(("error".to_owned(), Json::Str(self.error.clone())));
        fields.push(("message".to_owned(), Json::Str(self.message.clone())));
        fields.push(("statusCode".to_owned(), Json::Int(self.status_code as i64)));
        let ghost gfields = fields;
        let r = Json::Obj(fields);
        proof {
            crate::json::lemma_obj_view(gfields);
            assert(r@->Obj_0 =~= tetter_error_to_json_v(self@)->Obj_0);
            lemma_tetter_error_roundtrip(self@);
        }
        r
    }
}

impl TetterError {
    /// The error as one line of text, for embedding software to show.
    pub fn to_message(&self) -> (r: String)
        ensures
            r@ == "Tetter error: "@ + self.error@ + ": "@ + self.message@,
    {
        let mut m = "Tetter error: ".to_owned();
        m.append(self.error.as_str());
        m.append(": ");
        m.append(self.message.as_str());
        m
    }
}

impl Error {
    /// The failure as one line of text, for embedding software to show.
    pub fn to_message(&self) -> (r: String)
        ensures
            match self {
                Error::Transport(m) => r@ == "Transport error: "@ + m@,
                Error::Tetter(te) => r@ == "Tetter error: "@ + te.error@ + ": "@ + te.message@,
                Error::Decode => r@ == "Decode error"@,
            },
    {
        match self {
            Error::Transport(m) => {
                let mut s = "Transport error: ".to_owned();
                s.append(m.as_str());
                s
            },
            Error::Tetter(te) => te.to_message(),
            Error::Decode => "Decode error".to_owned(),
        }
    }
}

/// Decoding inverts encoding: a structured server error written to its wire
/// JSON reads back as the same error.
pub proof fn lemma_tetter_error_roundtrip(e: TetterErrorV)
    requires
        i32::MIN <= e.status_code <= i32::MAX,
    ensures
        tetter_error_from_json_v(tetter_error_to_json_v(e)) == Some(e),
{
    reveal_strlit("error");
    reveal_strlit("message");
    reveal_strlit("statusCode");
    let o = tetter_error_to_json_v(e)->Obj_0;
    let o1 = o.drop_first();
    let o2 = o1.drop_first();
    assert(o1[0] == o[1]);
    assert(o2[0] == o[2]);
    assert("error"@.len() == 5);
    assert("message"@.len() == 7);
    assert("statusCode"@.len() == 10);
    assert("error"@ != "message"@ && "error"@ != "statusCode"@ && "message"@ != "statusCode"@);
    assert(obj_get_v(o, "error"@) == Some(JsonV::Str(e.error)));
    assert(obj_get_v(o1, "message"@) == Some(JsonV::Str(e.message)));
    assert(obj_get_v(o, "message"@) == Some(JsonV::Str(e.message)));
    assert(obj_get_v(o2, "statusCode"@) == Some(JsonV::Int(e.status_code)));
    assert(obj_get_v(o1, "statusCode"@) == Some(JsonV::Int(e.status_code)));
    assert(obj_get_v(o, "statusCode"@) == Some(JsonV::Int(e.status_code)));
}

} // verus!
