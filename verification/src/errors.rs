//! The uniform failure record of the service, and the client's own
//! failure values for transport and decode trouble.

use vstd::prelude::*;
use vstd::string::*;
use crate::json::{
    Json, JsonV, jview, jview_obj, lookup, lookup_bool, lookup_str, lookup_opt_u64,
    get_bool, get_string, get_opt_u64, lemma_jview_obj_len,
};

verus! {

/// A failed call: `error` is always true, `status` carries the HTTP status
/// of an API-reported error and is absent for transport or decode trouble,
/// and `message` says what went wrong.
#[derive(Debug, Clone, PartialEq)]
pub struct DelError {
    pub error: bool,
    pub status: Option<u16>,
    pub message: String,
}

pub struct DelErrorV {
    pub error: bool,
    pub status: Option<u16>,
    pub message: Seq<char>,
}

impl View for DelError {
    type V = DelErrorV;

    open spec fn view(&self) -> DelErrorV {
        DelErrorV { error: self.error, status: self.status, message: self.message@ }
    }
}

pub open spec fn opt_u16_to_json(o: Option<u16>) -> JsonV {
    match o {
        Some(n) => JsonV::Num(n as u64),
        None => JsonV::Null,
    }
}

/// How a failure record is written as a JSON object.
pub open spec fn del_error_to_json(x: DelErrorV) -> JsonV {
    JsonV::Obj(
        seq![
            ("error"@, JsonV::Bool(x.error)),
            ("status"@, opt_u16_to_json(x.status)),
            ("message"@, JsonV::Str(x.message)),
        ],
    )
}

/// How a JSON value reads as a failure record, if it does.  A `status`
/// above the 16-bit range does not read.
pub open spec fn del_error_from_json(j: JsonV) -> Option<DelErrorV> {
    match j {
        JsonV::Obj(o) => {
            let f_error = lookup_bool(o, "error"@);
            let f_status = lookup_opt_u64(o, "status"@);
            let f_message = lookup_str(o, "message"@);
            if f_error is Some && f_status is Some && f_message is Some && (match f_status.unwrap() {
                Some(n) => n <= u16::MAX,
                None => true,
            }) {
                Some(
                    DelErrorV {
                        error: f_error.unwrap(),
                        status: (match f_status.unwrap() {
                            Some(n) => Some(n as u16),
                            None => None,
                        }),
                        message: f_message.unwrap(),
                    },
                )
            } else {
                None
            }
        },
        _ => None,
    }
}

pub fn encode_del_error(x: &DelError) -> (r: Json)
    ensures
        r@ == del_error_to_json(x@),
{
    let mut o: Vec<(String, Json)> = Vec::new();
    o.push((String::from_str("error"), Json::Bool(x.error)));
    o.push(
        (
            String::from_str("status"),
            (match x.status {
                Some(n) => Json::Num(n as u64),
                None => Json::Null,
            }),
        ),
    );
    o.push((String::from_str("message"), Json::Str(x.message.clone())));
    proof {
        lemma_jview_obj_len(o@);
        assert(jview_obj(o@)[0] == ("error"@, JsonV::Bool(x@.error)));
        assert(jview_obj(o@)[1] == ("status"@, opt_u16_to_json(x@.status)));
        assert(jview_obj(o@)[2] == ("message"@, JsonV::Str(x@.message)));
        assert(jview_obj(o@) =~= seq![
            ("error"@, JsonV::Bool(x@.error)),
            ("status"@, opt_u16_to_json(x@.status)),
            ("message"@, JsonV::Str(x@.message)),
        ]);
    }
    Json::Obj(o)
}

pub fn decode_del_error(j: &Json) -> (r: Option<DelError>)
    ensures
        match r {
            Some(x) => del_error_from_json(j@) == Some(x@),
            None => del_error_from_json(j@) is None,
        },
{
    match j {
        Json::Obj(o) => {
            let f_error = match get_bool(o, "error") {
                Some(v) => v,
                None => { return None },
            };
            let f_status_raw = match get_opt_u64(o, "status") {
                Some(v) => v,
                None => { return None },
            };
            let f_status: Option<u16> = match f_status_raw {
                Some(n) => {
                    if n <= 65535 {
                        Some(n as u16)
                    } else {
                        return None;
                    }
                },
                None => None,
            };
            let f_message = match get_string(o, "message") {
                Some(v) => v,
                None => { return None },
            };
            Some(DelError { error: f_error, status: f_status, message: f_message })
        },
        _ => None,
    }
}

/// Writing a failure record and reading it back gives the record.
pub proof fn lemma_del_error_roundtrip(x: DelErrorV)
    ensures
        del_error_from_json(del_error_to_json(x)) == Some(x),
{
    reveal_strlit("error");
    reveal_strlit("status");
    reveal_strlit("message");
    reveal_with_fuel(lookup, 5);
    assert("error"@.len() == 5);
    assert("status"@.len() == 6);
    assert("message"@.len() == 7);
    let o = seq![
        ("error"@, JsonV::Bool(x.error)),
        ("status"@, opt_u16_to_json(x.status)),
        ("message"@, JsonV::Str(x.message)),
    ];
    assert(lookup(o, "error"@) == Some(JsonV::Bool(x.error)));
    assert(lookup(o, "status"@) == Some(opt_u16_to_json(x.status)));
    assert(lookup(o, "message"@) == Some(JsonV::Str(x.message)));
}

/// The failure value for a body that could not be read as what the
/// status code said it should be.
pub open spec fn decode_error_v() -> DelErrorV {
    DelErrorV {
        error: true,
        status: None,
        message: "response body did not match the expected schema"@,
    }
}

/// The failure value for a response body that does not match the schema
/// the status code calls for.
pub fn decode_failure() -> (r: DelError)
    ensures
        r@ == decode_error_v(),
{
    DelError {
        error: true,
        status: None,
        message: String::from_str("response body did not match the expected schema"),
    }
}

/// The failure value that wraps a transport-level message, as the caller
/// of the library reports it; it carries no HTTP status.
pub fn transport_failure(message: String) -> (r: DelError)
    ensures
        r@.error == true,
        r@.status is None,
        r@.message == message@,
{
    DelError { error: true, status: None, message }
}

} // verus!
