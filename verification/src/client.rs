//! The request/response translation layer: one typed request description per
//! logical operation, and the normalization of every obtained response into a
//! decoded JSON value or a classified error.
//!
//! Sending a request is the caller's business; nothing here touches the
//! network.
use vstd::prelude::*;

use crate::encode::{encode_bytes, encode_path};
use crate::errors::{ApiError, CliError};
use crate::jsonv::{
    field_of, json_tree_of, json_wf, jv_from_value, parse_value, str_field_of, uint_field_of, Jv,
};
use vstd::string::*;

verus! {

/// The HTTP methods the API is called with.
#[derive(Clone, Copy, Debug, PartialEq, Eq, Structural)]
pub enum Method {
    Get,
    Post,
    Put,
    Delete,
}

/// One call against the fixed base URL: method, path, and the JSON body for
/// `POST`/`PUT` calls.
#[derive(Debug, PartialEq, Eq)]
pub struct ApiRequest {
    pub method: Method,
    pub path: String,
    pub body: Option<Jv>,
}

/// The fixed base URL every path is appended to.
pub open spec fn spec_base_url() -> Seq<char> {
    "https://api.motherduck.com"@
}

pub fn base_url() -> (r: &'static str)
    ensures
        r@ == spec_base_url(),
{
    "https://api.motherduck.com"
}

/// The full URL for a path: the base URL with the path appended.
pub fn full_url(path: &str) -> (r: String)
    ensures
        r@ == spec_base_url() + path@,
{
    let mut u: String = base_url().to_owned();
    u.append(path);
    u
}

/// The `Authorization` header value carried on every call; an empty
/// credential yields none rather than a malformed header.
pub fn bearer_value(token: &str) -> (r: Option<String>)
    ensures
        r is Some <==> token@.len() > 0,
        r matches Some(s) ==> s@ == "Bearer "@ + token@,
{
    if token.is_empty() {
        None
    } else {
        let mut s: String = "Bearer ".to_owned();
        s.append(token);
        Some(s)
    }
}

/// Whether a status is a success status.
pub open spec fn in_2xx(status: u16) -> bool {
    200 <= status && status < 300
}

/// The message a non-2xx response is reported with: the decoded body's
/// `message` string field when there is one, else the raw body text.
pub open spec fn response_error_message(text: Seq<char>) -> Seq<char> {
    if json_wf(text) && str_field_of(json_tree_of(text), "message"@) is Some {
        str_field_of(json_tree_of(text), "message"@)->0
    } else {
        text
    }
}

/// Normalize one obtained response.
///
/// A success status yields the decoded body, or the raw text as a JSON string
/// when the body is not JSON (never an error). Any other status yields an
/// `ApiError` carrying the status and the response's own message.
pub fn parse_response(status: u16, text: String) -> (r: Result<Jv, CliError>)
    ensures
        in_2xx(status) && json_wf(text@) ==> r == Ok::<Jv, CliError>(json_tree_of(text@)),
        in_2xx(status) && !json_wf(text@) ==> (r matches Ok(j) && j matches Jv::Str(s) && s@
            == text@),
        !in_2xx(status) ==> (r matches Err(e) && e matches CliError::Api(ae) && ae.status == status
            && ae.message@ == response_error_message(text@)),
{
    let ok = 200 <= status && status < 300;
    match parse_value(text.as_str()) {
        Some(v) => {
            let j = jv_from_value(v);
            if ok {
                Ok(j)
            } else {
                let message: String = match j.str_field("message") {
                    Some(m) => m.to_owned(),
                    None => text,
                };
                Err(CliError::Api(ApiError { status, message }))
            }
        },
        None => {
            if ok {
                Ok(Jv::Str(text))
            } else {
                Err(CliError::Api(ApiError { status, message: text }))
            }
        },
    }
}

/// The encoded path segment of an identifier, as characters.
pub open spec fn seg(s: &str) -> Seq<char> {
    encode_bytes(s.spec_bytes())
}

/// The body `{"username": <username>}`.
pub open spec fn create_user_body_ok(b: Jv, username: Seq<char>) -> bool {
    &&& b matches Jv::Obj(ps)
    &&& ps@.len() == 1
    &&& ps@[0].0@ == "username"@
    &&& (ps@[0].1 matches Jv::Str(s) && s@ == username)
}

/// `POST /v1/users` with the username in the body.
pub fn create_user_request(username: &str) -> (r: ApiRequest)
    ensures
        r.method == Method::Post,
        r.path@ == "/v1/users"@,
        r.body matches Some(b) && create_user_body_ok(b, username@),
{
    let mut pairs: Vec<(String, Jv)> = Vec::new();
    pairs.push(("username".to_owned(), Jv::Str(username.to_owned())));
    ApiRequest { method: Method::Post, path: "/v1/users".to_owned(), body: Some(Jv::Obj(pairs)) }
}

/// `DELETE /v1/users/{username}`.
pub fn delete_user_request(username: &str) -> (r: ApiRequest)
    ensures
        r.method == Method::Delete,
        r.path@ == "/v1/users/"@ + seg(username),
        r.body is None,
{
    let mut p: String = "/v1/users/".to_owned();
    let e = encode_path(username);
    p.append(e.as_str());
    ApiRequest { method: Method::Delete, path: p, body: None }
}

/// `GET /v1/users/{username}/tokens`.
pub fn list_tokens_request(username: &str) -> (r: ApiRequest)
    ensures
        r.method == Method::Get,
        r.path@ == "/v1/users/"@ + seg(username) + "/tokens"@,
        r.body is None,
{
    let mut p: String = "/v1/users/".to_owned();
    let e = encode_path(username);
    p.append(e.as_str());
    p.append("/tokens");
    ApiRequest { method: Method::Get, path: p, body: None }
}

/// The token-creation body: always the name; `ttl` and `token_type` only
/// when supplied, never defaulted.
pub open spec fn create_token_body_ok(
    b: Jv,
    name: Seq<char>,
    ttl: Option<u64>,
    token_type: Option<Seq<char>>,
) -> bool {
    &&& str_field_of(b, "name"@) == Some(name)
    &&& (match ttl {
        Some(t) => uint_field_of(b, "ttl"@) == Some(t),
        None => field_of(b, "ttl"@) is None,
    })
    &&& (match token_type {
        Some(s) => str_field_of(b, "token_type"@) == Some(s),
        None => field_of(b, "token_type"@) is None,
    })
    &&& b matches Jv::Obj(ps)
    &&& ps@.len() == 1 + (if ttl is Some { 1int } else { 0int }) + (if token_type is Some {
        1int
    } else {
        0int
    })
}

/// `POST /v1/users/{username}/tokens` with name and the optional fields.
pub fn create_token_request(
    username: &str,
    name: &str,
    ttl: Option<u64>,
    token_type: Option<&str>,
) -> (r: ApiRequest)
    ensures
        r.method == Method::Post,
        r.path@ == "/v1/users/"@ + seg(username) + "/tokens"@,
        r.body matches Some(b) && create_token_body_ok(
            b,
            name@,
            ttl,
            match token_type {
                Some(s) => Some(s@),
                None => None,
            },
        ),
{
    let mut p: String = "/v1/users/".to_owned();
    let e = encode_path(username);
    p.append(e.as_str());
    p.append("/tokens");

    let mut pairs: Vec<(String, Jv)> = Vec::new();
    pairs.push(("name".to_owned(), Jv::Str(name.to_owned())));
    match ttl {
        Some(t) => pairs.push(("ttl".to_owned(), Jv::UInt(t))),
        None => {},
    }
    match token_type {
        Some(s) => pairs.push(("token_type".to_owned(), Jv::Str(s.to_owned()))),
        None => {},
    }
    let ghost ps = pairs@;
    proof {
        reveal_strlit("name");
        reveal_strlit("ttl");
        reveal_strlit("token_type");
        assert("name"@.len() == 4);
        assert("ttl"@.len() == 3);
        assert("token_type"@.len() == 10);
        assert(ps[0].0@ == "name"@);
        crate::jsonv::lemma_lookup_at(ps, "name"@, 0);
        if ttl is Some {
            crate::jsonv::lemma_lookup_at(ps, "ttl"@, 1);
        } else {
            crate::jsonv::lemma_lookup_none(ps, "ttl"@);
        }
        if token_type is Some {
            crate::jsonv::lemma_lookup_at(
                ps,
                "token_type"@,
                if ttl is Some {
                    2int
                } else {
                    1int
                },
            );
        } else {
            crate::jsonv::lemma_lookup_none(ps, "token_type"@);
        }
    }
    let b = Jv::Obj(pairs);
    assert(create_token_body_ok(
        b,
        name@,
        ttl,
        match token_type {
            Some(s) => Some(s@),
            None => None,
        },
    ));
    ApiRequest { method: Method::Post, path: p, body: Some(b) }
}

/// `DELETE /v1/users/{username}/tokens/{token_id}`.
pub fn delete_token_request(username: &str, token_id: &str) -> (r: ApiRequest)
    ensures
        r.method == Method::Delete,
        r.path@ == "/v1/users/"@ + seg(username) + "/tokens/"@ + seg(token_id),
        r.body is None,
{
    let mut p: String = "/v1/users/".to_owned();
    let e = encode_path(username);
    p.append(e.as_str());
    p.append("/tokens/");
    let e2 = encode_path(token_id);
    p.append(e2.as_str());
    ApiRequest { method: Method::Delete, path: p, body: None }
}

/// `GET /v1/users/{username}/instances`.
pub fn get_duckling_config_request(username: &str) -> (r: ApiRequest)
    ensures
        r.method == Method::Get,
        r.path@ == "/v1/users/"@ + seg(username) + "/instances"@,
        r.body is None,
{
    let mut p: String = "/v1/users/".to_owned();
    let e = encode_path(username);
    p.append(e.as_str());
    p.append("/instances");
    ApiRequest { method: Method::Get, path: p, body: None }
}

/// The full configuration body written by an update:
/// `{"config": {"read_write": {"instance_size": rw},
///              "read_scaling": {"instance_size": rs, "flock_size": flock}}}`.
pub open spec fn duckling_body_ok(b: Jv, rw: Seq<char>, rs: Seq<char>, flock: u32) -> bool {
    &&& b matches Jv::Obj(ps0)
    &&& ps0@.len() == 1
    &&& field_of(b, "config"@) matches Some(cfg)
    &&& (field_of(b, "config"@) matches Some(cfg) ==> {
        &&& cfg matches Jv::Obj(ps1)
        &&& ps1@.len() == 2
        &&& field_of(cfg, "read_write"@) matches Some(rwv)
        &&& (field_of(cfg, "read_write"@) matches Some(rwv) ==> {
            &&& rwv matches Jv::Obj(ps2)
            &&& ps2@.len() == 1
            &&& str_field_of(rwv, "instance_size"@) == Some(rw)
        })
        &&& field_of(cfg, "read_scaling"@) matches Some(rsv)
        &&& (field_of(cfg, "read_scaling"@) matches Some(rsv) ==> {
            &&& rsv matches Jv::Obj(ps3)
            &&& ps3@.len() == 2
            &&& str_field_of(rsv, "instance_size"@) == Some(rs)
            &&& uint_field_of(rsv, "flock_size"@) == Some(flock as u64)
        })
    })
}

/// `PUT /v1/users/{username}/instances` with the full configuration body.
pub fn set_duckling_config_request(
    username: &str,
    rw_size: &str,
    rs_size: &str,
    rs_flock_size: u32,
) -> (r: ApiRequest)
    ensures
        r.method == Method::Put,
        r.path@ == "/v1/users/"@ + seg(username) + "/instances"@,
        r.body matches Some(b) && duckling_body_ok(b, rw_size@, rs_size@, rs_flock_size),
{
    let mut p: String = "/v1/users/".to_owned();
    let e = encode_path(username);
    p.append(e.as_str());
    p.append("/instances");

    let mut rw_pairs: Vec<(String, Jv)> = Vec::new();
    rw_pairs.push(("instance_size".to_owned(), Jv::Str(rw_size.to_owned())));
    let ghost rwp = rw_pairs@;
    let rw_obj = Jv::Obj(rw_pairs);

    let mut rs_pairs: Vec<(String, Jv)> = Vec::new();
    rs_pairs.push(("instance_size".to_owned(), Jv::Str(rs_size.to_owned())));
    rs_pairs.push(("flock_size".to_owned(), Jv::UInt(rs_flock_size as u64)));
    let ghost rsp = rs_pairs@;
    let rs_obj = Jv::Obj(rs_pairs);

    let mut cfg_pairs: Vec<(String, Jv)> = Vec::new();
    cfg_pairs.push(("read_write".to_owned(), rw_obj));
    cfg_pairs.push(("read_scaling".to_owned(), rs_obj));
    let ghost cfp = cfg_pairs@;
    let cfg_obj = Jv::Obj(cfg_pairs);

    let mut body_pairs: Vec<(String, Jv)> = Vec::new();
    body_pairs.push(("config".to_owned(), cfg_obj));
    let ghost bp = body_pairs@;
    let b = Jv::Obj(body_pairs);

    proof {
        reveal_strlit("instance_size");
        reveal_strlit("flock_size");
        reveal_strlit("read_write");
        reveal_strlit("read_scaling");
        reveal_strlit("config");
        assert("instance_size"@.len() == 13);
        assert("flock_size"@.len() == 10);
        assert("read_write"@.len() == 10);
        assert("read_scaling"@.len() == 12);
        assert("read_write"@[5] == 'w' && "read_scaling"@[5] == 's');
        crate::jsonv::lemma_lookup_at(rwp, "instance_size"@, 0);
        crate::jsonv::lemma_lookup_at(rsp, "instance_size"@, 0);
        crate::jsonv::lemma_lookup_at(rsp, "flock_size"@, 1);
        crate::jsonv::lemma_lookup_at(cfp, "read_write"@, 0);
        crate::jsonv::lemma_lookup_at(cfp, "read_scaling"@, 1);
        crate::jsonv::lemma_lookup_at(bp, "config"@, 0);
    }
    assert(duckling_body_ok(b, rw_size@, rs_size@, rs_flock_size));
    ApiRequest { method: Method::Put, path: p, body: Some(b) }
}

/// `GET /v1/active_accounts`.
pub fn list_active_accounts_request() -> (r: ApiRequest)
    ensures
        r.method == Method::Get,
        r.path@ == "/v1/active_accounts"@,
        r.body is None,
{
    ApiRequest { method: Method::Get, path: "/v1/active_accounts".to_owned(), body: None }
}

} // verus!
