//! The client: its identity, the request each operation sends, and the
//! rule that turns an HTTP status and response body into a typed payload
//! or a uniform failure.
//!
//! The network exchange itself happens outside the library: a caller takes
//! a `RequestParts`, performs the HTTP round trip, and hands the status
//! and body text back to the matching `*_response` function.

use vstd::prelude::*;
use vstd::string::*;
use crate::json::{Json, JsonV, jview, spec_parse, spec_ser, parse_json_text, to_json_text};
use crate::errors::{DelError, DelErrorV, del_error_from_json, decode_error_v, decode_failure,
    decode_del_error};
use crate::models::{
    WebsiteStatistics, WebsiteStatisticsV, website_statistics_from_json, decode_website_statistics,
    WebsiteHealth, WebsiteHealthV, website_health_from_json, decode_website_health,
    BotInformation, BotInformationV, bot_information_from_json, decode_bot_information,
    BotStatistics, BotStatisticsV, bot_statistics_from_json, decode_bot_statistics,
    ServerInformation, ServerInformationV, server_information_from_json, decode_server_information,
    TemplateInformation, TemplateInformationV, template_information_from_json,
    decode_template_information,
    UserInformation, UserInformationV, user_information_from_json, decode_user_information,
};
use crate::submodels::{APIPostStats, APIPostStatsV, api_post_stats_to_json,
    encode_api_post_stats};

verus! {

/// The client's immutable identity: a bearer token, used only for the
/// statistics submission, and the caller's own resource identifier.
#[derive(Debug, Clone)]
pub struct Del {
    pub token: String,
    pub id: String,
}

impl Del {
    /// A client takes its token and identifier as given; the remote
    /// service validates them and answers with an HTTP status.
    pub fn new(token: String, id: String) -> (r: Del)
        ensures
            r.token@ == token@,
            r.id@ == id@,
    {
        Del { token, id }
    }
}

impl Default for Del {
    /// The anonymous client: empty token and identifier, enough for
    /// every read operation.
    fn default() -> (r: Del)
        ensures
            r.token@ == Seq::<char>::empty(),
            r.id@ == Seq::<char>::empty(),
    {
        Del { token: String::new(), id: String::new() }
    }
}

#[derive(Debug, Clone, Copy, PartialEq, Eq, Structural)]
pub enum HttpMethod {
    Get,
    Post,
}

/// Everything a caller needs to perform one HTTP exchange.
#[derive(Debug, Clone)]
pub struct RequestParts {
    pub method: HttpMethod,
    pub url: String,
    pub headers: Vec<(String, String)>,
    pub body: String,
}

/// The fixed host and versioned path prefix of every request.
pub open spec fn base_url() -> Seq<char> {
    "https://api.discordextremelist.xyz/v2"@
}

/// The identifying user agent sent on every request.
pub open spec fn user_agent() -> Seq<char> {
    "del-rs ( 0.1.0, https://github.com/discordextremelist/del-rs )"@
}

pub open spec fn headers_view(v: Seq<(String, String)>) -> Seq<(Seq<char>, Seq<char>)> {
    v.map_values(|p: (String, String)| (p.0@, p.1@))
}

/// The headers of a call: the user agent always; on an authenticated
/// call also the token and a JSON content type, in this order.
pub open spec fn spec_headers(authenticated: bool, token: Seq<char>) -> Seq<
    (Seq<char>, Seq<char>),
> {
    if authenticated {
        seq![
            ("User-Agent"@, user_agent()),
            ("Authorization"@, token),
            ("Content-Type"@, "application/json"@),
        ]
    } else {
        seq![("User-Agent"@, user_agent())]
    }
}

pub open spec fn opt_body_view(body: Option<String>) -> Seq<char> {
    match body {
        Some(b) => b@,
        None => Seq::empty(),
    }
}

impl Del {
    /// The one request-building rule: URL is the base joined with the
    /// route, the headers follow `spec_headers`, the body is the given
    /// one or empty.
    pub fn build_request(
        &self,
        authenticated: bool,
        method: HttpMethod,
        route: &str,
        body: Option<String>,
    ) -> (r: RequestParts)
        ensures
            r.method == method,
            r.url@ == base_url() + route@,
            headers_view(r.headers@) == spec_headers(authenticated, self.token@),
            r.body@ == opt_body_view(body),
    {
        let url = String::from_str("https://api.discordextremelist.xyz/v2").concat(route);
        let mut headers: Vec<(String, String)> = Vec::new();
        headers.push(
            (
                String::from_str("User-Agent"),
                String::from_str("del-rs ( 0.1.0, https://github.com/discordextremelist/del-rs )"),
            ),
        );
        if authenticated {
            headers.push((String::from_str("Authorization"), self.token.clone()));
            headers.push((String::from_str("Content-Type"), String::from_str("application/json")));
        }
        proof {
            assert(headers_view(headers@) =~= spec_headers(authenticated, self.token@));
        }
        let b = match body {
            Some(b) => b,
            None => String::new(),
        };
        RequestParts { method, url, headers, body: b }
    }

    /// The request of the site statistics operation.
    pub fn website_stats_request(&self) -> (r: RequestParts)
        ensures
            r.method == HttpMethod::Get,
            r.url@ == base_url() + "/stats"@,
            headers_view(r.headers@) == spec_headers(false, self.token@),
            r.body@ == Seq::<char>::empty(),
    {
        self.build_request(false, HttpMethod::Get, "/stats", None)
    }

    /// The request of the site health operation.
    pub fn website_health_request(&self) -> (r: RequestParts)
        ensures
            r.method == HttpMethod::Get,
            r.url@ == base_url() + "/health"@,
            headers_view(r.headers@) == spec_headers(false, self.token@),
            r.body@ == Seq::<char>::empty(),
    {
        self.build_request(false, HttpMethod::Get, "/health", None)
    }

    /// The request of the bot lookup operation.
    pub fn bot_info_request(&self, id: &str) -> (r: RequestParts)
        ensures
            r.method == HttpMethod::Get,
            r.url@ == base_url() + "/bot/"@ + id@,
            headers_view(r.headers@) == spec_headers(false, self.token@),
            r.body@ == Seq::<char>::empty(),
    {
        let route = String::from_str("/bot/").concat(id);
        let r = self.build_request(false, HttpMethod::Get, route.as_str(), None);
        proof {
            assert(base_url() + ("/bot/"@ + id@) =~= base_url() + "/bot/"@ + id@);
        }
        r
    }

    /// The request of the server lookup operation.
    pub fn server_info_request(&self, id: &str) -> (r: RequestParts)
        ensures
            r.method == HttpMethod::Get,
            r.url@ == base_url() + "/server/"@ + id@,
            headers_view(r.headers@) == spec_headers(false, self.token@),
            r.body@ == Seq::<char>::empty(),
    {
        let route = String::from_str("/server/").concat(id);
        let r = self.build_request(false, HttpMethod::Get, route.as_str(), None);
        proof {
            assert(base_url() + ("/server/"@ + id@) =~= base_url() + "/server/"@ + id@);
        }
        r
    }

    /// The request of the template lookup operation.
    pub fn template_info_request(&self, id: &str) -> (r: RequestParts)
        ensures
            r.method == HttpMethod::Get,
            r.url@ == base_url() + "/template/"@ + id@,
            headers_view(r.headers@) == spec_headers(false, self.token@),
            r.body@ == Seq::<char>::empty(),
    {
        let route = String::from_str("/template/").concat(id);
        let r = self.build_request(false, HttpMethod::Get, route.as_str(), None);
        proof {
            assert(base_url() + ("/template/"@ + id@) =~= base_url() + "/template/"@ + id@);
        }
        r
    }

    /// The request of the user lookup operation.
    pub fn user_info_request(&self, id: &str) -> (r: RequestParts)
        ensures
            r.method == HttpMethod::Get,
            r.url@ == base_url() + "/user/"@ + id@,
            headers_view(r.headers@) == spec_headers(false, self.token@),
            r.body@ == Seq::<char>::empty(),
    {
        let route = String::from_str("/user/").concat(id);
        let r = self.build_request(false, HttpMethod::Get, route.as_str(), None);
        proof {
            assert(base_url() + ("/user/"@ + id@) =~= base_url() + "/user/"@ + id@);
        }
        r
    }

    /// The request of the statistics submission: the one write, the one
    /// authenticated call, against the client's own identifier, with the
    /// submission serialized as its JSON body.
    pub fn post_stats_request(&self, guild_count: u64, shard_count: Option<u64>) -> (r:
        RequestParts)
        ensures
            r.method == HttpMethod::Post,
            r.url@ == base_url() + "/bot/"@ + self.id@ + "/stats"@,
            headers_view(r.headers@) == spec_headers(true, self.token@),
            r.body@ == spec_ser(
                api_post_stats_to_json(
                    APIPostStatsV { guild_count, shard_count },
                ),
            ),
    {
        let stats = APIPostStats { guild_count, shard_count };
        let body = to_json_text(&encode_api_post_stats(&stats));
        let route = String::from_str("/bot/").concat(self.id.as_str()).concat("/stats");
        let r = self.build_request(true, HttpMethod::Post, route.as_str(), Some(body));
        proof {
            assert(base_url() + ("/bot/"@ + self.id@ + "/stats"@) =~= base_url() + "/bot/"@
                + self.id@ + "/stats"@);
        }
        r
    }
}

/// The success range of HTTP statuses.
pub open spec fn is_success_status(status: u16) -> bool {
    200 <= status < 300
}

/// The decision rule of every call, over the mathematical models: a
/// success status decodes the body as the expected schema; any other
/// status decodes it as the uniform failure record; a body that does not
/// parse or does not match yields the decode failure, which carries no
/// HTTP status.
pub open spec fn spec_interpret<TV>(
    dec: spec_fn(JsonV) -> Option<TV>,
    status: u16,
    body: Seq<char>,
) -> Result<TV, DelErrorV> {
    if is_success_status(status) {
        match spec_parse(body) {
            Some(j) => match dec(j) {
                Some(t) => Ok(t),
                None => Err(decode_error_v()),
            },
            None => Err(decode_error_v()),
        }
    } else {
        match spec_parse(body) {
            Some(j) => match del_error_from_json(j) {
                Some(e) => Err(e),
                None => Err(decode_error_v()),
            },
            None => Err(decode_error_v()),
        }
    }
}

/// Status and body, classified once: on a success status the parsed body;
/// otherwise the API's own failure record, or the decode failure where
/// the body does not even read as one.
pub fn classify_response(status: u16, body: &str) -> (r: Result<Json, DelError>)
    ensures
        (match r {
            Ok(j) => is_success_status(status) && spec_parse(body@) == Some(j@),
            Err(e) => if is_success_status(status) {
                spec_parse(body@) is None && e@ == decode_error_v()
            } else {
                e@ == (match spec_parse(body@) {
                    Some(j) => (match del_error_from_json(j) {
                        Some(ev) => ev,
                        None => decode_error_v(),
                    }),
                    None => decode_error_v(),
                })
            },
        }),
{
    let parsed = parse_json_text(body);
    if 200 <= status && status < 300 {
        match parsed {
            Some(j) => Ok(j),
            None => Err(decode_failure()),
        }
    } else {
        match parsed {
            Some(j) => match decode_del_error(&j) {
                Some(e) => Err(e),
                None => Err(decode_failure()),
            },
            None => Err(decode_failure()),
        }
    }
}

/// The response rule of the site statistics operation.
pub fn website_stats_response(status: u16, body: &str) -> (r: Result<WebsiteStatistics, DelError>)
    ensures
        (match r {
            Ok(t) => spec_interpret(
                |j: JsonV| website_statistics_from_json(j),
                status,
                body@,
            ) == Ok::<WebsiteStatisticsV, DelErrorV>(t@),
            Err(e) => spec_interpret(
                |j: JsonV| website_statistics_from_json(j),
                status,
                body@,
            ) == Err::<WebsiteStatisticsV, DelErrorV>(e@),
        }),
{
    match classify_response(status, body) {
        Ok(j) => match decode_website_statistics(&j) {
            Some(t) => Ok(t),
            None => Err(decode_failure()),
        },
        Err(e) => Err(e),
    }
}

/// The response rule of the site health operation.
pub fn website_health_response(status: u16, body: &str) -> (r: Result<WebsiteHealth, DelError>)
    ensures
        (match r {
            Ok(t) => spec_interpret(
                |j: JsonV| website_health_from_json(j),
                status,
                body@,
            ) == Ok::<WebsiteHealthV, DelErrorV>(t@),
            Err(e) => spec_interpret(
                |j: JsonV| website_health_from_json(j),
                status,
                body@,
            ) == Err::<WebsiteHealthV, DelErrorV>(e@),
        }),
{
    match classify_response(status, body) {
        Ok(j) => match decode_website_health(&j) {
            Some(t) => Ok(t),
            None => Err(decode_failure()),
        },
        Err(e) => Err(e),
    }
}

/// The response rule of the bot lookup operation.
pub fn bot_info_response(status: u16, body: &str) -> (r: Result<BotInformation, DelError>)
    ensures
        (match r {
            Ok(t) => spec_interpret(
                |j: JsonV| bot_information_from_json(j),
                status,
                body@,
            ) == Ok::<BotInformationV, DelErrorV>(t@),
            Err(e) => spec_interpret(
                |j: JsonV| bot_information_from_json(j),
                status,
                body@,
            ) == Err::<BotInformationV, DelErrorV>(e@),
        }),
{
    match classify_response(status, body) {
        Ok(j) => match decode_bot_information(&j) {
            Some(t) => Ok(t),
            None => Err(decode_failure()),
        },
        Err(e) => Err(e),
    }
}

/// The response rule of the statistics submission.
pub fn post_stats_response(status: u16, body: &str) -> (r: Result<BotStatistics, DelError>)
    ensures
        (match r {
            Ok(t) => spec_interpret(
                |j: JsonV| bot_statistics_from_json(j),
                status,
                body@,
            ) == Ok::<BotStatisticsV, DelErrorV>(t@),
            Err(e) => spec_interpret(
                |j: JsonV| bot_statistics_from_json(j),
                status,
                body@,
            ) == Err::<BotStatisticsV, DelErrorV>(e@),
        }),
{
    match classify_response(status, body) {
        Ok(j) => match decode_bot_statistics(&j) {
            Some(t) => Ok(t),
            None => Err(decode_failure()),
        },
        Err(e) => Err(e),
    }
}

/// The response rule of the server lookup operation.
pub fn server_info_response(status: u16, body: &str) -> (r: Result<ServerInformation, DelError>)
    ensures
        (match r {
            Ok(t) => spec_interpret(
                |j: JsonV| server_information_from_json(j),
                status,
                body@,
            ) == Ok::<ServerInformationV, DelErrorV>(t@),
            Err(e) => spec_interpret(
                |j: JsonV| server_information_from_json(j),
                status,
                body@,
            ) == Err::<ServerInformationV, DelErrorV>(e@),
        }),
{
    match classify_response(status, body) {
        Ok(j) => match decode_server_information(&j) {
            Some(t) => Ok(t),
            None => Err(decode_failure()),
        },
        Err(e) => Err(e),
    }
}

/// The response rule of the template lookup operation.
pub fn template_info_response(status: u16, body: &str) -> (r: Result<
    TemplateInformation,
    DelError,
>)
    ensures
        (match r {
            Ok(t) => spec_interpret(
                |j: JsonV| template_information_from_json(j),
                status,
                body@,
            ) == Ok::<TemplateInformationV, DelErrorV>(t@),
            Err(e) => spec_interpret(
                |j: JsonV| template_information_from_json(j),
                status,
                body@,
            ) == Err::<TemplateInformationV, DelErrorV>(e@),
        }),
{
    match classify_response(status, body) {
        Ok(j) => match decode_template_information(&j) {
            Some(t) => Ok(t),
            None => Err(decode_failure()),
        },
        Err(e) => Err(e),
    }
}

/// The response rule of the user lookup operation.
pub fn user_info_response(status: u16, body: &str) -> (r: Result<UserInformation, DelError>)
    ensures
        (match r {
            Ok(t) => spec_interpret(
                |j: JsonV| user_information_from_json(j),
                status,
                body@,
            ) == Ok::<UserInformationV, DelErrorV>(t@),
            Err(e) => spec_interpret(
                |j: JsonV| user_information_from_json(j),
                status,
                body@,
            ) == Err::<UserInformationV, DelErrorV>(e@),
        }),
{
    match classify_response(status, body) {
        Ok(j) => match decode_user_information(&j) {
            Some(t) => Ok(t),
            None => Err(decode_failure()),
        },
        Err(e) => Err(e),
    }
}


/// A body that is valid JSON but lacks a required field of the expected
/// schema is a decode failure, never a payload with a made-up value: here
/// stated for the site statistics schema and its `templates` count.
pub proof fn lemma_missing_field_is_decode_error(
    status: u16,
    body: Seq<char>,
    o: Seq<(Seq<char>, JsonV)>,
)
    requires
        is_success_status(status),
        spec_parse(body) == Some(JsonV::Obj(o)),
        crate::json::lookup_u64(o, "templates"@) is None,
    ensures
        spec_interpret(|j: JsonV| website_statistics_from_json(j), status, body) == Err::<
            WebsiteStatisticsV,
            DelErrorV,
        >(decode_error_v()),
{
}

} // verus!
