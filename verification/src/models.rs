//! The top-level payloads of the seven operations: each merges the common
//! success prefix (`error`, `status`) with the endpoint's own fields.

use vstd::prelude::*;
use vstd::string::*;
use crate::json::{
    Json, JsonV, jview, jview_obj, lookup, lookup_u64, lookup_bool, lookup_str,
    lookup_arr, str_elems, strs_to_json, get_u64, get_bool, get_string, obj_get,
    lemma_jview_obj_len,
};
use crate::submodels::{
    Servers, ServersV, servers_to_json, servers_from_json, encode_servers, decode_servers, lemma_servers_roundtrip, Bots, BotsV, bots_to_json, bots_from_json, encode_bots, decode_bots, lemma_bots_roundtrip, Users, UsersV, users_to_json, users_from_json, encode_users, decode_users, lemma_users_roundtrip, Bot, BotV, bot_to_json, bot_from_json, encode_bot, decode_bot, lemma_bot_roundtrip, Server, ServerV, server_to_json, server_from_json, encode_server, decode_server, lemma_server_roundtrip, Template, TemplateV, template_to_json, template_from_json, encode_template, decode_template, lemma_template_roundtrip, User, UserV, user_to_json, user_from_json, encode_user, decode_user, lemma_user_roundtrip, Staff, StaffV,
};

verus! {

/// The common prefix of every success payload.
#[derive(Debug, Clone, PartialEq)]
pub struct BaseResponse {
    pub error: bool,
    pub status: u64,
}

pub struct BaseResponseV {
    pub error: bool,
    pub status: u64,
}

impl View for BaseResponse {
    type V = BaseResponseV;

    open spec fn view(&self) -> BaseResponseV {
        BaseResponseV { error: self.error, status: self.status }
    }
}

/// The site statistics payload.
#[derive(Debug, Clone, PartialEq)]
pub struct WebsiteStatistics {
    pub base: BaseResponse,
    pub servers: Servers,
    pub bots: Bots,
    pub users: Users,
    pub templates: u64,
}

pub struct WebsiteStatisticsV {
    pub base: BaseResponseV,
    pub servers: ServersV,
    pub bots: BotsV,
    pub users: UsersV,
    pub templates: u64,
}

impl View for WebsiteStatistics {
    type V = WebsiteStatisticsV;

    open spec fn view(&self) -> WebsiteStatisticsV {
        WebsiteStatisticsV {
            base: self.base@,
            servers: self.servers@,
            bots: self.bots@,
            users: self.users@,
            templates: self.templates,
        }
    }
}

/// How a record of this schema is written as a JSON object.
pub open spec fn website_statistics_to_json(x: WebsiteStatisticsV) -> JsonV {
    JsonV::Obj(seq![("error"@, JsonV::Bool(x.base.error)), ("status"@, JsonV::Num(x.base.status)), ("servers"@, servers_to_json(x.servers)), ("bots"@, bots_to_json(x.bots)), ("users"@, users_to_json(x.users)), ("templates"@, JsonV::Num(x.templates))])
}

/// How a JSON value reads as a record of this schema, if it does.
pub open spec fn website_statistics_from_json(j: JsonV) -> Option<WebsiteStatisticsV> {
    match j {
        JsonV::Obj(o) => {
            let f_error = lookup_bool(o, "error"@);
            let f_status = lookup_u64(o, "status"@);
            let f_servers = (match lookup(o, "servers"@) { Some(v) => servers_from_json(v), None => None });
            let f_bots = (match lookup(o, "bots"@) { Some(v) => bots_from_json(v), None => None });
            let f_users = (match lookup(o, "users"@) { Some(v) => users_from_json(v), None => None });
            let f_templates = lookup_u64(o, "templates"@);
            if f_error is Some && f_status is Some && f_servers is Some && f_bots is Some && f_users is Some && f_templates is Some {
                Some(WebsiteStatisticsV {
                    base: BaseResponseV { error: f_error.unwrap(), status: f_status.unwrap() },
                    servers: f_servers.unwrap(),
                    bots: f_bots.unwrap(),
                    users: f_users.unwrap(),
                    templates: f_templates.unwrap(),
                })
            } else {
                None
            }
        },
        _ => None,
    }
}

#[verifier::rlimit(100)]
pub fn encode_website_statistics(x: &WebsiteStatistics) -> (r: Json)
    ensures
        r@ == website_statistics_to_json(x@),
{
    let mut o: Vec<(String, Json)> = Vec::new();
    o.push((String::from_str("error"), Json::Bool(x.base.error)));
    o.push((String::from_str("status"), Json::Num(x.base.status)));
    o.push((String::from_str("servers"), encode_servers(&x.servers)));
    o.push((String::from_str("bots"), encode_bots(&x.bots)));
    o.push((String::from_str("users"), encode_users(&x.users)));
    o.push((String::from_str("templates"), Json::Num(x.templates)));
    proof {
        lemma_jview_obj_len(o@);
        assert(jview_obj(o@)[0] == ("error"@, JsonV::Bool(x@.base.error)));
        assert(jview_obj(o@)[1] == ("status"@, JsonV::Num(x@.base.status)));
        assert(jview_obj(o@)[2] == ("servers"@, servers_to_json(x@.servers)));
        assert(jview_obj(o@)[3] == ("bots"@, bots_to_json(x@.bots)));
        assert(jview_obj(o@)[4] == ("users"@, users_to_json(x@.users)));
        assert(jview_obj(o@)[5] == ("templates"@, JsonV::Num(x@.templates)));
        assert(jview_obj(o@) =~= seq![("error"@, JsonV::Bool(x@.base.error)), ("status"@, JsonV::Num(x@.base.status)), ("servers"@, servers_to_json(x@.servers)), ("bots"@, bots_to_json(x@.bots)), ("users"@, users_to_json(x@.users)), ("templates"@, JsonV::Num(x@.templates))]);
    }
    Json::Obj(o)
}

#[verifier::rlimit(100)]
pub fn decode_website_statistics(j: &Json) -> (r: Option<WebsiteStatistics>)
    ensures
        match r {
            Some(x) => website_statistics_from_json(j@) == Some(x@),
            None => website_statistics_from_json(j@) is None,
        },
{
    match j {
        Json::Obj(o) => {
        let f_error = match get_bool(o, "error") { Some(v) => v, None => { return None } };
        let f_status = match get_u64(o, "status") { Some(v) => v, None => { return None } };
        let f_servers = match obj_get(o, "servers") { Some(vj) => match decode_servers(vj) { Some(v) => v, None => { return None } }, None => { return None } };
        let f_bots = match obj_get(o, "bots") { Some(vj) => match decode_bots(vj) { Some(v) => v, None => { return None } }, None => { return None } };
        let f_users = match obj_get(o, "users") { Some(vj) => match decode_users(vj) { Some(v) => v, None => { return None } }, None => { return None } };
        let f_templates = match get_u64(o, "templates") { Some(v) => v, None => { return None } };
            Some(WebsiteStatistics {
                base: BaseResponse { error: f_error, status: f_status },
                servers: f_servers,
                bots: f_bots,
                users: f_users,
                templates: f_templates,
            })
        },
        _ => None,
    }
}

/// Writing a record and reading it back gives the record: every wire
/// field name maps back to the field it came from.
#[verifier::rlimit(100)]
pub proof fn lemma_website_statistics_roundtrip(x: WebsiteStatisticsV)
    ensures
        website_statistics_from_json(website_statistics_to_json(x)) == Some(x),
{
    reveal_strlit("bots");
    reveal_strlit("error");
    reveal_strlit("servers");
    reveal_strlit("status");
    reveal_strlit("templates");
    reveal_strlit("users");
    reveal_with_fuel(lookup, 8);
    assert("bots"@.len() == 4);
    assert("error"@.len() == 5);
    assert("servers"@.len() == 7);
    assert("status"@.len() == 6);
    assert("templates"@.len() == 9);
    assert("users"@.len() == 5);
    assert("error"@[0] == 'e');
    assert("users"@[0] == 'u');
    lemma_servers_roundtrip(x.servers);
    lemma_bots_roundtrip(x.bots);
    lemma_users_roundtrip(x.users);
    let o = seq![("error"@, JsonV::Bool(x.base.error)), ("status"@, JsonV::Num(x.base.status)), ("servers"@, servers_to_json(x.servers)), ("bots"@, bots_to_json(x.bots)), ("users"@, users_to_json(x.users)), ("templates"@, JsonV::Num(x.templates))];
    assert(lookup(o, "error"@) == Some(JsonV::Bool(x.base.error)));
    assert(lookup(o, "status"@) == Some(JsonV::Num(x.base.status)));
    assert(lookup(o, "servers"@) == Some(servers_to_json(x.servers)));
    assert(lookup(o, "bots"@) == Some(bots_to_json(x.bots)));
    assert(lookup(o, "users"@) == Some(users_to_json(x.users)));
    assert(lookup(o, "templates"@) == Some(JsonV::Num(x.templates)));
}

/// The site health payload.
#[derive(Debug, Clone, PartialEq)]
pub struct WebsiteHealth {
    pub base: BaseResponse,
    pub redis_ok: bool,
    pub mongo_ok: bool,
    pub redis_ping: u64,
    pub mongo_ping: u64,
}

pub struct WebsiteHealthV {
    pub base: BaseResponseV,
    pub redis_ok: bool,
    pub mongo_ok: bool,
    pub redis_ping: u64,
    pub mongo_ping: u64,
}

impl View for WebsiteHealth {
    type V = WebsiteHealthV;

    open spec fn view(&self) -> WebsiteHealthV {
        WebsiteHealthV {
            base: self.base@,
            redis_ok: self.redis_ok,
            mongo_ok: self.mongo_ok,
            redis_ping: self.redis_ping,
            mongo_ping: self.mongo_ping,
        }
    }
}

/// How a record of this schema is written as a JSON object.
pub open spec fn website_health_to_json(x: WebsiteHealthV) -> JsonV {
    JsonV::Obj(seq![("error"@, JsonV::Bool(x.base.error)), ("status"@, JsonV::Num(x.base.status)), ("redis_ok"@, JsonV::Bool(x.redis_ok)), ("mongo_ok"@, JsonV::Bool(x.mongo_ok)), ("redis_ping"@, JsonV::Num(x.redis_ping)), ("mongo_ping"@, JsonV::Num(x.mongo_ping))])
}

/// How a JSON value reads as a record of this schema, if it does.
pub open spec fn website_health_from_json(j: JsonV) -> Option<WebsiteHealthV> {
    match j {
        JsonV::Obj(o) => {
            let f_error = lookup_bool(o, "error"@);
            let f_status = lookup_u64(o, "status"@);
            let f_redis_ok = lookup_bool(o, "redis_ok"@);
            let f_mongo_ok = lookup_bool(o, "mongo_ok"@);
            let f_redis_ping = lookup_u64(o, "redis_ping"@);
            let f_mongo_ping = lookup_u64(o, "mongo_ping"@);
            if f_error is Some && f_status is Some && f_redis_ok is Some && f_mongo_ok is Some && f_redis_ping is Some && f_mongo_ping is Some {
                Some(WebsiteHealthV {
                    base: BaseResponseV { error: f_error.unwrap(), status: f_status.unwrap() },
                    redis_ok: f_redis_ok.unwrap(),
                    mongo_ok: f_mongo_ok.unwrap(),
                    redis_ping: f_redis_ping.unwrap(),
                    mongo_ping: f_mongo_ping.unwrap(),
                })
            } else {
                None
            }
        },
        _ => None,
    }
}

#[verifier::rlimit(100)]
pub fn encode_website_health(x: &WebsiteHealth) -> (r: Json)
    ensures
        r@ == website_health_to_json(x@),
{
    let mut o: Vec<(String, Json)> = Vec::new();
    o.push((String::from_str("error"), Json::Bool(x.base.error)));
    o.push((String::from_str("status"), Json::Num(x.base.status)));
    o.push((String::from_str("redis_ok"), Json::Bool(x.redis_ok)));
    o.push((String::from_str("mongo_ok"), Json::Bool(x.mongo_ok)));
    o.push((String::from_str("redis_ping"), Json::Num(x.redis_ping)));
    o.push((String::from_str("mongo_ping"), Json::Num(x.mongo_ping)));
    proof {
        lemma_jview_obj_len(o@);
        assert(jview_obj(o@)[0] == ("error"@, JsonV::Bool(x@.base.error)));
        assert(jview_obj(o@)[1] == ("status"@, JsonV::Num(x@.base.status)));
        assert(jview_obj(o@)[2] == ("redis_ok"@, JsonV::Bool(x@.redis_ok)));
        assert(jview_obj(o@)[3] == ("mongo_ok"@, JsonV::Bool(x@.mongo_ok)));
        assert(jview_obj(o@)[4] == ("redis_ping"@, JsonV::Num(x@.redis_ping)));
        assert(jview_obj(o@)[5] == ("mongo_ping"@, JsonV::Num(x@.mongo_ping)));
        assert(jview_obj(o@) =~= seq![("error"@, JsonV::Bool(x@.base.error)), ("status"@, JsonV::Num(x@.base.status)), ("redis_ok"@, JsonV::Bool(x@.redis_ok)), ("mongo_ok"@, JsonV::Bool(x@.mongo_ok)), ("redis_ping"@, JsonV::Num(x@.redis_ping)), ("mongo_ping"@, JsonV::Num(x@.mongo_ping))]);
    }
    Json::Obj(o)
}

#[verifier::rlimit(100)]
pub fn decode_website_health(j: &Json) -> (r: Option<WebsiteHealth>)
    ensures
        match r {
            Some(x) => website_health_from_json(j@) == Some(x@),
            None => website_health_from_json(j@) is None,
        },
{
    match j {
        Json::Obj(o) => {
        let f_error = match get_bool(o, "error") { Some(v) => v, None => { return None } };
        let f_status = match get_u64(o, "status") { Some(v) => v, None => { return None } };
        let f_redis_ok = match get_bool(o, "redis_ok") { Some(v) => v, None => { return None } };
        let f_mongo_ok = match get_bool(o, "mongo_ok") { Some(v) => v, None => { return None } };
        let f_redis_ping = match get_u64(o, "redis_ping") { Some(v) => v, None => { return None } };
        let f_mongo_ping = match get_u64(o, "mongo_ping") { Some(v) => v, None => { return None } };
            Some(WebsiteHealth {
                base: BaseResponse { error: f_error, status: f_status },
                redis_ok: f_redis_ok,
                mongo_ok: f_mongo_ok,
                redis_ping: f_redis_ping,
                mongo_ping: f_mongo_ping,
            })
        },
        _ => None,
    }
}

/// Writing a record and reading it back gives the record: every wire
/// field name maps back to the field it came from.
#[verifier::rlimit(100)]
pub proof fn lemma_website_health_roundtrip(x: WebsiteHealthV)
    ensures
        website_health_from_json(website_health_to_json(x)) == Some(x),
{
    reveal_strlit("error");
    reveal_strlit("mongo_ok");
    reveal_strlit("mongo_ping");
    reveal_strlit("redis_ok");
    reveal_strlit("redis_ping");
    reveal_strlit("status");
    reveal_with_fuel(lookup, 8);
    assert("error"@.len() == 5);
    assert("mongo_ok"@.len() == 8);
    assert("mongo_ping"@.len() == 10);
    assert("redis_ok"@.len() == 8);
    assert("redis_ping"@.len() == 10);
    assert("status"@.len() == 6);
    assert("mongo_ok"@[0] == 'm');
    assert("redis_ok"@[0] == 'r');
    assert("mongo_ping"@[0] == 'm');
    assert("redis_ping"@[0] == 'r');
    let o = seq![("error"@, JsonV::Bool(x.base.error)), ("status"@, JsonV::Num(x.base.status)), ("redis_ok"@, JsonV::Bool(x.redis_ok)), ("mongo_ok"@, JsonV::Bool(x.mongo_ok)), ("redis_ping"@, JsonV::Num(x.redis_ping)), ("mongo_ping"@, JsonV::Num(x.mongo_ping))];
    assert(lookup(o, "error"@) == Some(JsonV::Bool(x.base.error)));
    assert(lookup(o, "status"@) == Some(JsonV::Num(x.base.status)));
    assert(lookup(o, "redis_ok"@) == Some(JsonV::Bool(x.redis_ok)));
    assert(lookup(o, "mongo_ok"@) == Some(JsonV::Bool(x.mongo_ok)));
    assert(lookup(o, "redis_ping"@) == Some(JsonV::Num(x.redis_ping)));
    assert(lookup(o, "mongo_ping"@) == Some(JsonV::Num(x.mongo_ping)));
}

/// The bot lookup payload.
#[derive(Debug, Clone, PartialEq)]
pub struct BotInformation {
    pub base: BaseResponse,
    pub bot: Bot,
}

pub struct BotInformationV {
    pub base: BaseResponseV,
    pub bot: BotV,
}

impl View for BotInformation {
    type V = BotInformationV;

    open spec fn view(&self) -> BotInformationV {
        BotInformationV {
            base: self.base@,
            bot: self.bot@,
        }
    }
}

/// How a record of this schema is written as a JSON object.
pub open spec fn bot_information_to_json(x: BotInformationV) -> JsonV {
    JsonV::Obj(seq![("error"@, JsonV::Bool(x.base.error)), ("status"@, JsonV::Num(x.base.status)), ("bot"@, bot_to_json(x.bot))])
}

/// How a JSON value reads as a record of this schema, if it does.
pub open spec fn bot_information_from_json(j: JsonV) -> Option<BotInformationV> {
    match j {
        JsonV::Obj(o) => {
            let f_error = lookup_bool(o, "error"@);
            let f_status = lookup_u64(o, "status"@);
            let f_bot = (match lookup(o, "bot"@) { Some(v) => bot_from_json(v), None => None });
            if f_error is Some && f_status is Some && f_bot is Some {
                Some(BotInformationV {
                    base: BaseResponseV { error: f_error.unwrap(), status: f_status.unwrap() },
                    bot: f_bot.unwrap(),
                })
            } else {
                None
            }
        },
        _ => None,
    }
}

#[verifier::rlimit(100)]
pub fn encode_bot_information(x: &BotInformation) -> (r: Json)
    ensures
        r@ == bot_information_to_json(x@),
{
    let mut o: Vec<(String, Json)> = Vec::new();
    o.push((String::from_str("error"), Json::Bool(x.base.error)));
    o.push((String::from_str("status"), Json::Num(x.base.status)));
    o.push((String::from_str("bot"), encode_bot(&x.bot)));
    proof {
        lemma_jview_obj_len(o@);
        assert(jview_obj(o@)[0] == ("error"@, JsonV::Bool(x@.base.error)));
        assert(jview_obj(o@)[1] == ("status"@, JsonV::Num(x@.base.status)));
        assert(jview_obj(o@)[2] == ("bot"@, bot_to_json(x@.bot)));
        assert(jview_obj(o@) =~= seq![("error"@, JsonV::Bool(x@.base.error)), ("status"@, JsonV::Num(x@.base.status)), ("bot"@, bot_to_json(x@.bot))]);
    }
    Json::Obj(o)
}

#[verifier::rlimit(100)]
pub fn decode_bot_information(j: &Json) -> (r: Option<BotInformation>)
    ensures
        match r {
            Some(x) => bot_information_from_json(j@) == Some(x@),
            None => bot_information_from_json(j@) is None,
        },
{
    match j {
        Json::Obj(o) => {
        let f_error = match get_bool(o, "error") { Some(v) => v, None => { return None } };
        let f_status = match get_u64(o, "status") { Some(v) => v, None => { return None } };
        let f_bot = match obj_get(o, "bot") { Some(vj) => match decode_bot(vj) { Some(v) => v, None => { return None } }, None => { return None } };
            Some(BotInformation {
                base: BaseResponse { error: f_error, status: f_status },
                bot: f_bot,
            })
        },
        _ => None,
    }
}

/// Writing a record and reading it back gives the record: every wire
/// field name maps back to the field it came from.
#[verifier::rlimit(100)]
pub proof fn lemma_bot_information_roundtrip(x: BotInformationV)
    ensures
        bot_information_from_json(bot_information_to_json(x)) == Some(x),
{
    reveal_strlit("bot");
    reveal_strlit("error");
    reveal_strlit("status");
    reveal_with_fuel(lookup, 5);
    assert("bot"@.len() == 3);
    assert("error"@.len() == 5);
    assert("status"@.len() == 6);
    lemma_bot_roundtrip(x.bot);
    let o = seq![("error"@, JsonV::Bool(x.base.error)), ("status"@, JsonV::Num(x.base.status)), ("bot"@, bot_to_json(x.bot))];
    assert(lookup(o, "error"@) == Some(JsonV::Bool(x.base.error)));
    assert(lookup(o, "status"@) == Some(JsonV::Num(x.base.status)));
    assert(lookup(o, "bot"@) == Some(bot_to_json(x.bot)));
}

/// The statistics submission payload.
#[derive(Debug, Clone, PartialEq)]
pub struct BotStatistics {
    pub base: BaseResponse,
    pub guild_count: u64,
    pub shard_count: u64,
}

pub struct BotStatisticsV {
    pub base: BaseResponseV,
    pub guild_count: u64,
    pub shard_count: u64,
}

impl View for BotStatistics {
    type V = BotStatisticsV;

    open spec fn view(&self) -> BotStatisticsV {
        BotStatisticsV {
            base: self.base@,
            guild_count: self.guild_count,
            shard_count: self.shard_count,
        }
    }
}

/// How a record of this schema is written as a JSON object.
pub open spec fn bot_statistics_to_json(x: BotStatisticsV) -> JsonV {
    JsonV::Obj(seq![("error"@, JsonV::Bool(x.base.error)), ("status"@, JsonV::Num(x.base.status)), ("guildCount"@, JsonV::Num(x.guild_count)), ("shardCount"@, JsonV::Num(x.shard_count))])
}

/// How a JSON value reads as a record of this schema, if it does.
pub open spec fn bot_statistics_from_json(j: JsonV) -> Option<BotStatisticsV> {
    match j {
        JsonV::Obj(o) => {
            let f_error = lookup_bool(o, "error"@);
            let f_status = lookup_u64(o, "status"@);
            let f_guild_count = lookup_u64(o, "guildCount"@);
            let f_shard_count = lookup_u64(o, "shardCount"@);
            if f_error is Some && f_status is Some && f_guild_count is Some && f_shard_count is Some {
                Some(BotStatisticsV {
                    base: BaseResponseV { error: f_error.unwrap(), status: f_status.unwrap() },
                    guild_count: f_guild_count.unwrap(),
                    shard_count: f_shard_count.unwrap(),
                })
            } else {
                None
            }
        },
        _ => None,
    }
}

#[verifier::rlimit(100)]
pub fn encode_bot_statistics(x: &BotStatistics) -> (r: Json)
    ensures
        r@ == bot_statistics_to_json(x@),
{
    let mut o: Vec<(String, Json)> = Vec::new();
    o.push((String::from_str("error"), Json::Bool(x.base.error)));
    o.push((String::from_str("status"), Json::Num(x.base.status)));
    o.push((String::from_str("guildCount"), Json::Num(x.guild_count)));
    o.push((String::from_str("shardCount"), Json::Num(x.shard_count)));
    proof {
        lemma_jview_obj_len(o@);
        assert(jview_obj(o@)[0] == ("error"@, JsonV::Bool(x@.base.error)));
        assert(jview_obj(o@)[1] == ("status"@, JsonV::Num(x@.base.status)));
        assert(jview_obj(o@)[2] == ("guildCount"@, JsonV::Num(x@.guild_count)));
        assert(jview_obj(o@)[3] == ("shardCount"@, JsonV::Num(x@.shard_count)));
        assert(jview_obj(o@) =~= seq![("error"@, JsonV::Bool(x@.base.error)), ("status"@, JsonV::Num(x@.base.status)), ("guildCount"@, JsonV::Num(x@.guild_count)), ("shardCount"@, JsonV::Num(x@.shard_count))]);
    }
    Json::Obj(o)
}

#[verifier::rlimit(100)]
pub fn decode_bot_statistics(j: &Json) -> (r: Option<BotStatistics>)
    ensures
        match r {
            Some(x) => bot_statistics_from_json(j@) == Some(x@),
            None => bot_statistics_from_json(j@) is None,
        },
{
    match j {
        Json::Obj(o) => {
        let f_error = match get_bool(o, "error") { Some(v) => v, None => { return None } };
        let f_status = match get_u64(o, "status") { Some(v) => v, None => { return None } };
        let f_guild_count = match get_u64(o, "guildCount") { Some(v) => v, None => { return None } };
        let f_shard_count = match get_u64(o, "shardCount") { Some(v) => v, None => { return None } };
            Some(BotStatistics {
                base: BaseResponse { error: f_error, status: f_status },
                guild_count: f_guild_count,
                shard_count: f_shard_count,
            })
        },
        _ => None,
    }
}

/// Writing a record and reading it back gives the record: every wire
/// field name maps back to the field it came from.
#[verifier::rlimit(100)]
pub proof fn lemma_bot_statistics_roundtrip(x: BotStatisticsV)
    ensures
        bot_statistics_from_json(bot_statistics_to_json(x)) == Some(x),
{
    reveal_strlit("error");
    reveal_strlit("guildCount");
    reveal_strlit("shardCount");
    reveal_strlit("status");
    reveal_with_fuel(lookup, 6);
    assert("error"@.len() == 5);
    assert("guildCount"@.len() == 10);
    assert("shardCount"@.len() == 10);
    assert("status"@.len() == 6);
    assert("guildCount"@[0] == 'g');
    assert("shardCount"@[0] == 's');
    let o = seq![("error"@, JsonV::Bool(x.base.error)), ("status"@, JsonV::Num(x.base.status)), ("guildCount"@, JsonV::Num(x.guild_count)), ("shardCount"@, JsonV::Num(x.shard_count))];
    assert(lookup(o, "error"@) == Some(JsonV::Bool(x.base.error)));
    assert(lookup(o, "status"@) == Some(JsonV::Num(x.base.status)));
    assert(lookup(o, "guildCount"@) == Some(JsonV::Num(x.guild_count)));
    assert(lookup(o, "shardCount"@) == Some(JsonV::Num(x.shard_count)));
}

/// The server lookup payload.
#[derive(Debug, Clone, PartialEq)]
pub struct ServerInformation {
    pub base: BaseResponse,
    pub server: Server,
}

pub struct ServerInformationV {
    pub base: BaseResponseV,
    pub server: ServerV,
}

impl View for ServerInformation {
    type V = ServerInformationV;

    open spec fn view(&self) -> ServerInformationV {
        ServerInformationV {
            base: self.base@,
            server: self.server@,
        }
    }
}

/// How a record of this schema is written as a JSON object.
pub open spec fn server_information_to_json(x: ServerInformationV) -> JsonV {
    JsonV::Obj(seq![("error"@, JsonV::Bool(x.base.error)), ("status"@, JsonV::Num(x.base.status)), ("server"@, server_to_json(x.server))])
}

/// How a JSON value reads as a record of this schema, if it does.
pub open spec fn server_information_from_json(j: JsonV) -> Option<ServerInformationV> {
    match j {
        JsonV::Obj(o) => {
            let f_error = lookup_bool(o, "error"@);
            let f_status = lookup_u64(o, "status"@);
            let f_server = (match lookup(o, "server"@) { Some(v) => server_from_json(v), None => None });
            if f_error is Some && f_status is Some && f_server is Some {
                Some(ServerInformationV {
                    base: BaseResponseV { error: f_error.unwrap(), status: f_status.unwrap() },
                    server: f_server.unwrap(),
                })
            } else {
                None
            }
        },
        _ => None,
    }
}

#[verifier::rlimit(100)]
pub fn encode_server_information(x: &ServerInformation) -> (r: Json)
    ensures
        r@ == server_information_to_json(x@),
{
    let mut o: Vec<(String, Json)> = Vec::new();
    o.push((String::from_str("error"), Json::Bool(x.base.error)));
    o.push((String::from_str("status"), Json::Num(x.base.status)));
    o.push((String::from_str("server"), encode_server(&x.server)));
    proof {
        lemma_jview_obj_len(o@);
        assert(jview_obj(o@)[0] == ("error"@, JsonV::Bool(x@.base.error)));
        assert(jview_obj(o@)[1] == ("status"@, JsonV::Num(x@.base.status)));
        assert(jview_obj(o@)[2] == ("server"@, server_to_json(x@.server)));
        assert(jview_obj(o@) =~= seq![("error"@, JsonV::Bool(x@.base.error)), ("status"@, JsonV::Num(x@.base.status)), ("server"@, server_to_json(x@.server))]);
    }
    Json::Obj(o)
}

#[verifier::rlimit(100)]
pub fn decode_server_information(j: &Json) -> (r: Option<ServerInformation>)
    ensures
        match r {
            Some(x) => server_information_from_json(j@) == Some(x@),
            None => server_information_from_json(j@) is None,
        },
{
    match j {
        Json::Obj(o) => {
        let f_error = match get_bool(o, "error") { Some(v) => v, None => { return None } };
        let f_status = match get_u64(o, "status") { Some(v) => v, None => { return None } };
        let f_server = match obj_get(o, "server") { Some(vj) => match decode_server(vj) { Some(v) => v, None => { return None } }, None => { return None } };
            Some(ServerInformation {
                base: BaseResponse { error: f_error, status: f_status },
                server: f_server,
            })
        },
        _ => None,
    }
}

/// Writing a record and reading it back gives the record: every wire
/// field name maps back to the field it came from.
#[verifier::rlimit(100)]
pub proof fn lemma_server_information_roundtrip(x: ServerInformationV)
    ensures
        server_information_from_json(server_information_to_json(x)) == Some(x),
{
    reveal_strlit("error");
    reveal_strlit("server");
    reveal_strlit("status");
    reveal_with_fuel(lookup, 5);
    assert("error"@.len() == 5);
    assert("server"@.len() == 6);
    assert("status"@.len() == 6);
    assert("server"@[1] == 'e');
    assert("status"@[1] == 't');
    lemma_server_roundtrip(x.server);
    let o = seq![("error"@, JsonV::Bool(x.base.error)), ("status"@, JsonV::Num(x.base.status)), ("server"@, server_to_json(x.server))];
    assert(lookup(o, "error"@) == Some(JsonV::Bool(x.base.error)));
    assert(lookup(o, "status"@) == Some(JsonV::Num(x.base.status)));
    assert(lookup(o, "server"@) == Some(server_to_json(x.server)));
}

/// The template lookup payload.
#[derive(Debug, Clone, PartialEq)]
pub struct TemplateInformation {
    pub base: BaseResponse,
    pub template: Template,
}

pub struct TemplateInformationV {
    pub base: BaseResponseV,
    pub template: TemplateV,
}

impl View for TemplateInformation {
    type V = TemplateInformationV;

    open spec fn view(&self) -> TemplateInformationV {
        TemplateInformationV {
            base: self.base@,
            template: self.template@,
        }
    }
}

/// How a record of this schema is written as a JSON object.
pub open spec fn template_information_to_json(x: TemplateInformationV) -> JsonV {
    JsonV::Obj(seq![("error"@, JsonV::Bool(x.base.error)), ("status"@, JsonV::Num(x.base.status)), ("template"@, template_to_json(x.template))])
}

/// How a JSON value reads as a record of this schema, if it does.
pub open spec fn template_information_from_json(j: JsonV) -> Option<TemplateInformationV> {
    match j {
        JsonV::Obj(o) => {
            let f_error = lookup_bool(o, "error"@);
            let f_status = lookup_u64(o, "status"@);
            let f_template = (match lookup(o, "template"@) { Some(v) => template_from_json(v), None => None });
            if f_error is Some && f_status is Some && f_template is Some {
                Some(TemplateInformationV {
                    base: BaseResponseV { error: f_error.unwrap(), status: f_status.unwrap() },
                    template: f_template.unwrap(),
                })
            } else {
                None
            }
        },
        _ => None,
    }
}

#[verifier::rlimit(100)]
pub fn encode_template_information(x: &TemplateInformation) -> (r: Json)
    ensures
        r@ == template_information_to_json(x@),
{
    let mut o: Vec<(String, Json)> = Vec::new();
    o.push((String::from_str("error"), Json::Bool(x.base.error)));
    o.push((String::from_str("status"), Json::Num(x.base.status)));
    o.push((String::from_str("template"), encode_template(&x.template)));
    proof {
        lemma_jview_obj_len(o@);
        assert(jview_obj(o@)[0] == ("error"@, JsonV::Bool(x@.base.error)));
        assert(jview_obj(o@)[1] == ("status"@, JsonV::Num(x@.base.status)));
        assert(jview_obj(o@)[2] == ("template"@, template_to_json(x@.template)));
        assert(jview_obj(o@) =~= seq![("error"@, JsonV::Bool(x@.base.error)), ("status"@, JsonV::Num(x@.base.status)), ("template"@, template_to_json(x@.template))]);
    }
    Json::Obj(o)
}

#[verifier::rlimit(100)]
pub fn decode_template_information(j: &Json) -> (r: Option<TemplateInformation>)
    ensures
        match r {
            Some(x) => template_information_from_json(j@) == Some(x@),
            None => template_information_from_json(j@) is None,
        },
{
    match j {
        Json::Obj(o) => {
        let f_error = match get_bool(o, "error") { Some(v) => v, None => { return None } };
        let f_status = match get_u64(o, "status") { Some(v) => v, None => { return None } };
        let f_template = match obj_get(o, "template") { Some(vj) => match decode_template(vj) { Some(v) => v, None => { return None } }, None => { return None } };
            Some(TemplateInformation {
                base: BaseResponse { error: f_error, status: f_status },
                template: f_template,
            })
        },
        _ => None,
    }
}

/// Writing a record and reading it back gives the record: every wire
/// field name maps back to the field it came from.
#[verifier::rlimit(100)]
pub proof fn lemma_template_information_roundtrip(x: TemplateInformationV)
    ensures
        template_information_from_json(template_information_to_json(x)) == Some(x),
{
    reveal_strlit("error");
    reveal_strlit("status");
    reveal_strlit("template");
    reveal_with_fuel(lookup, 5);
    assert("error"@.len() == 5);
    assert("status"@.len() == 6);
    assert("template"@.len() == 8);
    lemma_template_roundtrip(x.template);
    let o = seq![("error"@, JsonV::Bool(x.base.error)), ("status"@, JsonV::Num(x.base.status)), ("template"@, template_to_json(x.template))];
    assert(lookup(o, "error"@) == Some(JsonV::Bool(x.base.error)));
    assert(lookup(o, "status"@) == Some(JsonV::Num(x.base.status)));
    assert(lookup(o, "template"@) == Some(template_to_json(x.template)));
}

/// The user lookup payload.
#[derive(Debug, Clone, PartialEq)]
pub struct UserInformation {
    pub base: BaseResponse,
    pub user: User,
}

pub struct UserInformationV {
    pub base: BaseResponseV,
    pub user: UserV,
}

impl View for UserInformation {
    type V = UserInformationV;

    open spec fn view(&self) -> UserInformationV {
        UserInformationV {
            base: self.base@,
            user: self.user@,
        }
    }
}

/// How a record of this schema is written as a JSON object.
pub open spec fn user_information_to_json(x: UserInformationV) -> JsonV {
    JsonV::Obj(seq![("error"@, JsonV::Bool(x.base.error)), ("status"@, JsonV::Num(x.base.status)), ("user"@, user_to_json(x.user))])
}

/// How a JSON value reads as a record of this schema, if it does.
pub open spec fn user_information_from_json(j: JsonV) -> Option<UserInformationV> {
    match j {
        JsonV::Obj(o) => {
            let f_error = lookup_bool(o, "error"@);
            let f_status = lookup_u64(o, "status"@);
            let f_user = (match lookup(o, "user"@) { Some(v) => user_from_json(v), None => None });
            if f_error is Some && f_status is Some && f_user is Some {
                Some(UserInformationV {
                    base: BaseResponseV { error: f_error.unwrap(), status: f_status.unwrap() },
                    user: f_user.unwrap(),
                })
            } else {
                None
            }
        },
        _ => None,
    }
}

#[verifier::rlimit(100)]
pub fn encode_user_information(x: &UserInformation) -> (r: Json)
    ensures
        r@ == user_information_to_json(x@),
{
    let mut o: Vec<(String, Json)> = Vec::new();
    o.push((String::from_str("error"), Json::Bool(x.base.error)));
    o.push((String::from_str("status"), Json::Num(x.base.status)));
    o.push((String::from_str("user"), encode_user(&x.user)));
    proof {
        lemma_jview_obj_len(o@);
        assert(jview_obj(o@)[0] == ("error"@, JsonV::Bool(x@.base.error)));
        assert(jview_obj(o@)[1] == ("status"@, JsonV::Num(x@.base.status)));
        assert(jview_obj(o@)[2] == ("user"@, user_to_json(x@.user)));
        assert(jview_obj(o@) =~= seq![("error"@, JsonV::Bool(x@.base.error)), ("status"@, JsonV::Num(x@.base.status)), ("user"@, user_to_json(x@.user))]);
    }
    Json::Obj(o)
}

#[verifier::rlimit(100)]
pub fn decode_user_information(j: &Json) -> (r: Option<UserInformation>)
    ensures
        match r {
            Some(x) => user_information_from_json(j@) == Some(x@),
            None => user_information_from_json(j@) is None,
        },
{
    match j {
        Json::Obj(o) => {
        let f_error = match get_bool(o, "error") { Some(v) => v, None => { return None } };
        let f_status = match get_u64(o, "status") { Some(v) => v, None => { return None } };
        let f_user = match obj_get(o, "user") { Some(vj) => match decode_user(vj) { Some(v) => v, None => { return None } }, None => { return None } };
            Some(UserInformation {
                base: BaseResponse { error: f_error, status: f_status },
                user: f_user,
            })
        },
        _ => None,
    }
}

/// Writing a record and reading it back gives the record: every wire
/// field name maps back to the field it came from.
#[verifier::rlimit(100)]
pub proof fn lemma_user_information_roundtrip(x: UserInformationV)
    ensures
        user_information_from_json(user_information_to_json(x)) == Some(x),
{
    reveal_strlit("error");
    reveal_strlit("status");
    reveal_strlit("user");
    reveal_with_fuel(lookup, 5);
    assert("error"@.len() == 5);
    assert("status"@.len() == 6);
    assert("user"@.len() == 4);
    lemma_user_roundtrip(x.user);
    let o = seq![("error"@, JsonV::Bool(x.base.error)), ("status"@, JsonV::Num(x.base.status)), ("user"@, user_to_json(x.user))];
    assert(lookup(o, "error"@) == Some(JsonV::Bool(x.base.error)));
    assert(lookup(o, "status"@) == Some(JsonV::Num(x.base.status)));
    assert(lookup(o, "user"@) == Some(user_to_json(x.user)));
}

} // verus!
