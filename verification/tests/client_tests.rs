use del_rs::del::{
    bot_info_response, post_stats_response, server_info_response, template_info_response,
    user_info_response, website_health_response, website_stats_response, Del, HttpMethod,
};
use del_rs::errors::{decode_del_error, encode_del_error, DelError};
use del_rs::json::{parse_json_text, to_json_text};
use del_rs::models::{
    decode_bot_information, decode_bot_statistics, decode_server_information,
    decode_template_information, decode_user_information, decode_website_health,
    decode_website_statistics, encode_bot_information, encode_bot_statistics,
    encode_server_information, encode_template_information, encode_user_information,
    encode_website_health, encode_website_statistics,
};
use del_rs::submodels::{decode_api_post_stats, encode_api_post_stats, APIPostStats};

const STATS_FIXTURE: &str = r#"{"error":false,"status":200,
    "servers":{"total":11},
    "bots":{"total":250,"approved":200,"premium":10},
    "users":{"total":5000,"premium":25,
        "staff":{"total":9,"mods":4,"assistants":3,"admins":2}},
    "templates":77}"#;

const HEALTH_FIXTURE: &str = r#"{"error":false,"status":200,
    "redis_ok":true,"mongo_ok":true,"redis_ping":3,"mongo_ping":5}"#;

const BOT_FIXTURE: &str = r#"{"error":false,"status":200,"bot":{
    "id":"568254611354419211","name":"fixture-bot","prefix":"!",
    "tags":["moderation","fun"],"vanityUrl":"fixture","serverCount":120,
    "shardCount":2,"flags":0,"shortDesc":"a bot","longDesc":"a longer story",
    "editors":["1","2"],"owner":{"id":"9"},
    "avatar":{"hash":"abc","url":"https://cdn.example/abc.png"},
    "links":{"invite":"https://example/invite","support":"https://example/support",
        "website":"https://example","donation":"https://example/donate",
        "repo":"https://example/repo","privacyPolicy":"https://example/privacy"},
    "social":{"twitter":"fixturebot"},
    "status":{"approved":true,"siteBot":false,"archived":false}}}"#;

const SERVER_FIXTURE: &str = r#"{"error":false,"status":200,"server":{
    "id":"568567800910839811","name":"fixture-guild","shortDesc":"a guild",
    "longDesc":"a longer guild story","tags":["community"],
    "previewChannel":"123","owner":{"id":"9"},
    "icon":{"hash":"def","url":"https://cdn.example/def.png"},
    "links":{"website":"https://example","donation":"https://example/donate"},
    "status":{"reviewRequired":false}}}"#;

const TEMPLATE_FIXTURE: &str = r#"{"error":false,"status":200,"template":{
    "id":"4sgbPdCjzAYU","name":"fixture-template","region":"eu","locale":"en",
    "afkTimeout":300,"verificationLevel":1,"defaultMessageNotifications":0,
    "explicitContent":2,
    "roles":[{"name":"everyone","color":0,"hoist":false,"position":0,
        "permissions":104324673,"managed":false,"mentionable":false}],
    "channels":[{"type":0,"name":"general","nsfw":false,
        "permissions_overwrites":[{"id":"0","type":0,"allow":0,"deny":2048}],
        "rate_limit_per_user":0,"last_message_id":"0","last_pin_timestamp":null}],
    "usageCount":40,"shortDesc":"a template","longDesc":"a longer template story",
    "tags":["starter"],"fromGuild":"568567800910839811","owner":{"id":"9"},
    "icon":{"hash":"ghi","url":"https://cdn.example/ghi.png"},
    "links":{"template":"https://example/template"}}}"#;

const USER_FIXTURE: &str = r#"{"error":false,"status":200,"user":{
    "id":"744603004493365330","name":"fixture-user","discrim":"0001",
    "fullUsername":"fixture-user#0001","flags":0,
    "avatar":{"hash":"jkl","url":"https://cdn.example/jkl.png"},
    "profile":{"bio":"hello","links":{"website":"https://example",
        "github":"https://github.example","gitlab":"https://gitlab.example",
        "twitter":"fixtureuser","instagram":"fixtureuser","snapchat":"fixtureuser"}},
    "game":{"snakes":{"maxScore":12}},
    "rank":{"admin":false,"assistant":false,"mod":false,"tester":true,
        "translator":false,"covid":false}}}"#;

const POST_STATS_FIXTURE: &str =
    r#"{"error":false,"status":200,"guildCount":120,"shardCount":2}"#;

const ERROR_403_FIXTURE: &str = r#"{"error":true,"status":403,"message":"Unauthorized"}"#;

#[test]
fn unauthenticated_read_decodes_success() {
    let res = website_stats_response(200, STATS_FIXTURE).expect("fixture must decode");
    assert_eq!(res.base.error, false);
    assert_eq!(res.base.status, 200);
    assert_eq!(res.servers.total, 11);
    assert_eq!(res.users.staff.admins, 2);
    assert_eq!(res.templates, 77);
}

#[test]
fn health_decodes_success() {
    let res = website_health_response(200, HEALTH_FIXTURE).expect("fixture must decode");
    assert_eq!(res.base.error, false);
    assert_eq!(res.base.status, 200);
    assert!(res.redis_ok);
    assert_eq!(res.mongo_ping, 5);
}

#[test]
fn bot_info_fixture_decodes_without_error() {
    let res = bot_info_response(200, BOT_FIXTURE).expect("fixture must decode");
    assert_eq!(res.base.error, false);
    assert_eq!(res.base.status, 200);
    assert_eq!(res.bot.id, "568254611354419211");
    assert_eq!(res.bot.tags, vec!["moderation".to_string(), "fun".to_string()]);
    assert_eq!(res.bot.status.site_bot, false);
}

#[test]
fn unauthorized_write_reports_status_403() {
    let res = post_stats_response(403, ERROR_403_FIXTURE);
    let err = res.expect_err("an error status must give the failure variant");
    assert_eq!(err.status, Some(403));
    assert_eq!(err.message, "Unauthorized");
    assert!(err.error);
}

#[test]
fn missing_required_field_is_a_decode_error() {
    // Valid JSON, but the stats schema requires `templates`.
    let res = website_stats_response(200, r#"{"error":false,"status":200}"#);
    let err = res.expect_err("a missing field must not decode");
    assert_eq!(err.status, None);
    assert_eq!(err.message, "response body did not match the expected schema");
}

#[test]
fn malformed_body_is_a_decode_error_on_both_paths() {
    let ok_path = website_stats_response(200, "not json").expect_err("must fail");
    assert_eq!(ok_path.status, None);
    let err_path = website_stats_response(500, "not json").expect_err("must fail");
    assert_eq!(err_path.status, None);
    // An error body whose status does not fit 16 bits does not decode either.
    let wide = post_stats_response(500, r#"{"error":true,"status":70000,"message":"x"}"#)
        .expect_err("must fail");
    assert_eq!(wide.status, None);
}

#[test]
fn success_schemas_round_trip_through_decode_then_encode() {
    let stats = website_stats_response(200, STATS_FIXTURE).unwrap();
    let stats2 = decode_website_statistics(&encode_website_statistics(&stats)).unwrap();
    assert_eq!(stats, stats2);

    let health = website_health_response(200, HEALTH_FIXTURE).unwrap();
    let health2 = decode_website_health(&encode_website_health(&health)).unwrap();
    assert_eq!(health, health2);

    let bot = bot_info_response(200, BOT_FIXTURE).unwrap();
    let bot2 = decode_bot_information(&encode_bot_information(&bot)).unwrap();
    assert_eq!(bot, bot2);

    let server = server_info_response(200, SERVER_FIXTURE).unwrap();
    let server2 = decode_server_information(&encode_server_information(&server)).unwrap();
    assert_eq!(server, server2);

    let template = template_info_response(200, TEMPLATE_FIXTURE).unwrap();
    let template2 = decode_template_information(&encode_template_information(&template)).unwrap();
    assert_eq!(template, template2);

    let user = user_info_response(200, USER_FIXTURE).unwrap();
    let user2 = decode_user_information(&encode_user_information(&user)).unwrap();
    assert_eq!(user, user2);

    let posted = post_stats_response(200, POST_STATS_FIXTURE).unwrap();
    let posted2 = decode_bot_statistics(&encode_bot_statistics(&posted)).unwrap();
    assert_eq!(posted, posted2);
}

#[test]
fn field_name_translation_is_lossless() {
    // The wire names differ from the field names; a full round trip keeps
    // every value, shard count present or absent.
    let with_shards = APIPostStats { guild_count: 120, shard_count: Some(2) };
    let text = to_json_text(&encode_api_post_stats(&with_shards));
    assert_eq!(text, r#"{"guildCount":120,"shardCount":2}"#);
    let back = decode_api_post_stats(&parse_json_text(&text).unwrap()).unwrap();
    assert_eq!(back, with_shards);

    let without_shards = APIPostStats { guild_count: 1, shard_count: None };
    let text2 = to_json_text(&encode_api_post_stats(&without_shards));
    assert_eq!(text2, r#"{"guildCount":1,"shardCount":null}"#);
    let back2 = decode_api_post_stats(&parse_json_text(&text2).unwrap()).unwrap();
    assert_eq!(back2, without_shards);

    let err = DelError { error: true, status: Some(403), message: "no".to_string() };
    let err2 = decode_del_error(&encode_del_error(&err)).unwrap();
    assert_eq!(err, err2);
}

#[test]
fn template_fixture_keeps_nested_lists() {
    let res = template_info_response(200, TEMPLATE_FIXTURE).unwrap();
    assert_eq!(res.template.roles.len(), 1);
    assert_eq!(res.template.roles[0].permissions, 104324673);
    assert_eq!(res.template.channels.len(), 1);
    let channel = &res.template.channels[0];
    assert_eq!(channel.last_pin_timestamp, None);
    let overwrites = channel.permissions_overwrites.as_ref().unwrap();
    assert_eq!(overwrites[0].deny, 2048);
}

#[test]
fn requests_carry_the_documented_urls_and_headers() {
    let del = Del::new("token-value".to_string(), "568254611354419211".to_string());

    let stats = del.website_stats_request();
    assert_eq!(stats.method, HttpMethod::Get);
    assert_eq!(stats.url, "https://api.discordextremelist.xyz/v2/stats");
    assert_eq!(stats.headers.len(), 1);
    assert_eq!(stats.headers[0].0, "User-Agent");
    assert_eq!(
        stats.headers[0].1,
        "del-rs ( 0.1.0, https://github.com/discordextremelist/del-rs )"
    );
    assert_eq!(stats.body, "");

    let health = del.website_health_request();
    assert_eq!(health.url, "https://api.discordextremelist.xyz/v2/health");

    let bot = del.bot_info_request("568254611354419211");
    assert_eq!(
        bot.url,
        "https://api.discordextremelist.xyz/v2/bot/568254611354419211"
    );

    let server = del.server_info_request("568567800910839811");
    assert_eq!(
        server.url,
        "https://api.discordextremelist.xyz/v2/server/568567800910839811"
    );

    let template = del.template_info_request("4sgbPdCjzAYU");
    assert_eq!(
        template.url,
        "https://api.discordextremelist.xyz/v2/template/4sgbPdCjzAYU"
    );

    let user = del.user_info_request("744603004493365330");
    assert_eq!(
        user.url,
        "https://api.discordextremelist.xyz/v2/user/744603004493365330"
    );
}

#[test]
fn write_request_is_authenticated_and_carries_the_body() {
    let del = Del::new("token-value".to_string(), "568254611354419211".to_string());
    let post = del.post_stats_request(120, Some(2));
    assert_eq!(post.method, HttpMethod::Post);
    assert_eq!(
        post.url,
        "https://api.discordextremelist.xyz/v2/bot/568254611354419211/stats"
    );
    assert_eq!(post.headers.len(), 3);
    assert_eq!(post.headers[1].0, "Authorization");
    assert_eq!(post.headers[1].1, "token-value");
    assert_eq!(post.headers[2].0, "Content-Type");
    assert_eq!(post.headers[2].1, "application/json");
    assert_eq!(post.body, r#"{"guildCount":120,"shardCount":2}"#);
}

#[test]
fn default_client_is_anonymous() {
    let del = Del::default();
    assert_eq!(del.token, "");
    assert_eq!(del.id, "");
    let post = del.post_stats_request(0, Some(0));
    assert_eq!(post.headers[1].1, "");
}

#[test]
fn transport_failure_carries_no_status() {
    let e = del_rs::errors::transport_failure("connection refused".to_string());
    assert!(e.error);
    assert_eq!(e.status, None);
    assert_eq!(e.message, "connection refused");
}
