//! The nested records of the service's payloads, with their wire field
//! names, their JSON encodings and decodings, and the laws that the two
//! are mutually inverse.

use vstd::prelude::*;
use vstd::string::*;
use crate::json::{
    Json, JsonV, jview, jview_arr, jview_obj, lookup, lookup_u64, lookup_bool, lookup_str,
    lookup_arr, lookup_opt_str, lookup_opt_u64, str_elems, strs_to_json, lemma_strs_roundtrip,
    encode_strs, get_u64, get_bool, get_string, get_str_arr, get_opt_string,
    get_opt_u64, obj_get, lemma_jview_obj_len, lemma_jview_arr_len,
    opt_u64_to_json, opt_str_to_json, opt_string_view,
};

verus! {

/// The owner of a listed bot, server or template.
#[derive(Debug, Clone, PartialEq)]
pub struct Owner {
    pub id: String,
}

pub struct OwnerV {
    pub id: Seq<char>,
}

impl View for Owner {
    type V = OwnerV;

    open spec fn view(&self) -> OwnerV {
        OwnerV {
            id: self.id@,
        }
    }
}

/// How a record of this schema is written as a JSON object.
pub open spec fn owner_to_json(x: OwnerV) -> JsonV {
    JsonV::Obj(seq![("id"@, JsonV::Str(x.id))])
}

/// How a JSON value reads as a record of this schema, if it does.
pub open spec fn owner_from_json(j: JsonV) -> Option<OwnerV> {
    match j {
        JsonV::Obj(o) => {
            let f_id = lookup_str(o, "id"@);
            if f_id is Some {
                Some(OwnerV {
                    id: f_id.unwrap(),
                })
            } else {
                None
            }
        },
        _ => None,
    }
}

#[verifier::rlimit(100)]
pub fn encode_owner(x: &Owner) -> (r: Json)
    ensures
        r@ == owner_to_json(x@),
{
    let mut o: Vec<(String, Json)> = Vec::new();
    o.push((String::from_str("id"), Json::Str(x.id.clone())));
    proof {
        lemma_jview_obj_len(o@);
        assert(jview_obj(o@)[0] == ("id"@, JsonV::Str(x@.id)));
        assert(jview_obj(o@) =~= seq![("id"@, JsonV::Str(x@.id))]);
    }
    Json::Obj(o)
}

#[verifier::rlimit(100)]
pub fn decode_owner(j: &Json) -> (r: Option<Owner>)
    ensures
        match r {
            Some(x) => owner_from_json(j@) == Some(x@),
            None => owner_from_json(j@) is None,
        },
{
    match j {
        Json::Obj(o) => {
        let f_id = match get_string(o, "id") { Some(v) => v, None => { return None } };
            Some(Owner {
                id: f_id,
            })
        },
        _ => None,
    }
}

/// Writing a record and reading it back gives the record: every wire
/// field name maps back to the field it came from.
#[verifier::rlimit(100)]
pub proof fn lemma_owner_roundtrip(x: OwnerV)
    ensures
        owner_from_json(owner_to_json(x)) == Some(x),
{
    reveal_strlit("id");
    reveal_with_fuel(lookup, 3);
    assert("id"@.len() == 2);
    let o = seq![("id"@, JsonV::Str(x.id))];
    assert(lookup(o, "id"@) == Some(JsonV::Str(x.id)));
}

/// An avatar image, by hash and URL.
#[derive(Debug, Clone, PartialEq)]
pub struct Avatar {
    pub hash: String,
    pub url: String,
}

pub struct AvatarV {
    pub hash: Seq<char>,
    pub url: Seq<char>,
}

impl View for Avatar {
    type V = AvatarV;

    open spec fn view(&self) -> AvatarV {
        AvatarV {
            hash: self.hash@,
            url: self.url@,
        }
    }
}

/// How a record of this schema is written as a JSON object.
pub open spec fn avatar_to_json(x: AvatarV) -> JsonV {
    JsonV::Obj(seq![("hash"@, JsonV::Str(x.hash)), ("url"@, JsonV::Str(x.url))])
}

/// How a JSON value reads as a record of this schema, if it does.
pub open spec fn avatar_from_json(j: JsonV) -> Option<AvatarV> {
    match j {
        JsonV::Obj(o) => {
            let f_hash = lookup_str(o, "hash"@);
            let f_url = lookup_str(o, "url"@);
            if f_hash is Some && f_url is Some {
                Some(AvatarV {
                    hash: f_hash.unwrap(),
                    url: f_url.unwrap(),
                })
            } else {
                None
            }
        },
        _ => None,
    }
}

#[verifier::rlimit(100)]
pub fn encode_avatar(x: &Avatar) -> (r: Json)
    ensures
        r@ == avatar_to_json(x@),
{
    let mut o: Vec<(String, Json)> = Vec::new();
    o.push((String::from_str("hash"), Json::Str(x.hash.clone())));
    o.push((String::from_str("url"), Json::Str(x.url.clone())));
    proof {
        lemma_jview_obj_len(o@);
        assert(jview_obj(o@)[0] == ("hash"@, JsonV::Str(x@.hash)));
        assert(jview_obj(o@)[1] == ("url"@, JsonV::Str(x@.url)));
        assert(jview_obj(o@) =~= seq![("hash"@, JsonV::Str(x@.hash)), ("url"@, JsonV::Str(x@.url))]);
    }
    Json::Obj(o)
}

#[verifier::rlimit(100)]
pub fn decode_avatar(j: &Json) -> (r: Option<Avatar>)
    ensures
        match r {
            Some(x) => avatar_from_json(j@) == Some(x@),
            None => avatar_from_json(j@) is None,
        },
{
    match j {
        Json::Obj(o) => {
        let f_hash = match get_string(o, "hash") { Some(v) => v, None => { return None } };
        let f_url = match get_string(o, "url") { Some(v) => v, None => { return None } };
            Some(Avatar {
                hash: f_hash,
                url: f_url,
            })
        },
        _ => None,
    }
}

/// Writing a record and reading it back gives the record: every wire
/// field name maps back to the field it came from.
#[verifier::rlimit(100)]
pub proof fn lemma_avatar_roundtrip(x: AvatarV)
    ensures
        avatar_from_json(avatar_to_json(x)) == Some(x),
{
    reveal_strlit("hash");
    reveal_strlit("url");
    reveal_with_fuel(lookup, 4);
    assert("hash"@.len() == 4);
    assert("url"@.len() == 3);
    let o = seq![("hash"@, JsonV::Str(x.hash)), ("url"@, JsonV::Str(x.url))];
    assert(lookup(o, "hash"@) == Some(JsonV::Str(x.hash)));
    assert(lookup(o, "url"@) == Some(JsonV::Str(x.url)));
}

/// The outward links of a bot's listing.
#[derive(Debug, Clone, PartialEq)]
pub struct BotLinks {
    pub invite: String,
    pub support: String,
    pub website: String,
    pub donation: String,
    pub repo: String,
    pub privacy_policy: String,
}

pub struct BotLinksV {
    pub invite: Seq<char>,
    pub support: Seq<char>,
    pub website: Seq<char>,
    pub donation: Seq<char>,
    pub repo: Seq<char>,
    pub privacy_policy: Seq<char>,
}

impl View for BotLinks {
    type V = BotLinksV;

    open spec fn view(&self) -> BotLinksV {
        BotLinksV {
            invite: self.invite@,
            support: self.support@,
            website: self.website@,
            donation: self.donation@,
            repo: self.repo@,
            privacy_policy: self.privacy_policy@,
        }
    }
}

/// How a record of this schema is written as a JSON object.
pub open spec fn bot_links_to_json(x: BotLinksV) -> JsonV {
    JsonV::Obj(seq![("invite"@, JsonV::Str(x.invite)), ("support"@, JsonV::Str(x.support)), ("website"@, JsonV::Str(x.website)), ("donation"@, JsonV::Str(x.donation)), ("repo"@, JsonV::Str(x.repo)), ("privacyPolicy"@, JsonV::Str(x.privacy_policy))])
}

/// How a JSON value reads as a record of this schema, if it does.
pub open spec fn bot_links_from_json(j: JsonV) -> Option<BotLinksV> {
    match j {
        JsonV::Obj(o) => {
            let f_invite = lookup_str(o, "invite"@);
            let f_support = lookup_str(o, "support"@);
            let f_website = lookup_str(o, "website"@);
            let f_donation = lookup_str(o, "donation"@);
            let f_repo = lookup_str(o, "repo"@);
            let f_privacy_policy = lookup_str(o, "privacyPolicy"@);
            if f_invite is Some && f_support is Some && f_website is Some && f_donation is Some && f_repo is Some && f_privacy_policy is Some {
                Some(BotLinksV {
                    invite: f_invite.unwrap(),
                    support: f_support.unwrap(),
                    website: f_website.unwrap(),
                    donation: f_donation.unwrap(),
                    repo: f_repo.unwrap(),
                    privacy_policy: f_privacy_policy.unwrap(),
                })
            } else {
                None
            }
        },
        _ => None,
    }
}

#[verifier::rlimit(100)]
pub fn encode_bot_links(x: &BotLinks) -> (r: Json)
    ensures
        r@ == bot_links_to_json(x@),
{
    let mut o: Vec<(String, Json)> = Vec::new();
    o.push((String::from_str("invite"), Json::Str(x.invite.clone())));
    o.push((String::from_str("support"), Json::Str(x.support.clone())));
    o.push((String::from_str("website"), Json::Str(x.website.clone())));
    o.push((String::from_str("donation"), Json::Str(x.donation.clone())));
    o.push((String::from_str("repo"), Json::Str(x.repo.clone())));
    o.push((String::from_str("privacyPolicy"), Json::Str(x.privacy_policy.clone())));
    proof {
        lemma_jview_obj_len(o@);
        assert(jview_obj(o@)[0] == ("invite"@, JsonV::Str(x@.invite)));
        assert(jview_obj(o@)[1] == ("support"@, JsonV::Str(x@.support)));
        assert(jview_obj(o@)[2] == ("website"@, JsonV::Str(x@.website)));
        assert(jview_obj(o@)[3] == ("donation"@, JsonV::Str(x@.donation)));
        assert(jview_obj(o@)[4] == ("repo"@, JsonV::Str(x@.repo)));
        assert(jview_obj(o@)[5] == ("privacyPolicy"@, JsonV::Str(x@.privacy_policy)));
        assert(jview_obj(o@) =~= seq![("invite"@, JsonV::Str(x@.invite)), ("support"@, JsonV::Str(x@.support)), ("website"@, JsonV::Str(x@.website)), ("donation"@, JsonV::Str(x@.donation)), ("repo"@, JsonV::Str(x@.repo)), ("privacyPolicy"@, JsonV::Str(x@.privacy_policy))]);
    }
    Json::Obj(o)
}

#[verifier::rlimit(100)]
pub fn decode_bot_links(j: &Json) -> (r: Option<BotLinks>)
    ensures
        match r {
            Some(x) => bot_links_from_json(j@) == Some(x@),
            None => bot_links_from_json(j@) is None,
        },
{
    match j {
        Json::Obj(o) => {
        let f_invite = match get_string(o, "invite") { Some(v) => v, None => { return None } };
        let f_support = match get_string(o, "support") { Some(v) => v, None => { return None } };
        let f_website = match get_string(o, "website") { Some(v) => v, None => { return None } };
        let f_donation = match get_string(o, "donation") { Some(v) => v, None => { return None } };
        let f_repo = match get_string(o, "repo") { Some(v) => v, None => { return None } };
        let f_privacy_policy = match get_string(o, "privacyPolicy") { Some(v) => v, None => { return None } };
            Some(BotLinks {
                invite: f_invite,
                support: f_support,
                website: f_website,
                donation: f_donation,
                repo: f_repo,
                privacy_policy: f_privacy_policy,
            })
        },
        _ => None,
    }
}

/// Writing a record and reading it back gives the record: every wire
/// field name maps back to the field it came from.
#[verifier::rlimit(100)]
pub proof fn lemma_bot_links_roundtrip(x: BotLinksV)
    ensures
        bot_links_from_json(bot_links_to_json(x)) == Some(x),
{
    reveal_strlit("donation");
    reveal_strlit("invite");
    reveal_strlit("privacyPolicy");
    reveal_strlit("repo");
    reveal_strlit("support");
    reveal_strlit("website");
    reveal_with_fuel(lookup, 8);
    assert("donation"@.len() == 8);
    assert("invite"@.len() == 6);
    assert("privacyPolicy"@.len() == 13);
    assert("repo"@.len() == 4);
    assert("support"@.len() == 7);
    assert("website"@.len() == 7);
    assert("support"@[0] == 's');
    assert("website"@[0] == 'w');
    let o = seq![("invite"@, JsonV::Str(x.invite)), ("support"@, JsonV::Str(x.support)), ("website"@, JsonV::Str(x.website)), ("donation"@, JsonV::Str(x.donation)), ("repo"@, JsonV::Str(x.repo)), ("privacyPolicy"@, JsonV::Str(x.privacy_policy))];
    assert(lookup(o, "invite"@) == Some(JsonV::Str(x.invite)));
    assert(lookup(o, "support"@) == Some(JsonV::Str(x.support)));
    assert(lookup(o, "website"@) == Some(JsonV::Str(x.website)));
    assert(lookup(o, "donation"@) == Some(JsonV::Str(x.donation)));
    assert(lookup(o, "repo"@) == Some(JsonV::Str(x.repo)));
    assert(lookup(o, "privacyPolicy"@) == Some(JsonV::Str(x.privacy_policy)));
}

/// The social handles of a bot's listing.
#[derive(Debug, Clone, PartialEq)]
pub struct Social {
    pub twitter: String,
}

pub struct SocialV {
    pub twitter: Seq<char>,
}

impl View for Social {
    type V = SocialV;

    open spec fn view(&self) -> SocialV {
        SocialV {
            twitter: self.twitter@,
        }
    }
}

/// How a record of this schema is written as a JSON object.
pub open spec fn social_to_json(x: SocialV) -> JsonV {
    JsonV::Obj(seq![("twitter"@, JsonV::Str(x.twitter))])
}

/// How a JSON value reads as a record of this schema, if it does.
pub open spec fn social_from_json(j: JsonV) -> Option<SocialV> {
    match j {
        JsonV::Obj(o) => {
            let f_twitter = lookup_str(o, "twitter"@);
            if f_twitter is Some {
                Some(SocialV {
                    twitter: f_twitter.unwrap(),
                })
            } else {
                None
            }
        },
        _ => None,
    }
}

#[verifier::rlimit(100)]
pub fn encode_social(x: &Social) -> (r: Json)
    ensures
        r@ == social_to_json(x@),
{
    let mut o: Vec<(String, Json)> = Vec::new();
    o.push((String::from_str("twitter"), Json::Str(x.twitter.clone())));
    proof {
        lemma_jview_obj_len(o@);
        assert(jview_obj(o@)[0] == ("twitter"@, JsonV::Str(x@.twitter)));
        assert(jview_obj(o@) =~= seq![("twitter"@, JsonV::Str(x@.twitter))]);
    }
    Json::Obj(o)
}

#[verifier::rlimit(100)]
pub fn decode_social(j: &Json) -> (r: Option<Social>)
    ensures
        match r {
            Some(x) => social_from_json(j@) == Some(x@),
            None => social_from_json(j@) is None,
        },
{
    match j {
        Json::Obj(o) => {
        let f_twitter = match get_string(o, "twitter") { Some(v) => v, None => { return None } };
            Some(Social {
                twitter: f_twitter,
            })
        },
        _ => None,
    }
}

/// Writing a record and reading it back gives the record: every wire
/// field name maps back to the field it came from.
#[verifier::rlimit(100)]
pub proof fn lemma_social_roundtrip(x: SocialV)
    ensures
        social_from_json(social_to_json(x)) == Some(x),
{
    reveal_strlit("twitter");
    reveal_with_fuel(lookup, 3);
    assert("twitter"@.len() == 7);
    let o = seq![("twitter"@, JsonV::Str(x.twitter))];
    assert(lookup(o, "twitter"@) == Some(JsonV::Str(x.twitter)));
}

/// The review flags of a bot's listing.
#[derive(Debug, Clone, PartialEq)]
pub struct BotStatus {
    pub approved: bool,
    pub site_bot: bool,
    pub archived: bool,
}

pub struct BotStatusV {
    pub approved: bool,
    pub site_bot: bool,
    pub archived: bool,
}

impl View for BotStatus {
    type V = BotStatusV;

    open spec fn view(&self) -> BotStatusV {
        BotStatusV {
            approved: self.approved,
            site_bot: self.site_bot,
            archived: self.archived,
        }
    }
}

/// How a record of this schema is written as a JSON object.
pub open spec fn bot_status_to_json(x: BotStatusV) -> JsonV {
    JsonV::Obj(seq![("approved"@, JsonV::Bool(x.approved)), ("siteBot"@, JsonV::Bool(x.site_bot)), ("archived"@, JsonV::Bool(x.archived))])
}

/// How a JSON value reads as a record of this schema, if it does.
pub open spec fn bot_status_from_json(j: JsonV) -> Option<BotStatusV> {
    match j {
        JsonV::Obj(o) => {
            let f_approved = lookup_bool(o, "approved"@);
            let f_site_bot = lookup_bool(o, "siteBot"@);
            let f_archived = lookup_bool(o, "archived"@);
            if f_approved is Some && f_site_bot is Some && f_archived is Some {
                Some(BotStatusV {
                    approved: f_approved.unwrap(),
                    site_bot: f_site_bot.unwrap(),
                    archived: f_archived.unwrap(),
                })
            } else {
                None
            }
        },
        _ => None,
    }
}

#[verifier::rlimit(100)]
pub fn encode_bot_status(x: &BotStatus) -> (r: Json)
    ensures
        r@ == bot_status_to_json(x@),
{
    let mut o: Vec<(String, Json)> = Vec::new();
    o.push((String::from_str("approved"), Json::Bool(x.approved)));
    o.push((String::from_str("siteBot"), Json::Bool(x.site_bot)));
    o.push((String::from_str("archived"), Json::Bool(x.archived)));
    proof {
        lemma_jview_obj_len(o@);
        assert(jview_obj(o@)[0] == ("approved"@, JsonV::Bool(x@.approved)));
        assert(jview_obj(o@)[1] == ("siteBot"@, JsonV::Bool(x@.site_bot)));
        assert(jview_obj(o@)[2] == ("archived"@, JsonV::Bool(x@.archived)));
        assert(jview_obj(o@) =~= seq![("approved"@, JsonV::Bool(x@.approved)), ("siteBot"@, JsonV::Bool(x@.site_bot)), ("archived"@, JsonV::Bool(x@.archived))]);
    }
    Json::Obj(o)
}

#[verifier::rlimit(100)]
pub fn decode_bot_status(j: &Json) -> (r: Option<BotStatus>)
    ensures
        match r {
            Some(x) => bot_status_from_json(j@) == Some(x@),
            None => bot_status_from_json(j@) is None,
        },
{
    match j {
        Json::Obj(o) => {
        let f_approved = match get_bool(o, "approved") { Some(v) => v, None => { return None } };
        let f_site_bot = match get_bool(o, "siteBot") { Some(v) => v, None => { return None } };
        let f_archived = match get_bool(o, "archived") { Some(v) => v, None => { return None } };
            Some(BotStatus {
                approved: f_approved,
                site_bot: f_site_bot,
                archived: f_archived,
            })
        },
        _ => None,
    }
}

/// Writing a record and reading it back gives the record: every wire
/// field name maps back to the field it came from.
#[verifier::rlimit(100)]
pub proof fn lemma_bot_status_roundtrip(x: BotStatusV)
    ensures
        bot_status_from_json(bot_status_to_json(x)) == Some(x),
{
    reveal_strlit("approved");
    reveal_strlit("archived");
    reveal_strlit("siteBot");
    reveal_with_fuel(lookup, 5);
    assert("approved"@.len() == 8);
    assert("archived"@.len() == 8);
    assert("siteBot"@.len() == 7);
    assert("approved"@[1] == 'p');
    assert("archived"@[1] == 'r');
    let o = seq![("approved"@, JsonV::Bool(x.approved)), ("siteBot"@, JsonV::Bool(x.site_bot)), ("archived"@, JsonV::Bool(x.archived))];
    assert(lookup(o, "approved"@) == Some(JsonV::Bool(x.approved)));
    assert(lookup(o, "siteBot"@) == Some(JsonV::Bool(x.site_bot)));
    assert(lookup(o, "archived"@) == Some(JsonV::Bool(x.archived)));
}

/// One listed bot.
#[derive(Debug, Clone, PartialEq)]
pub struct Bot {
    pub id: String,
    pub name: String,
    pub prefix: String,
    pub tags: Vec<String>,
    pub vanity_url: String,
    pub server_count: u64,
    pub shard_count: u64,
    pub flags: u64,
    pub short_desc: String,
    pub long_desc: String,
    pub editors: Vec<String>,
    pub owner: Owner,
    pub avatar: Avatar,
    pub links: BotLinks,
    pub social: Social,
    pub status: BotStatus,
}

pub struct BotV {
    pub id: Seq<char>,
    pub name: Seq<char>,
    pub prefix: Seq<char>,
    pub tags: Seq<Seq<char>>,
    pub vanity_url: Seq<char>,
    pub server_count: u64,
    pub shard_count: u64,
    pub flags: u64,
    pub short_desc: Seq<char>,
    pub long_desc: Seq<char>,
    pub editors: Seq<Seq<char>>,
    pub owner: OwnerV,
    pub avatar: AvatarV,
    pub links: BotLinksV,
    pub social: SocialV,
    pub status: BotStatusV,
}

impl View for Bot {
    type V = BotV;

    open spec fn view(&self) -> BotV {
        BotV {
            id: self.id@,
            name: self.name@,
            prefix: self.prefix@,
            tags: self.tags@.map_values(|s: String| s@),
            vanity_url: self.vanity_url@,
            server_count: self.server_count,
            shard_count: self.shard_count,
            flags: self.flags,
            short_desc: self.short_desc@,
            long_desc: self.long_desc@,
            editors: self.editors@.map_values(|s: String| s@),
            owner: self.owner@,
            avatar: self.avatar@,
            links: self.links@,
            social: self.social@,
            status: self.status@,
        }
    }
}

/// How a record of this schema is written as a JSON object.
pub open spec fn bot_to_json(x: BotV) -> JsonV {
    JsonV::Obj(seq![("id"@, JsonV::Str(x.id)), ("name"@, JsonV::Str(x.name)), ("prefix"@, JsonV::Str(x.prefix)), ("tags"@, JsonV::Arr(strs_to_json(x.tags))), ("vanityUrl"@, JsonV::Str(x.vanity_url)), ("serverCount"@, JsonV::Num(x.server_count)), ("shardCount"@, JsonV::Num(x.shard_count)), ("flags"@, JsonV::Num(x.flags)), ("shortDesc"@, JsonV::Str(x.short_desc)), ("longDesc"@, JsonV::Str(x.long_desc)), ("editors"@, JsonV::Arr(strs_to_json(x.editors))), ("owner"@, owner_to_json(x.owner)), ("avatar"@, avatar_to_json(x.avatar)), ("links"@, bot_links_to_json(x.links)), ("social"@, social_to_json(x.social)), ("status"@, bot_status_to_json(x.status))])
}

/// How a JSON value reads as a record of this schema, if it does.
pub open spec fn bot_from_json(j: JsonV) -> Option<BotV> {
    match j {
        JsonV::Obj(o) => {
            let f_id = lookup_str(o, "id"@);
            let f_name = lookup_str(o, "name"@);
            let f_prefix = lookup_str(o, "prefix"@);
            let f_tags = (match lookup_arr(o, "tags"@) { Some(a) => str_elems(a), None => None });
            let f_vanity_url = lookup_str(o, "vanityUrl"@);
            let f_server_count = lookup_u64(o, "serverCount"@);
            let f_shard_count = lookup_u64(o, "shardCount"@);
            let f_flags = lookup_u64(o, "flags"@);
            let f_short_desc = lookup_str(o, "shortDesc"@);
            let f_long_desc = lookup_str(o, "longDesc"@);
            let f_editors = (match lookup_arr(o, "editors"@) { Some(a) => str_elems(a), None => None });
            let f_owner = (match lookup(o, "owner"@) { Some(v) => owner_from_json(v), None => None });
            let f_avatar = (match lookup(o, "avatar"@) { Some(v) => avatar_from_json(v), None => None });
            let f_links = (match lookup(o, "links"@) { Some(v) => bot_links_from_json(v), None => None });
            let f_social = (match lookup(o, "social"@) { Some(v) => social_from_json(v), None => None });
            let f_status = (match lookup(o, "status"@) { Some(v) => bot_status_from_json(v), None => None });
            if f_id is Some && f_name is Some && f_prefix is Some && f_tags is Some && f_vanity_url is Some && f_server_count is Some && f_shard_count is Some && f_flags is Some && f_short_desc is Some && f_long_desc is Some && f_editors is Some && f_owner is Some && f_avatar is Some && f_links is Some && f_social is Some && f_status is Some {
                Some(BotV {
                    id: f_id.unwrap(),
                    name: f_name.unwrap(),
                    prefix: f_prefix.unwrap(),
                    tags: f_tags.unwrap(),
                    vanity_url: f_vanity_url.unwrap(),
                    server_count: f_server_count.unwrap(),
                    shard_count: f_shard_count.unwrap(),
                    flags: f_flags.unwrap(),
                    short_desc: f_short_desc.unwrap(),
                    long_desc: f_long_desc.unwrap(),
                    editors: f_editors.unwrap(),
                    owner: f_owner.unwrap(),
                    avatar: f_avatar.unwrap(),
                    links: f_links.unwrap(),
                    social: f_social.unwrap(),
                    status: f_status.unwrap(),
                })
            } else {
                None
            }
        },
        _ => None,
    }
}

#[verifier::rlimit(100)]
pub fn encode_bot(x: &Bot) -> (r: Json)
    ensures
        r@ == bot_to_json(x@),
{
    let mut o: Vec<(String, Json)> = Vec::new();
    o.push((String::from_str("id"), Json::Str(x.id.clone())));
    o.push((String::from_str("name"), Json::Str(x.name.clone())));
    o.push((String::from_str("prefix"), Json::Str(x.prefix.clone())));
    o.push((String::from_str("tags"), Json::Arr(encode_strs(&x.tags))));
    o.push((String::from_str("vanityUrl"), Json::Str(x.vanity_url.clone())));
    o.push((String::from_str("serverCount"), Json::Num(x.server_count)));
    o.push((String::from_str("shardCount"), Json::Num(x.shard_count)));
    o.push((String::from_str("flags"), Json::Num(x.flags)));
    o.push((String::from_str("shortDesc"), Json::Str(x.short_desc.clone())));
    o.push((String::from_str("longDesc"), Json::Str(x.long_desc.clone())));
    o.push((String::from_str("editors"), Json::Arr(encode_strs(&x.editors))));
    o.push((String::from_str("owner"), encode_owner(&x.owner)));
    o.push((String::from_str("avatar"), encode_avatar(&x.avatar)));
    o.push((String::from_str("links"), encode_bot_links(&x.links)));
    o.push((String::from_str("social"), encode_social(&x.social)));
    o.push((String::from_str("status"), encode_bot_status(&x.status)));
    proof {
        lemma_jview_obj_len(o@);
        assert(jview_obj(o@)[0] == ("id"@, JsonV::Str(x@.id)));
        assert(jview_obj(o@)[1] == ("name"@, JsonV::Str(x@.name)));
        assert(jview_obj(o@)[2] == ("prefix"@, JsonV::Str(x@.prefix)));
        assert(jview_obj(o@)[3] == ("tags"@, JsonV::Arr(strs_to_json(x@.tags))));
        assert(jview_obj(o@)[4] == ("vanityUrl"@, JsonV::Str(x@.vanity_url)));
        assert(jview_obj(o@)[5] == ("serverCount"@, JsonV::Num(x@.server_count)));
        assert(jview_obj(o@)[6] == ("shardCount"@, JsonV::Num(x@.shard_count)));
        assert(jview_obj(o@)[7] == ("flags"@, JsonV::Num(x@.flags)));
        assert(jview_obj(o@)[8] == ("shortDesc"@, JsonV::Str(x@.short_desc)));
        assert(jview_obj(o@)[9] == ("longDesc"@, JsonV::Str(x@.long_desc)));
        assert(jview_obj(o@)[10] == ("editors"@, JsonV::Arr(strs_to_json(x@.editors))));
        assert(jview_obj(o@)[11] == ("owner"@, owner_to_json(x@.owner)));
        assert(jview_obj(o@)[12] == ("avatar"@, avatar_to_json(x@.avatar)));
        assert(jview_obj(o@)[13] == ("links"@, bot_links_to_json(x@.links)));
        assert(jview_obj(o@)[14] == ("social"@, social_to_json(x@.social)));
        assert(jview_obj(o@)[15] == ("status"@, bot_status_to_json(x@.status)));
        assert(jview_obj(o@) =~= seq![("id"@, JsonV::Str(x@.id)), ("name"@, JsonV::Str(x@.name)), ("prefix"@, JsonV::Str(x@.prefix)), ("tags"@, JsonV::Arr(strs_to_json(x@.tags))), ("vanityUrl"@, JsonV::Str(x@.vanity_url)), ("serverCount"@, JsonV::Num(x@.server_count)), ("shardCount"@, JsonV::Num(x@.shard_count)), ("flags"@, JsonV::Num(x@.flags)), ("shortDesc"@, JsonV::Str(x@.short_desc)), ("longDesc"@, JsonV::Str(x@.long_desc)), ("editors"@, JsonV::Arr(strs_to_json(x@.editors))), ("owner"@, owner_to_json(x@.owner)), ("avatar"@, avatar_to_json(x@.avatar)), ("links"@, bot_links_to_json(x@.links)), ("social"@, social_to_json(x@.social)), ("status"@, bot_status_to_json(x@.status))]);
    }
    Json::Obj(o)
}

#[verifier::rlimit(100)]
pub fn decode_bot(j: &Json) -> (r: Option<Bot>)
    ensures
        match r {
            Some(x) => bot_from_json(j@) == Some(x@),
            None => bot_from_json(j@) is None,
        },
{
    match j {
        Json::Obj(o) => {
        let f_id = match get_string(o, "id") { Some(v) => v, None => { return None } };
        let f_name = match get_string(o, "name") { Some(v) => v, None => { return None } };
        let f_prefix = match get_string(o, "prefix") { Some(v) => v, None => { return None } };
        let f_tags = match get_str_arr(o, "tags") { Some(v) => v, None => { return None } };
        let f_vanity_url = match get_string(o, "vanityUrl") { Some(v) => v, None => { return None } };
        let f_server_count = match get_u64(o, "serverCount") { Some(v) => v, None => { return None } };
        let f_shard_count = match get_u64(o, "shardCount") { Some(v) => v, None => { return None } };
        let f_flags = match get_u64(o, "flags") { Some(v) => v, None => { return None } };
        let f_short_desc = match get_string(o, "shortDesc") { Some(v) => v, None => { return None } };
        let f_long_desc = match get_string(o, "longDesc") { Some(v) => v, None => { return None } };
        let f_editors = match get_str_arr(o, "editors") { Some(v) => v, None => { return None } };
        let f_owner = match obj_get(o, "owner") { Some(vj) => match decode_owner(vj) { Some(v) => v, None => { return None } }, None => { return None } };
        let f_avatar = match obj_get(o, "avatar") { Some(vj) => match decode_avatar(vj) { Some(v) => v, None => { return None } }, None => { return None } };
        let f_links = match obj_get(o, "links") { Some(vj) => match decode_bot_links(vj) { Some(v) => v, None => { return None } }, None => { return None } };
        let f_social = match obj_get(o, "social") { Some(vj) => match decode_social(vj) { Some(v) => v, None => { return None } }, None => { return None } };
        let f_status = match obj_get(o, "status") { Some(vj) => match decode_bot_status(vj) { Some(v) => v, None => { return None } }, None => { return None } };
            Some(Bot {
                id: f_id,
                name: f_name,
                prefix: f_prefix,
                tags: f_tags,
                vanity_url: f_vanity_url,
                server_count: f_server_count,
                shard_count: f_shard_count,
                flags: f_flags,
                short_desc: f_short_desc,
                long_desc: f_long_desc,
                editors: f_editors,
                owner: f_owner,
                avatar: f_avatar,
                links: f_links,
                social: f_social,
                status: f_status,
            })
        },
        _ => None,
    }
}

/// Writing a record and reading it back gives the record: every wire
/// field name maps back to the field it came from.
#[verifier::rlimit(100)]
pub proof fn lemma_bot_roundtrip(x: BotV)
    ensures
        bot_from_json(bot_to_json(x)) == Some(x),
{
    reveal_strlit("avatar");
    reveal_strlit("editors");
    reveal_strlit("flags");
    reveal_strlit("id");
    reveal_strlit("links");
    reveal_strlit("longDesc");
    reveal_strlit("name");
    reveal_strlit("owner");
    reveal_strlit("prefix");
    reveal_strlit("serverCount");
    reveal_strlit("shardCount");
    reveal_strlit("shortDesc");
    reveal_strlit("social");
    reveal_strlit("status");
    reveal_strlit("tags");
    reveal_strlit("vanityUrl");
    reveal_with_fuel(lookup, 18);
    assert("avatar"@.len() == 6);
    assert("editors"@.len() == 7);
    assert("flags"@.len() == 5);
    assert("id"@.len() == 2);
    assert("links"@.len() == 5);
    assert("longDesc"@.len() == 8);
    assert("name"@.len() == 4);
    assert("owner"@.len() == 5);
    assert("prefix"@.len() == 6);
    assert("serverCount"@.len() == 11);
    assert("shardCount"@.len() == 10);
    assert("shortDesc"@.len() == 9);
    assert("social"@.len() == 6);
    assert("status"@.len() == 6);
    assert("tags"@.len() == 4);
    assert("vanityUrl"@.len() == 9);
    assert("avatar"@[0] == 'a');
    assert("prefix"@[0] == 'p');
    assert("avatar"@[0] == 'a');
    assert("social"@[0] == 's');
    assert("avatar"@[0] == 'a');
    assert("status"@[0] == 's');
    assert("flags"@[0] == 'f');
    assert("links"@[0] == 'l');
    assert("flags"@[0] == 'f');
    assert("owner"@[0] == 'o');
    assert("links"@[0] == 'l');
    assert("owner"@[0] == 'o');
    assert("name"@[0] == 'n');
    assert("tags"@[0] == 't');
    assert("prefix"@[0] == 'p');
    assert("social"@[0] == 's');
    assert("prefix"@[0] == 'p');
    assert("status"@[0] == 's');
    assert("shortDesc"@[0] == 's');
    assert("vanityUrl"@[0] == 'v');
    assert("social"@[1] == 'o');
    assert("status"@[1] == 't');
    lemma_strs_roundtrip(x.tags);
    lemma_strs_roundtrip(x.editors);
    lemma_owner_roundtrip(x.owner);
    lemma_avatar_roundtrip(x.avatar);
    lemma_bot_links_roundtrip(x.links);
    lemma_social_roundtrip(x.social);
    lemma_bot_status_roundtrip(x.status);
    let o = seq![("id"@, JsonV::Str(x.id)), ("name"@, JsonV::Str(x.name)), ("prefix"@, JsonV::Str(x.prefix)), ("tags"@, JsonV::Arr(strs_to_json(x.tags))), ("vanityUrl"@, JsonV::Str(x.vanity_url)), ("serverCount"@, JsonV::Num(x.server_count)), ("shardCount"@, JsonV::Num(x.shard_count)), ("flags"@, JsonV::Num(x.flags)), ("shortDesc"@, JsonV::Str(x.short_desc)), ("longDesc"@, JsonV::Str(x.long_desc)), ("editors"@, JsonV::Arr(strs_to_json(x.editors))), ("owner"@, owner_to_json(x.owner)), ("avatar"@, avatar_to_json(x.avatar)), ("links"@, bot_links_to_json(x.links)), ("social"@, social_to_json(x.social)), ("status"@, bot_status_to_json(x.status))];
    assert(lookup(o, "id"@) == Some(JsonV::Str(x.id)));
    assert(lookup(o, "name"@) == Some(JsonV::Str(x.name)));
    assert(lookup(o, "prefix"@) == Some(JsonV::Str(x.prefix)));
    assert(lookup(o, "tags"@) == Some(JsonV::Arr(strs_to_json(x.tags))));
    assert(lookup(o, "vanityUrl"@) == Some(JsonV::Str(x.vanity_url)));
    assert(lookup(o, "serverCount"@) == Some(JsonV::Num(x.server_count)));
    assert(lookup(o, "shardCount"@) == Some(JsonV::Num(x.shard_count)));
    assert(lookup(o, "flags"@) == Some(JsonV::Num(x.flags)));
    assert(lookup(o, "shortDesc"@) == Some(JsonV::Str(x.short_desc)));
    assert(lookup(o, "longDesc"@) == Some(JsonV::Str(x.long_desc)));
    assert(lookup(o, "editors"@) == Some(JsonV::Arr(strs_to_json(x.editors))));
    assert(lookup(o, "owner"@) == Some(owner_to_json(x.owner)));
    assert(lookup(o, "avatar"@) == Some(avatar_to_json(x.avatar)));
    assert(lookup(o, "links"@) == Some(bot_links_to_json(x.links)));
    assert(lookup(o, "social"@) == Some(social_to_json(x.social)));
    assert(lookup(o, "status"@) == Some(bot_status_to_json(x.status)));
}

/// Counts of listed servers.
#[derive(Debug, Clone, PartialEq)]
pub struct Servers {
    pub total: u64,
}

pub struct ServersV {
    pub total: u64,
}

impl View for Servers {
    type V = ServersV;

    open spec fn view(&self) -> ServersV {
        ServersV {
            total: self.total,
        }
    }
}

/// How a record of this schema is written as a JSON object.
pub open spec fn servers_to_json(x: ServersV) -> JsonV {
    JsonV::Obj(seq![("total"@, JsonV::Num(x.total))])
}

/// How a JSON value reads as a record of this schema, if it does.
pub open spec fn servers_from_json(j: JsonV) -> Option<ServersV> {
    match j {
        JsonV::Obj(o) => {
            let f_total = lookup_u64(o, "total"@);
            if f_total is Some {
                Some(ServersV {
                    total: f_total.unwrap(),
                })
            } else {
                None
            }
        },
        _ => None,
    }
}

#[verifier::rlimit(100)]
pub fn encode_servers(x: &Servers) -> (r: Json)
    ensures
        r@ == servers_to_json(x@),
{
    let mut o: Vec<(String, Json)> = Vec::new();
    o.push((String::from_str("total"), Json::Num(x.total)));
    proof {
        lemma_jview_obj_len(o@);
        assert(jview_obj(o@)[0] == ("total"@, JsonV::Num(x@.total)));
        assert(jview_obj(o@) =~= seq![("total"@, JsonV::Num(x@.total))]);
    }
    Json::Obj(o)
}

#[verifier::rlimit(100)]
pub fn decode_servers(j: &Json) -> (r: Option<Servers>)
    ensures
        match r {
            Some(x) => servers_from_json(j@) == Some(x@),
            None => servers_from_json(j@) is None,
        },
{
    match j {
        Json::Obj(o) => {
        let f_total = match get_u64(o, "total") { Some(v) => v, None => { return None } };
            Some(Servers {
                total: f_total,
            })
        },
        _ => None,
    }
}

/// Writing a record and reading it back gives the record: every wire
/// field name maps back to the field it came from.
#[verifier::rlimit(100)]
pub proof fn lemma_servers_roundtrip(x: ServersV)
    ensures
        servers_from_json(servers_to_json(x)) == Some(x),
{
    reveal_strlit("total");
    reveal_with_fuel(lookup, 3);
    assert("total"@.len() == 5);
    let o = seq![("total"@, JsonV::Num(x.total))];
    assert(lookup(o, "total"@) == Some(JsonV::Num(x.total)));
}

/// Counts of listed bots.
#[derive(Debug, Clone, PartialEq)]
pub struct Bots {
    pub total: u64,
    pub approved: u64,
    pub premium: u64,
}

pub struct BotsV {
    pub total: u64,
    pub approved: u64,
    pub premium: u64,
}

impl View for Bots {
    type V = BotsV;

    open spec fn view(&self) -> BotsV {
        BotsV {
            total: self.total,
            approved: self.approved,
            premium: self.premium,
        }
    }
}

/// How a record of this schema is written as a JSON object.
pub open spec fn bots_to_json(x: BotsV) -> JsonV {
    JsonV::Obj(seq![("total"@, JsonV::Num(x.total)), ("approved"@, JsonV::Num(x.approved)), ("premium"@, JsonV::Num(x.premium))])
}

/// How a JSON value reads as a record of this schema, if it does.
pub open spec fn bots_from_json(j: JsonV) -> Option<BotsV> {
    match j {
        JsonV::Obj(o) => {
            let f_total = lookup_u64(o, "total"@);
            let f_approved = lookup_u64(o, "approved"@);
            let f_premium = lookup_u64(o, "premium"@);
            if f_total is Some && f_approved is Some && f_premium is Some {
                Some(BotsV {
                    total: f_total.unwrap(),
                    approved: f_approved.unwrap(),
                    premium: f_premium.unwrap(),
                })
            } else {
                None
            }
        },
        _ => None,
    }
}

#[verifier::rlimit(100)]
pub fn encode_bots(x: &Bots) -> (r: Json)
    ensures
        r@ == bots_to_json(x@),
{
    let mut o: Vec<(String, Json)> = Vec::new();
    o.push((String::from_str("total"), Json::Num(x.total)));
    o.push((String::from_str("approved"), Json::Num(x.approved)));
    o.push((String::from_str("premium"), Json::Num(x.premium)));
    proof {
        lemma_jview_obj_len(o@);
        assert(jview_obj(o@)[0] == ("total"@, JsonV::Num(x@.total)));
        assert(jview_obj(o@)[1] == ("approved"@, JsonV::Num(x@.approved)));
        assert(jview_obj(o@)[2] == ("premium"@, JsonV::Num(x@.premium)));
        assert(jview_obj(o@) =~= seq![("total"@, JsonV::Num(x@.total)), ("approved"@, JsonV::Num(x@.approved)), ("premium"@, JsonV::Num(x@.premium))]);
    }
    Json::Obj(o)
}

#[verifier::rlimit(100)]
pub fn decode_bots(j: &Json) -> (r: Option<Bots>)
    ensures
        match r {
            Some(x) => bots_from_json(j@) == Some(x@),
            None => bots_from_json(j@) is None,
        },
{
    match j {
        Json::Obj(o) => {
        let f_total = match get_u64(o, "total") { Some(v) => v, None => { return None } };
        let f_approved = match get_u64(o, "approved") { Some(v) => v, None => { return None } };
        let f_premium = match get_u64(o, "premium") { Some(v) => v, None => { return None } };
            Some(Bots {
                total: f_total,
                approved: f_approved,
                premium: f_premium,
            })
        },
        _ => None,
    }
}

/// Writing a record and reading it back gives the record: every wire
/// field name maps back to the field it came from.
#[verifier::rlimit(100)]
pub proof fn lemma_bots_roundtrip(x: BotsV)
    ensures
        bots_from_json(bots_to_json(x)) == Some(x),
{
    reveal_strlit("approved");
    reveal_strlit("premium");
    reveal_strlit("total");
    reveal_with_fuel(lookup, 5);
    assert("approved"@.len() == 8);
    assert("premium"@.len() == 7);
    assert("total"@.len() == 5);
    let o = seq![("total"@, JsonV::Num(x.total)), ("approved"@, JsonV::Num(x.approved)), ("premium"@, JsonV::Num(x.premium))];
    assert(lookup(o, "total"@) == Some(JsonV::Num(x.total)));
    assert(lookup(o, "approved"@) == Some(JsonV::Num(x.approved)));
    assert(lookup(o, "premium"@) == Some(JsonV::Num(x.premium)));
}

/// Counts of the site's staff, by role.
#[derive(Debug, Clone, PartialEq)]
pub struct Staff {
    pub total: u64,
    pub mods: u64,
    pub assistants: u64,
    pub admins: u64,
}

pub struct StaffV {
    pub total: u64,
    pub mods: u64,
    pub assistants: u64,
    pub admins: u64,
}

impl View for Staff {
    type V = StaffV;

    open spec fn view(&self) -> StaffV {
        StaffV {
            total: self.total,
            mods: self.mods,
            assistants: self.assistants,
            admins: self.admins,
        }
    }
}

/// How a record of this schema is written as a JSON object.
pub open spec fn staff_to_json(x: StaffV) -> JsonV {
    JsonV::Obj(seq![("total"@, JsonV::Num(x.total)), ("mods"@, JsonV::Num(x.mods)), ("assistants"@, JsonV::Num(x.assistants)), ("admins"@, JsonV::Num(x.admins))])
}

/// How a JSON value reads as a record of this schema, if it does.
pub open spec fn staff_from_json(j: JsonV) -> Option<StaffV> {
    match j {
        JsonV::Obj(o) => {
            let f_total = lookup_u64(o, "total"@);
            let f_mods = lookup_u64(o, "mods"@);
            let f_assistants = lookup_u64(o, "assistants"@);
            let f_admins = lookup_u64(o, "admins"@);
            if f_total is Some && f_mods is Some && f_assistants is Some && f_admins is Some {
                Some(StaffV {
                    total: f_total.unwrap(),
                    mods: f_mods.unwrap(),
                    assistants: f_assistants.unwrap(),
                    admins: f_admins.unwrap(),
                })
            } else {
                None
            }
        },
        _ => None,
    }
}

#[verifier::rlimit(100)]
pub fn encode_staff(x: &Staff) -> (r: Json)
    ensures
        r@ == staff_to_json(x@),
{
    let mut o: Vec<(String, Json)> = Vec::new();
    o.push((String::from_str("total"), Json::Num(x.total)));
    o.push((String::from_str("mods"), Json::Num(x.mods)));
    o.push((String::from_str("assistants"), Json::Num(x.assistants)));
    o.push((String::from_str("admins"), Json::Num(x.admins)));
    proof {
        lemma_jview_obj_len(o@);
        assert(jview_obj(o@)[0] == ("total"@, JsonV::Num(x@.total)));
        assert(jview_obj(o@)[1] == ("mods"@, JsonV::Num(x@.mods)));
        assert(jview_obj(o@)[2] == ("assistants"@, JsonV::Num(x@.assistants)));
        assert(jview_obj(o@)[3] == ("admins"@, JsonV::Num(x@.admins)));
        assert(jview_obj(o@) =~= seq![("total"@, JsonV::Num(x@.total)), ("mods"@, JsonV::Num(x@.mods)), ("assistants"@, JsonV::Num(x@.assistants)), ("admins"@, JsonV::Num(x@.admins))]);
    }
    Json::Obj(o)
}

#[verifier::rlimit(100)]
pub fn decode_staff(j: &Json) -> (r: Option<Staff>)
    ensures
        match r {
            Some(x) => staff_from_json(j@) == Some(x@),
            None => staff_from_json(j@) is None,
        },
{
    match j {
        Json::Obj(o) => {
        let f_total = match get_u64(o, "total") { Some(v) => v, None => { return None } };
        let f_mods = match get_u64(o, "mods") { Some(v) => v, None => { return None } };
        let f_assistants = match get_u64(o, "assistants") { Some(v) => v, None => { return None } };
        let f_admins = match get_u64(o, "admins") { Some(v) => v, None => { return None } };
            Some(Staff {
                total: f_total,
                mods: f_mods,
                assistants: f_assistants,
                admins: f_admins,
            })
        },
        _ => None,
    }
}

/// Writing a record and reading it back gives the record: every wire
/// field name maps back to the field it came from.
#[verifier::rlimit(100)]
pub proof fn lemma_staff_roundtrip(x: StaffV)
    ensures
        staff_from_json(staff_to_json(x)) == Some(x),
{
    reveal_strlit("admins");
    reveal_strlit("assistants");
    reveal_strlit("mods");
    reveal_strlit("total");
    reveal_with_fuel(lookup, 6);
    assert("admins"@.len() == 6);
    assert("assistants"@.len() == 10);
    assert("mods"@.len() == 4);
    assert("total"@.len() == 5);
    let o = seq![("total"@, JsonV::Num(x.total)), ("mods"@, JsonV::Num(x.mods)), ("assistants"@, JsonV::Num(x.assistants)), ("admins"@, JsonV::Num(x.admins))];
    assert(lookup(o, "total"@) == Some(JsonV::Num(x.total)));
    assert(lookup(o, "mods"@) == Some(JsonV::Num(x.mods)));
    assert(lookup(o, "assistants"@) == Some(JsonV::Num(x.assistants)));
    assert(lookup(o, "admins"@) == Some(JsonV::Num(x.admins)));
}

/// Counts of the site's users.
#[derive(Debug, Clone, PartialEq)]
pub struct Users {
    pub total: u64,
    pub premium: u64,
    pub staff: Staff,
}

pub struct UsersV {
    pub total: u64,
    pub premium: u64,
    pub staff: StaffV,
}

impl View for Users {
    type V = UsersV;

    open spec fn view(&self) -> UsersV {
        UsersV {
            total: self.total,
            premium: self.premium,
            staff: self.staff@,
        }
    }
}

/// How a record of this schema is written as a JSON object.
pub open spec fn users_to_json(x: UsersV) -> JsonV {
    JsonV::Obj(seq![("total"@, JsonV::Num(x.total)), ("premium"@, JsonV::Num(x.premium)), ("staff"@, staff_to_json(x.staff))])
}

/// How a JSON value reads as a record of this schema, if it does.
pub open spec fn users_from_json(j: JsonV) -> Option<UsersV> {
    match j {
        JsonV::Obj(o) => {
            let f_total = lookup_u64(o, "total"@);
            let f_premium = lookup_u64(o, "premium"@);
            let f_staff = (match lookup(o, "staff"@) { Some(v) => staff_from_json(v), None => None });
            if f_total is Some && f_premium is Some && f_staff is Some {
                Some(UsersV {
                    total: f_total.unwrap(),
                    premium: f_premium.unwrap(),
                    staff: f_staff.unwrap(),
                })
            } else {
                None
            }
        },
        _ => None,
    }
}

#[verifier::rlimit(100)]
pub fn encode_users(x: &Users) -> (r: Json)
    ensures
        r@ == users_to_json(x@),
{
    let mut o: Vec<(String, Json)> = Vec::new();
    o.push((String::from_str("total"), Json::Num(x.total)));
    o.push((String::from_str("premium"), Json::Num(x.premium)));
    o.push((String::from_str("staff"), encode_staff(&x.staff)));
    proof {
        lemma_jview_obj_len(o@);
        assert(jview_obj(o@)[0] == ("total"@, JsonV::Num(x@.total)));
        assert(jview_obj(o@)[1] == ("premium"@, JsonV::Num(x@.premium)));
        assert(jview_obj(o@)[2] == ("staff"@, staff_to_json(x@.staff)));
        assert(jview_obj(o@) =~= seq![("total"@, JsonV::Num(x@.total)), ("premium"@, JsonV::Num(x@.premium)), ("staff"@, staff_to_json(x@.staff))]);
    }
    Json::Obj(o)
}

#[verifier::rlimit(100)]
pub fn decode_users(j: &Json) -> (r: Option<Users>)
    ensures
        match r {
            Some(x) => users_from_json(j@) == Some(x@),
            None => users_from_json(j@) is None,
        },
{
    match j {
        Json::Obj(o) => {
        let f_total = match get_u64(o, "total") { Some(v) => v, None => { return None } };
        let f_premium = match get_u64(o, "premium") { Some(v) => v, None => { return None } };
        let f_staff = match obj_get(o, "staff") { Some(vj) => match decode_staff(vj) { Some(v) => v, None => { return None } }, None => { return None } };
            Some(Users {
                total: f_total,
                premium: f_premium,
                staff: f_staff,
            })
        },
        _ => None,
    }
}

/// Writing a record and reading it back gives the record: every wire
/// field name maps back to the field it came from.
#[verifier::rlimit(100)]
pub proof fn lemma_users_roundtrip(x: UsersV)
    ensures
        users_from_json(users_to_json(x)) == Some(x),
{
    reveal_strlit("premium");
    reveal_strlit("staff");
    reveal_strlit("total");
    reveal_with_fuel(lookup, 5);
    assert("premium"@.len() == 7);
    assert("staff"@.len() == 5);
    assert("total"@.len() == 5);
    assert("staff"@[0] == 's');
    assert("total"@[0] == 't');
    lemma_staff_roundtrip(x.staff);
    let o = seq![("total"@, JsonV::Num(x.total)), ("premium"@, JsonV::Num(x.premium)), ("staff"@, staff_to_json(x.staff))];
    assert(lookup(o, "total"@) == Some(JsonV::Num(x.total)));
    assert(lookup(o, "premium"@) == Some(JsonV::Num(x.premium)));
    assert(lookup(o, "staff"@) == Some(staff_to_json(x.staff)));
}

/// The body of a bot statistics submission.
#[derive(Debug, Clone, PartialEq)]
pub struct APIPostStats {
    pub guild_count: u64,
    pub shard_count: Option<u64>,
}

pub struct APIPostStatsV {
    pub guild_count: u64,
    pub shard_count: Option<u64>,
}

impl View for APIPostStats {
    type V = APIPostStatsV;

    open spec fn view(&self) -> APIPostStatsV {
        APIPostStatsV {
            guild_count: self.guild_count,
            shard_count: self.shard_count,
        }
    }
}

/// How a record of this schema is written as a JSON object.
pub open spec fn api_post_stats_to_json(x: APIPostStatsV) -> JsonV {
    JsonV::Obj(seq![("guildCount"@, JsonV::Num(x.guild_count)), ("shardCount"@, opt_u64_to_json(x.shard_count))])
}

/// How a JSON value reads as a record of this schema, if it does.
pub open spec fn api_post_stats_from_json(j: JsonV) -> Option<APIPostStatsV> {
    match j {
        JsonV::Obj(o) => {
            let f_guild_count = lookup_u64(o, "guildCount"@);
            let f_shard_count = lookup_opt_u64(o, "shardCount"@);
            if f_guild_count is Some && f_shard_count is Some {
                Some(APIPostStatsV {
                    guild_count: f_guild_count.unwrap(),
                    shard_count: f_shard_count.unwrap(),
                })
            } else {
                None
            }
        },
        _ => None,
    }
}

#[verifier::rlimit(100)]
pub fn encode_api_post_stats(x: &APIPostStats) -> (r: Json)
    ensures
        r@ == api_post_stats_to_json(x@),
{
    let mut o: Vec<(String, Json)> = Vec::new();
    o.push((String::from_str("guildCount"), Json::Num(x.guild_count)));
    o.push((String::from_str("shardCount"), (match x.shard_count { Some(n) => Json::Num(n), None => Json::Null })));
    proof {
        lemma_jview_obj_len(o@);
        assert(jview_obj(o@)[0] == ("guildCount"@, JsonV::Num(x@.guild_count)));
        assert(jview_obj(o@)[1] == ("shardCount"@, opt_u64_to_json(x@.shard_count)));
        assert(jview_obj(o@) =~= seq![("guildCount"@, JsonV::Num(x@.guild_count)), ("shardCount"@, opt_u64_to_json(x@.shard_count))]);
    }
    Json::Obj(o)
}

#[verifier::rlimit(100)]
pub fn decode_api_post_stats(j: &Json) -> (r: Option<APIPostStats>)
    ensures
        match r {
            Some(x) => api_post_stats_from_json(j@) == Some(x@),
            None => api_post_stats_from_json(j@) is None,
        },
{
    match j {
        Json::Obj(o) => {
        let f_guild_count = match get_u64(o, "guildCount") { Some(v) => v, None => { return None } };
        let f_shard_count = match get_opt_u64(o, "shardCount") { Some(v) => v, None => { return None } };
            Some(APIPostStats {
                guild_count: f_guild_count,
                shard_count: f_shard_count,
            })
        },
        _ => None,
    }
}

/// Writing a record and reading it back gives the record: every wire
/// field name maps back to the field it came from.
#[verifier::rlimit(100)]
pub proof fn lemma_api_post_stats_roundtrip(x: APIPostStatsV)
    ensures
        api_post_stats_from_json(api_post_stats_to_json(x)) == Some(x),
{
    reveal_strlit("guildCount");
    reveal_strlit("shardCount");
    reveal_with_fuel(lookup, 4);
    assert("guildCount"@.len() == 10);
    assert("shardCount"@.len() == 10);
    assert("guildCount"@[0] == 'g');
    assert("shardCount"@[0] == 's');
    let o = seq![("guildCount"@, JsonV::Num(x.guild_count)), ("shardCount"@, opt_u64_to_json(x.shard_count))];
    assert(lookup(o, "guildCount"@) == Some(JsonV::Num(x.guild_count)));
    assert(lookup(o, "shardCount"@) == Some(opt_u64_to_json(x.shard_count)));
}

/// An icon image, by hash and URL.
#[derive(Debug, Clone, PartialEq)]
pub struct Icon {
    pub hash: String,
    pub url: String,
}

pub struct IconV {
    pub hash: Seq<char>,
    pub url: Seq<char>,
}

impl View for Icon {
    type V = IconV;

    open spec fn view(&self) -> IconV {
        IconV {
            hash: self.hash@,
            url: self.url@,
        }
    }
}

/// How a record of this schema is written as a JSON object.
pub open spec fn icon_to_json(x: IconV) -> JsonV {
    JsonV::Obj(seq![("hash"@, JsonV::Str(x.hash)), ("url"@, JsonV::Str(x.url))])
}

/// How a JSON value reads as a record of this schema, if it does.
pub open spec fn icon_from_json(j: JsonV) -> Option<IconV> {
    match j {
        JsonV::Obj(o) => {
            let f_hash = lookup_str(o, "hash"@);
            let f_url = lookup_str(o, "url"@);
            if f_hash is Some && f_url is Some {
                Some(IconV {
                    hash: f_hash.unwrap(),
                    url: f_url.unwrap(),
                })
            } else {
                None
            }
        },
        _ => None,
    }
}

#[verifier::rlimit(100)]
pub fn encode_icon(x: &Icon) -> (r: Json)
    ensures
        r@ == icon_to_json(x@),
{
    let mut o: Vec<(String, Json)> = Vec::new();
    o.push((String::from_str("hash"), Json::Str(x.hash.clone())));
    o.push((String::from_str("url"), Json::Str(x.url.clone())));
    proof {
        lemma_jview_obj_len(o@);
        assert(jview_obj(o@)[0] == ("hash"@, JsonV::Str(x@.hash)));
        assert(jview_obj(o@)[1] == ("url"@, JsonV::Str(x@.url)));
        assert(jview_obj(o@) =~= seq![("hash"@, JsonV::Str(x@.hash)), ("url"@, JsonV::Str(x@.url))]);
    }
    Json::Obj(o)
}

#[verifier::rlimit(100)]
pub fn decode_icon(j: &Json) -> (r: Option<Icon>)
    ensures
        match r {
            Some(x) => icon_from_json(j@) == Some(x@),
            None => icon_from_json(j@) is None,
        },
{
    match j {
        Json::Obj(o) => {
        let f_hash = match get_string(o, "hash") { Some(v) => v, None => { return None } };
        let f_url = match get_string(o, "url") { Some(v) => v, None => { return None } };
            Some(Icon {
                hash: f_hash,
                url: f_url,
            })
        },
        _ => None,
    }
}

/// Writing a record and reading it back gives the record: every wire
/// field name maps back to the field it came from.
#[verifier::rlimit(100)]
pub proof fn lemma_icon_roundtrip(x: IconV)
    ensures
        icon_from_json(icon_to_json(x)) == Some(x),
{
    reveal_strlit("hash");
    reveal_strlit("url");
    reveal_with_fuel(lookup, 4);
    assert("hash"@.len() == 4);
    assert("url"@.len() == 3);
    let o = seq![("hash"@, JsonV::Str(x.hash)), ("url"@, JsonV::Str(x.url))];
    assert(lookup(o, "hash"@) == Some(JsonV::Str(x.hash)));
    assert(lookup(o, "url"@) == Some(JsonV::Str(x.url)));
}

/// The outward links of a server's listing.
#[derive(Debug, Clone, PartialEq)]
pub struct ServerLinks {
    pub website: String,
    pub donation: String,
}

pub struct ServerLinksV {
    pub website: Seq<char>,
    pub donation: Seq<char>,
}

impl View for ServerLinks {
    type V = ServerLinksV;

    open spec fn view(&self) -> ServerLinksV {
        ServerLinksV {
            website: self.website@,
            donation: self.donation@,
        }
    }
}

/// How a record of this schema is written as a JSON object.
pub open spec fn server_links_to_json(x: ServerLinksV) -> JsonV {
    JsonV::Obj(seq![("website"@, JsonV::Str(x.website)), ("donation"@, JsonV::Str(x.donation))])
}

/// How a JSON value reads as a record of this schema, if it does.
pub open spec fn server_links_from_json(j: JsonV) -> Option<ServerLinksV> {
    match j {
        JsonV::Obj(o) => {
            let f_website = lookup_str(o, "website"@);
            let f_donation = lookup_str(o, "donation"@);
            if f_website is Some && f_donation is Some {
                Some(ServerLinksV {
                    website: f_website.unwrap(),
                    donation: f_donation.unwrap(),
                })
            } else {
                None
            }
        },
        _ => None,
    }
}

#[verifier::rlimit(100)]
pub fn encode_server_links(x: &ServerLinks) -> (r: Json)
    ensures
        r@ == server_links_to_json(x@),
{
    let mut o: Vec<(String, Json)> = Vec::new();
    o.push((String::from_str("website"), Json::Str(x.website.clone())));
    o.push((String::from_str("donation"), Json::Str(x.donation.clone())));
    proof {
        lemma_jview_obj_len(o@);
        assert(jview_obj(o@)[0] == ("website"@, JsonV::Str(x@.website)));
        assert(jview_obj(o@)[1] == ("donation"@, JsonV::Str(x@.donation)));
        assert(jview_obj(o@) =~= seq![("website"@, JsonV::Str(x@.website)), ("donation"@, JsonV::Str(x@.donation))]);
    }
    Json::Obj(o)
}

#[verifier::rlimit(100)]
pub fn decode_server_links(j: &Json) -> (r: Option<ServerLinks>)
    ensures
        match r {
            Some(x) => server_links_from_json(j@) == Some(x@),
            None => server_links_from_json(j@) is None,
        },
{
    match j {
        Json::Obj(o) => {
        let f_website = match get_string(o, "website") { Some(v) => v, None => { return None } };
        let f_donation = match get_string(o, "donation") { Some(v) => v, None => { return None } };
            Some(ServerLinks {
                website: f_website,
                donation: f_donation,
            })
        },
        _ => None,
    }
}

/// Writing a record and reading it back gives the record: every wire
/// field name maps back to the field it came from.
#[verifier::rlimit(100)]
pub proof fn lemma_server_links_roundtrip(x: ServerLinksV)
    ensures
        server_links_from_json(server_links_to_json(x)) == Some(x),
{
    reveal_strlit("donation");
    reveal_strlit("website");
    reveal_with_fuel(lookup, 4);
    assert("donation"@.len() == 8);
    assert("website"@.len() == 7);
    let o = seq![("website"@, JsonV::Str(x.website)), ("donation"@, JsonV::Str(x.donation))];
    assert(lookup(o, "website"@) == Some(JsonV::Str(x.website)));
    assert(lookup(o, "donation"@) == Some(JsonV::Str(x.donation)));
}

/// The review flags of a server's listing.
#[derive(Debug, Clone, PartialEq)]
pub struct ServerStatus {
    pub review_required: bool,
}

pub struct ServerStatusV {
    pub review_required: bool,
}

impl View for ServerStatus {
    type V = ServerStatusV;

    open spec fn view(&self) -> ServerStatusV {
        ServerStatusV {
            review_required: self.review_required,
        }
    }
}

/// How a record of this schema is written as a JSON object.
pub open spec fn server_status_to_json(x: ServerStatusV) -> JsonV {
    JsonV::Obj(seq![("reviewRequired"@, JsonV::Bool(x.review_required))])
}

/// How a JSON value reads as a record of this schema, if it does.
pub open spec fn server_status_from_json(j: JsonV) -> Option<ServerStatusV> {
    match j {
        JsonV::Obj(o) => {
            let f_review_required = lookup_bool(o, "reviewRequired"@);
            if f_review_required is Some {
                Some(ServerStatusV {
                    review_required: f_review_required.unwrap(),
                })
            } else {
                None
            }
        },
        _ => None,
    }
}

#[verifier::rlimit(100)]
pub fn encode_server_status(x: &ServerStatus) -> (r: Json)
    ensures
        r@ == server_status_to_json(x@),
{
    let mut o: Vec<(String, Json)> = Vec::new();
    o.push((String::from_str("reviewRequired"), Json::Bool(x.review_required)));
    proof {
        lemma_jview_obj_len(o@);
        assert(jview_obj(o@)[0] == ("reviewRequired"@, JsonV::Bool(x@.review_required)));
        assert(jview_obj(o@) =~= seq![("reviewRequired"@, JsonV::Bool(x@.review_required))]);
    }
    Json::Obj(o)
}

#[verifier::rlimit(100)]
pub fn decode_server_status(j: &Json) -> (r: Option<ServerStatus>)
    ensures
        match r {
            Some(x) => server_status_from_json(j@) == Some(x@),
            None => server_status_from_json(j@) is None,
        },
{
    match j {
        Json::Obj(o) => {
        let f_review_required = match get_bool(o, "reviewRequired") { Some(v) => v, None => { return None } };
            Some(ServerStatus {
                review_required: f_review_required,
            })
        },
        _ => None,
    }
}

/// Writing a record and reading it back gives the record: every wire
/// field name maps back to the field it came from.
#[verifier::rlimit(100)]
pub proof fn lemma_server_status_roundtrip(x: ServerStatusV)
    ensures
        server_status_from_json(server_status_to_json(x)) == Some(x),
{
    reveal_strlit("reviewRequired");
    reveal_with_fuel(lookup, 3);
    assert("reviewRequired"@.len() == 14);
    let o = seq![("reviewRequired"@, JsonV::Bool(x.review_required))];
    assert(lookup(o, "reviewRequired"@) == Some(JsonV::Bool(x.review_required)));
}

/// One listed server.
#[derive(Debug, Clone, PartialEq)]
pub struct Server {
    pub id: String,
    pub name: String,
    pub short_desc: String,
    pub long_desc: String,
    pub tags: Vec<String>,
    pub preview_channel: String,
    pub owner: Owner,
    pub icon: Icon,
    pub links: ServerLinks,
    pub status: ServerStatus,
}

pub struct ServerV {
    pub id: Seq<char>,
    pub name: Seq<char>,
    pub short_desc: Seq<char>,
    pub long_desc: Seq<char>,
    pub tags: Seq<Seq<char>>,
    pub preview_channel: Seq<char>,
    pub owner: OwnerV,
    pub icon: IconV,
    pub links: ServerLinksV,
    pub status: ServerStatusV,
}

impl View for Server {
    type V = ServerV;

    open spec fn view(&self) -> ServerV {
        ServerV {
            id: self.id@,
            name: self.name@,
            short_desc: self.short_desc@,
            long_desc: self.long_desc@,
            tags: self.tags@.map_values(|s: String| s@),
            preview_channel: self.preview_channel@,
            owner: self.owner@,
            icon: self.icon@,
            links: self.links@,
            status: self.status@,
        }
    }
}

/// How a record of this schema is written as a JSON object.
pub open spec fn server_to_json(x: ServerV) -> JsonV {
    JsonV::Obj(seq![("id"@, JsonV::Str(x.id)), ("name"@, JsonV::Str(x.name)), ("shortDesc"@, JsonV::Str(x.short_desc)), ("longDesc"@, JsonV::Str(x.long_desc)), ("tags"@, JsonV::Arr(strs_to_json(x.tags))), ("previewChannel"@, JsonV::Str(x.preview_channel)), ("owner"@, owner_to_json(x.owner)), ("icon"@, icon_to_json(x.icon)), ("links"@, server_links_to_json(x.links)), ("status"@, server_status_to_json(x.status))])
}

/// How a JSON value reads as a record of this schema, if it does.
pub open spec fn server_from_json(j: JsonV) -> Option<ServerV> {
    match j {
        JsonV::Obj(o) => {
            let f_id = lookup_str(o, "id"@);
            let f_name = lookup_str(o, "name"@);
            let f_short_desc = lookup_str(o, "shortDesc"@);
            let f_long_desc = lookup_str(o, "longDesc"@);
            let f_tags = (match lookup_arr(o, "tags"@) { Some(a) => str_elems(a), None => None });
            let f_preview_channel = lookup_str(o, "previewChannel"@);
            let f_owner = (match lookup(o, "owner"@) { Some(v) => owner_from_json(v), None => None });
            let f_icon = (match lookup(o, "icon"@) { Some(v) => icon_from_json(v), None => None });
            let f_links = (match lookup(o, "links"@) { Some(v) => server_links_from_json(v), None => None });
            let f_status = (match lookup(o, "status"@) { Some(v) => server_status_from_json(v), None => None });
            if f_id is Some && f_name is Some && f_short_desc is Some && f_long_desc is Some && f_tags is Some && f_preview_channel is Some && f_owner is Some && f_icon is Some && f_links is Some && f_status is Some {
                Some(ServerV {
                    id: f_id.unwrap(),
                    name: f_name.unwrap(),
                    short_desc: f_short_desc.unwrap(),
                    long_desc: f_long_desc.unwrap(),
                    tags: f_tags.unwrap(),
                    preview_channel: f_preview_channel.unwrap(),
                    owner: f_owner.unwrap(),
                    icon: f_icon.unwrap(),
                    links: f_links.unwrap(),
                    status: f_status.unwrap(),
                })
            } else {
                None
            }
        },
        _ => None,
    }
}

#[verifier::rlimit(100)]
pub fn encode_server(x: &Server) -> (r: Json)
    ensures
        r@ == server_to_json(x@),
{
    let mut o: Vec<(String, Json)> = Vec::new();
    o.push((String::from_str("id"), Json::Str(x.id.clone())));
    o.push((String::from_str("name"), Json::Str(x.name.clone())));
    o.push((String::from_str("shortDesc"), Json::Str(x.short_desc.clone())));
    o.push((String::from_str("longDesc"), Json::Str(x.long_desc.clone())));
    o.push((String::from_str("tags"), Json::Arr(encode_strs(&x.tags))));
    o.push((String::from_str("previewChannel"), Json::Str(x.preview_channel.clone())));
    o.push((String::from_str("owner"), encode_owner(&x.owner)));
    o.push((String::from_str("icon"), encode_icon(&x.icon)));
    o.push((String::from_str("links"), encode_server_links(&x.links)));
    o.push((String::from_str("status"), encode_server_status(&x.status)));
    proof {
        lemma_jview_obj_len(o@);
        assert(jview_obj(o@)[0] == ("id"@, JsonV::Str(x@.id)));
        assert(jview_obj(o@)[1] == ("name"@, JsonV::Str(x@.name)));
        assert(jview_obj(o@)[2] == ("shortDesc"@, JsonV::Str(x@.short_desc)));
        assert(jview_obj(o@)[3] == ("longDesc"@, JsonV::Str(x@.long_desc)));
        assert(jview_obj(o@)[4] == ("tags"@, JsonV::Arr(strs_to_json(x@.tags))));
        assert(jview_obj(o@)[5] == ("previewChannel"@, JsonV::Str(x@.preview_channel)));
        assert(jview_obj(o@)[6] == ("owner"@, owner_to_json(x@.owner)));
        assert(jview_obj(o@)[7] == ("icon"@, icon_to_json(x@.icon)));
        assert(jview_obj(o@)[8] == ("links"@, server_links_to_json(x@.links)));
        assert(jview_obj(o@)[9] == ("status"@, server_status_to_json(x@.status)));
        assert(jview_obj(o@) =~= seq![("id"@, JsonV::Str(x@.id)), ("name"@, JsonV::Str(x@.name)), ("shortDesc"@, JsonV::Str(x@.short_desc)), ("longDesc"@, JsonV::Str(x@.long_desc)), ("tags"@, JsonV::Arr(strs_to_json(x@.tags))), ("previewChannel"@, JsonV::Str(x@.preview_channel)), ("owner"@, owner_to_json(x@.owner)), ("icon"@, icon_to_json(x@.icon)), ("links"@, server_links_to_json(x@.links)), ("status"@, server_status_to_json(x@.status))]);
    }
    Json::Obj(o)
}

#[verifier::rlimit(100)]
pub fn decode_server(j: &Json) -> (r: Option<Server>)
    ensures
        match r {
            Some(x) => server_from_json(j@) == Some(x@),
            None => server_from_json(j@) is None,
        },
{
    match j {
        Json::Obj(o) => {
        let f_id = match get_string(o, "id") { Some(v) => v, None => { return None } };
        let f_name = match get_string(o, "name") { Some(v) => v, None => { return None } };
        let f_short_desc = match get_string(o, "shortDesc") { Some(v) => v, None => { return None } };
        let f_long_desc = match get_string(o, "longDesc") { Some(v) => v, None => { return None } };
        let f_tags = match get_str_arr(o, "tags") { Some(v) => v, None => { return None } };
        let f_preview_channel = match get_string(o, "previewChannel") { Some(v) => v, None => { return None } };
        let f_owner = match obj_get(o, "owner") { Some(vj) => match decode_owner(vj) { Some(v) => v, None => { return None } }, None => { return None } };
        let f_icon = match obj_get(o, "icon") { Some(vj) => match decode_icon(vj) { Some(v) => v, None => { return None } }, None => { return None } };
        let f_links = match obj_get(o, "links") { Some(vj) => match decode_server_links(vj) { Some(v) => v, None => { return None } }, None => { return None } };
        let f_status = match obj_get(o, "status") { Some(vj) => match decode_server_status(vj) { Some(v) => v, None => { return None } }, None => { return None } };
            Some(Server {
                id: f_id,
                name: f_name,
                short_desc: f_short_desc,
                long_desc: f_long_desc,
                tags: f_tags,
                preview_channel: f_preview_channel,
                owner: f_owner,
                icon: f_icon,
                links: f_links,
                status: f_status,
            })
        },
        _ => None,
    }
}

/// Writing a record and reading it back gives the record: every wire
/// field name maps back to the field it came from.
#[verifier::rlimit(100)]
pub proof fn lemma_server_roundtrip(x: ServerV)
    ensures
        server_from_json(server_to_json(x)) == Some(x),
{
    reveal_strlit("icon");
    reveal_strlit("id");
    reveal_strlit("links");
    reveal_strlit("longDesc");
    reveal_strlit("name");
    reveal_strlit("owner");
    reveal_strlit("previewChannel");
    reveal_strlit("shortDesc");
    reveal_strlit("status");
    reveal_strlit("tags");
    reveal_with_fuel(lookup, 12);
    assert("icon"@.len() == 4);
    assert("id"@.len() == 2);
    assert("links"@.len() == 5);
    assert("longDesc"@.len() == 8);
    assert("name"@.len() == 4);
    assert("owner"@.len() == 5);
    assert("previewChannel"@.len() == 14);
    assert("shortDesc"@.len() == 9);
    assert("status"@.len() == 6);
    assert("tags"@.len() == 4);
    assert("icon"@[0] == 'i');
    assert("name"@[0] == 'n');
    assert("icon"@[0] == 'i');
    assert("tags"@[0] == 't');
    assert("links"@[0] == 'l');
    assert("owner"@[0] == 'o');
    assert("name"@[0] == 'n');
    assert("tags"@[0] == 't');
    lemma_strs_roundtrip(x.tags);
    lemma_owner_roundtrip(x.owner);
    lemma_icon_roundtrip(x.icon);
    lemma_server_links_roundtrip(x.links);
    lemma_server_status_roundtrip(x.status);
    let o = seq![("id"@, JsonV::Str(x.id)), ("name"@, JsonV::Str(x.name)), ("shortDesc"@, JsonV::Str(x.short_desc)), ("longDesc"@, JsonV::Str(x.long_desc)), ("tags"@, JsonV::Arr(strs_to_json(x.tags))), ("previewChannel"@, JsonV::Str(x.preview_channel)), ("owner"@, owner_to_json(x.owner)), ("icon"@, icon_to_json(x.icon)), ("links"@, server_links_to_json(x.links)), ("status"@, server_status_to_json(x.status))];
    assert(lookup(o, "id"@) == Some(JsonV::Str(x.id)));
    assert(lookup(o, "name"@) == Some(JsonV::Str(x.name)));
    assert(lookup(o, "shortDesc"@) == Some(JsonV::Str(x.short_desc)));
    assert(lookup(o, "longDesc"@) == Some(JsonV::Str(x.long_desc)));
    assert(lookup(o, "tags"@) == Some(JsonV::Arr(strs_to_json(x.tags))));
    assert(lookup(o, "previewChannel"@) == Some(JsonV::Str(x.preview_channel)));
    assert(lookup(o, "owner"@) == Some(owner_to_json(x.owner)));
    assert(lookup(o, "icon"@) == Some(icon_to_json(x.icon)));
    assert(lookup(o, "links"@) == Some(server_links_to_json(x.links)));
    assert(lookup(o, "status"@) == Some(server_status_to_json(x.status)));
}

/// One role of a guild template.
#[derive(Debug, Clone, PartialEq)]
pub struct TemplateRole {
    pub name: String,
    pub color: u64,
    pub hoist: bool,
    pub position: u64,
    pub permissions: u64,
    pub managed: bool,
    pub mentionable: bool,
}

pub struct TemplateRoleV {
    pub name: Seq<char>,
    pub color: u64,
    pub hoist: bool,
    pub position: u64,
    pub permissions: u64,
    pub managed: bool,
    pub mentionable: bool,
}

impl View for TemplateRole {
    type V = TemplateRoleV;

    open spec fn view(&self) -> TemplateRoleV {
        TemplateRoleV {
            name: self.name@,
            color: self.color,
            hoist: self.hoist,
            position: self.position,
            permissions: self.permissions,
            managed: self.managed,
            mentionable: self.mentionable,
        }
    }
}

/// How a record of this schema is written as a JSON object.
pub open spec fn template_role_to_json(x: TemplateRoleV) -> JsonV {
    JsonV::Obj(seq![("name"@, JsonV::Str(x.name)), ("color"@, JsonV::Num(x.color)), ("hoist"@, JsonV::Bool(x.hoist)), ("position"@, JsonV::Num(x.position)), ("permissions"@, JsonV::Num(x.permissions)), ("managed"@, JsonV::Bool(x.managed)), ("mentionable"@, JsonV::Bool(x.mentionable))])
}

/// How a JSON value reads as a record of this schema, if it does.
pub open spec fn template_role_from_json(j: JsonV) -> Option<TemplateRoleV> {
    match j {
        JsonV::Obj(o) => {
            let f_name = lookup_str(o, "name"@);
            let f_color = lookup_u64(o, "color"@);
            let f_hoist = lookup_bool(o, "hoist"@);
            let f_position = lookup_u64(o, "position"@);
            let f_permissions = lookup_u64(o, "permissions"@);
            let f_managed = lookup_bool(o, "managed"@);
            let f_mentionable = lookup_bool(o, "mentionable"@);
            if f_name is Some && f_color is Some && f_hoist is Some && f_position is Some && f_permissions is Some && f_managed is Some && f_mentionable is Some {
                Some(TemplateRoleV {
                    name: f_name.unwrap(),
                    color: f_color.unwrap(),
                    hoist: f_hoist.unwrap(),
                    position: f_position.unwrap(),
                    permissions: f_permissions.unwrap(),
                    managed: f_managed.unwrap(),
                    mentionable: f_mentionable.unwrap(),
                })
            } else {
                None
            }
        },
        _ => None,
    }
}

#[verifier::rlimit(100)]
pub fn encode_template_role(x: &TemplateRole) -> (r: Json)
    ensures
        r@ == template_role_to_json(x@),
{
    let mut o: Vec<(String, Json)> = Vec::new();
    o.push((String::from_str("name"), Json::Str(x.name.clone())));
    o.push((String::from_str("color"), Json::Num(x.color)));
    o.push((String::from_str("hoist"), Json::Bool(x.hoist)));
    o.push((String::from_str("position"), Json::Num(x.position)));
    o.push((String::from_str("permissions"), Json::Num(x.permissions)));
    o.push((String::from_str("managed"), Json::Bool(x.managed)));
    o.push((String::from_str("mentionable"), Json::Bool(x.mentionable)));
    proof {
        lemma_jview_obj_len(o@);
        assert(jview_obj(o@)[0] == ("name"@, JsonV::Str(x@.name)));
        assert(jview_obj(o@)[1] == ("color"@, JsonV::Num(x@.color)));
        assert(jview_obj(o@)[2] == ("hoist"@, JsonV::Bool(x@.hoist)));
        assert(jview_obj(o@)[3] == ("position"@, JsonV::Num(x@.position)));
        assert(jview_obj(o@)[4] == ("permissions"@, JsonV::Num(x@.permissions)));
        assert(jview_obj(o@)[5] == ("managed"@, JsonV::Bool(x@.managed)));
        assert(jview_obj(o@)[6] == ("mentionable"@, JsonV::Bool(x@.mentionable)));
        assert(jview_obj(o@) =~= seq![("name"@, JsonV::Str(x@.name)), ("color"@, JsonV::Num(x@.color)), ("hoist"@, JsonV::Bool(x@.hoist)), ("position"@, JsonV::Num(x@.position)), ("permissions"@, JsonV::Num(x@.permissions)), ("managed"@, JsonV::Bool(x@.managed)), ("mentionable"@, JsonV::Bool(x@.mentionable))]);
    }
    Json::Obj(o)
}

#[verifier::rlimit(100)]
pub fn decode_template_role(j: &Json) -> (r: Option<TemplateRole>)
    ensures
        match r {
            Some(x) => template_role_from_json(j@) == Some(x@),
            None => template_role_from_json(j@) is None,
        },
{
    match j {
        Json::Obj(o) => {
        let f_name = match get_string(o, "name") { Some(v) => v, None => { return None } };
        let f_color = match get_u64(o, "color") { Some(v) => v, None => { return None } };
        let f_hoist = match get_bool(o, "hoist") { Some(v) => v, None => { return None } };
        let f_position = match get_u64(o, "position") { Some(v) => v, None => { return None } };
        let f_permissions = match get_u64(o, "permissions") { Some(v) => v, None => { return None } };
        let f_managed = match get_bool(o, "managed") { Some(v) => v, None => { return None } };
        let f_mentionable = match get_bool(o, "mentionable") { Some(v) => v, None => { return None } };
            Some(TemplateRole {
                name: f_name,
                color: f_color,
                hoist: f_hoist,
                position: f_position,
                permissions: f_permissions,
                managed: f_managed,
                mentionable: f_mentionable,
            })
        },
        _ => None,
    }
}

/// Writing a record and reading it back gives the record: every wire
/// field name maps back to the field it came from.
#[verifier::rlimit(100)]
pub proof fn lemma_template_role_roundtrip(x: TemplateRoleV)
    ensures
        template_role_from_json(template_role_to_json(x)) == Some(x),
{
    reveal_strlit("color");
    reveal_strlit("hoist");
    reveal_strlit("managed");
    reveal_strlit("mentionable");
    reveal_strlit("name");
    reveal_strlit("permissions");
    reveal_strlit("position");
    reveal_with_fuel(lookup, 9);
    assert("color"@.len() == 5);
    assert("hoist"@.len() == 5);
    assert("managed"@.len() == 7);
    assert("mentionable"@.len() == 11);
    assert("name"@.len() == 4);
    assert("permissions"@.len() == 11);
    assert("position"@.len() == 8);
    assert("color"@[0] == 'c');
    assert("hoist"@[0] == 'h');
    assert("mentionable"@[0] == 'm');
    assert("permissions"@[0] == 'p');
    let o = seq![("name"@, JsonV::Str(x.name)), ("color"@, JsonV::Num(x.color)), ("hoist"@, JsonV::Bool(x.hoist)), ("position"@, JsonV::Num(x.position)), ("permissions"@, JsonV::Num(x.permissions)), ("managed"@, JsonV::Bool(x.managed)), ("mentionable"@, JsonV::Bool(x.mentionable))];
    assert(lookup(o, "name"@) == Some(JsonV::Str(x.name)));
    assert(lookup(o, "color"@) == Some(JsonV::Num(x.color)));
    assert(lookup(o, "hoist"@) == Some(JsonV::Bool(x.hoist)));
    assert(lookup(o, "position"@) == Some(JsonV::Num(x.position)));
    assert(lookup(o, "permissions"@) == Some(JsonV::Num(x.permissions)));
    assert(lookup(o, "managed"@) == Some(JsonV::Bool(x.managed)));
    assert(lookup(o, "mentionable"@) == Some(JsonV::Bool(x.mentionable)));
}

pub open spec fn template_role_seq_to_json(s: Seq<TemplateRoleV>) -> Seq<JsonV>
    decreases s.len(),
{
    if s.len() == 0 { Seq::empty() } else { seq![template_role_to_json(s[0])] + template_role_seq_to_json(s.drop_first()) }
}

pub open spec fn template_role_seq_from_json(a: Seq<JsonV>) -> Option<Seq<TemplateRoleV>>
    decreases a.len(),
{
    if a.len() == 0 {
        Some(Seq::empty())
    } else {
        match template_role_from_json(a[0]) {
            Some(x) => match template_role_seq_from_json(a.drop_first()) {
                Some(t) => Some(seq![x] + t),
                None => None,
            },
            None => None,
        }
    }
}

/// Writing each record of a list and reading the list back gives the list.
pub proof fn lemma_template_role_seq_roundtrip(s: Seq<TemplateRoleV>)
    ensures
        template_role_seq_from_json(template_role_seq_to_json(s)) == Some(s),
    decreases s.len(),
{
    if s.len() == 0 {
        assert(s =~= Seq::<TemplateRoleV>::empty());
    } else {
        lemma_template_role_roundtrip(s[0]);
        lemma_template_role_seq_roundtrip(s.drop_first());
        assert(template_role_seq_to_json(s)[0] == template_role_to_json(s[0]));
        assert(template_role_seq_to_json(s).drop_first() =~= template_role_seq_to_json(s.drop_first()));
        assert(seq![s[0]] + s.drop_first() =~= s);
    }
}

fn encode_template_role_seq_from(v: &Vec<TemplateRole>, i: usize) -> (r: Vec<Json>)
    requires
        i <= v@.len(),
    ensures
        jview_arr(r@) == template_role_seq_to_json(v@.map_values(|x: TemplateRole| x@).skip(i as int)),
    decreases v@.len() - i,
{
    let ghost m = v@.map_values(|x: TemplateRole| x@);
    if i == v.len() {
        let r: Vec<Json> = Vec::new();
        proof {
            assert(m.skip(i as int) =~= Seq::<TemplateRoleV>::empty());
            assert(jview_arr(r@) =~= template_role_seq_to_json(m.skip(i as int)));
        }
        r
    } else {
        let e = encode_template_role(&v[i]);
        let rest = encode_template_role_seq_from(v, i + 1);
        let ghost vrest = rest@;
        let mut r = rest;
        r.insert(0, e);
        proof {
            assert(r@.drop_first() =~= vrest);
            assert(jview_arr(r@) =~= seq![jview(r@[0])] + jview_arr(vrest));
            assert(m.skip(i as int)[0] == m[i as int]);
            assert(m.skip(i as int).drop_first() =~= m.skip(i + 1));
            assert(jview_arr(r@) =~= template_role_seq_to_json(m.skip(i as int)));
        }
        r
    }
}

pub fn encode_template_role_seq(v: &Vec<TemplateRole>) -> (r: Vec<Json>)
    ensures
        jview_arr(r@) == template_role_seq_to_json(v@.map_values(|x: TemplateRole| x@)),
{
    let r = encode_template_role_seq_from(v, 0);
    proof {
        assert(v@.map_values(|x: TemplateRole| x@).skip(0) =~= v@.map_values(|x: TemplateRole| x@));
    }
    r
}

fn decode_template_role_seq_from(a: &Vec<Json>, i: usize) -> (r: Option<Vec<TemplateRole>>)
    requires
        i <= a@.len(),
    ensures
        match r {
            Some(v) => template_role_seq_from_json(jview_arr(a@).skip(i as int)) == Some(v@.map_values(|x: TemplateRole| x@)),
            None => template_role_seq_from_json(jview_arr(a@).skip(i as int)) is None,
        },
    decreases a@.len() - i,
{
    proof {
        lemma_jview_arr_len(a@);
    }
    if i == a.len() {
        let r: Vec<TemplateRole> = Vec::new();
        proof {
            assert(jview_arr(a@).skip(i as int) =~= Seq::<JsonV>::empty());
            assert(r@.map_values(|x: TemplateRole| x@) =~= Seq::<TemplateRoleV>::empty());
        }
        Some(r)
    } else {
        proof {
            assert(jview_arr(a@).skip(i as int)[0] == jview(a@[i as int]));
            assert(jview_arr(a@).skip(i as int).drop_first() =~= jview_arr(a@).skip(i + 1));
        }
        match decode_template_role(&a[i]) {
            Some(x) => match decode_template_role_seq_from(a, i + 1) {
                Some(rest) => {
                    let ghost vrest = rest@;
                    let mut r = rest;
                    r.insert(0, x);
                    proof {
                        assert(r@.drop_first() =~= vrest);
                        assert(r@.map_values(|y: TemplateRole| y@) =~= seq![r@[0]@] + vrest.map_values(|y: TemplateRole| y@));
                    }
                    Some(r)
                },
                None => None,
            },
            None => None,
        }
    }
}

pub fn decode_template_role_seq(a: &Vec<Json>) -> (r: Option<Vec<TemplateRole>>)
    ensures
        match r {
            Some(v) => template_role_seq_from_json(jview_arr(a@)) == Some(v@.map_values(|x: TemplateRole| x@)),
            None => template_role_seq_from_json(jview_arr(a@)) is None,
        },
{
    proof {
        assert(jview_arr(a@).skip(0) =~= jview_arr(a@));
    }
    decode_template_role_seq_from(a, 0)
}

/// One permission overwrite of a template channel.
#[derive(Debug, Clone, PartialEq)]
pub struct PermissionOverwrite {
    pub id: String,
    pub type_: u64,
    pub allow: u64,
    pub deny: u64,
}

pub struct PermissionOverwriteV {
    pub id: Seq<char>,
    pub type_: u64,
    pub allow: u64,
    pub deny: u64,
}

impl View for PermissionOverwrite {
    type V = PermissionOverwriteV;

    open spec fn view(&self) -> PermissionOverwriteV {
        PermissionOverwriteV {
            id: self.id@,
            type_: self.type_,
            allow: self.allow,
            deny: self.deny,
        }
    }
}

/// How a record of this schema is written as a JSON object.
pub open spec fn permission_overwrite_to_json(x: PermissionOverwriteV) -> JsonV {
    JsonV::Obj(seq![("id"@, JsonV::Str(x.id)), ("type"@, JsonV::Num(x.type_)), ("allow"@, JsonV::Num(x.allow)), ("deny"@, JsonV::Num(x.deny))])
}

/// How a JSON value reads as a record of this schema, if it does.
pub open spec fn permission_overwrite_from_json(j: JsonV) -> Option<PermissionOverwriteV> {
    match j {
        JsonV::Obj(o) => {
            let f_id = lookup_str(o, "id"@);
            let f_type_ = lookup_u64(o, "type"@);
            let f_allow = lookup_u64(o, "allow"@);
            let f_deny = lookup_u64(o, "deny"@);
            if f_id is Some && f_type_ is Some && f_allow is Some && f_deny is Some {
                Some(PermissionOverwriteV {
                    id: f_id.unwrap(),
                    type_: f_type_.unwrap(),
                    allow: f_allow.unwrap(),
                    deny: f_deny.unwrap(),
                })
            } else {
                None
            }
        },
        _ => None,
    }
}

#[verifier::rlimit(100)]
pub fn encode_permission_overwrite(x: &PermissionOverwrite) -> (r: Json)
    ensures
        r@ == permission_overwrite_to_json(x@),
{
    let mut o: Vec<(String, Json)> = Vec::new();
    o.push((String::from_str("id"), Json::Str(x.id.clone())));
    o.push((String::from_str("type"), Json::Num(x.type_)));
    o.push((String::from_str("allow"), Json::Num(x.allow)));
    o.push((String::from_str("deny"), Json::Num(x.deny)));
    proof {
        lemma_jview_obj_len(o@);
        assert(jview_obj(o@)[0] == ("id"@, JsonV::Str(x@.id)));
        assert(jview_obj(o@)[1] == ("type"@, JsonV::Num(x@.type_)));
        assert(jview_obj(o@)[2] == ("allow"@, JsonV::Num(x@.allow)));
        assert(jview_obj(o@)[3] == ("deny"@, JsonV::Num(x@.deny)));
        assert(jview_obj(o@) =~= seq![("id"@, JsonV::Str(x@.id)), ("type"@, JsonV::Num(x@.type_)), ("allow"@, JsonV::Num(x@.allow)), ("deny"@, JsonV::Num(x@.deny))]);
    }
    Json::Obj(o)
}

#[verifier::rlimit(100)]
pub fn decode_permission_overwrite(j: &Json) -> (r: Option<PermissionOverwrite>)
    ensures
        match r {
            Some(x) => permission_overwrite_from_json(j@) == Some(x@),
            None => permission_overwrite_from_json(j@) is None,
        },
{
    match j {
        Json::Obj(o) => {
        let f_id = match get_string(o, "id") { Some(v) => v, None => { return None } };
        let f_type_ = match get_u64(o, "type") { Some(v) => v, None => { return None } };
        let f_allow = match get_u64(o, "allow") { Some(v) => v, None => { return None } };
        let f_deny = match get_u64(o, "deny") { Some(v) => v, None => { return None } };
            Some(PermissionOverwrite {
                id: f_id,
                type_: f_type_,
                allow: f_allow,
                deny: f_deny,
            })
        },
        _ => None,
    }
}

/// Writing a record and reading it back gives the record: every wire
/// field name maps back to the field it came from.
#[verifier::rlimit(100)]
pub proof fn lemma_permission_overwrite_roundtrip(x: PermissionOverwriteV)
    ensures
        permission_overwrite_from_json(permission_overwrite_to_json(x)) == Some(x),
{
    reveal_strlit("allow");
    reveal_strlit("deny");
    reveal_strlit("id");
    reveal_strlit("type");
    reveal_with_fuel(lookup, 6);
    assert("allow"@.len() == 5);
    assert("deny"@.len() == 4);
    assert("id"@.len() == 2);
    assert("type"@.len() == 4);
    assert("deny"@[0] == 'd');
    assert("type"@[0] == 't');
    let o = seq![("id"@, JsonV::Str(x.id)), ("type"@, JsonV::Num(x.type_)), ("allow"@, JsonV::Num(x.allow)), ("deny"@, JsonV::Num(x.deny))];
    assert(lookup(o, "id"@) == Some(JsonV::Str(x.id)));
    assert(lookup(o, "type"@) == Some(JsonV::Num(x.type_)));
    assert(lookup(o, "allow"@) == Some(JsonV::Num(x.allow)));
    assert(lookup(o, "deny"@) == Some(JsonV::Num(x.deny)));
}

pub open spec fn opt_permission_overwrite_vec_view(o: Option<Vec<PermissionOverwrite>>) -> Option<Seq<PermissionOverwriteV>> {
    match o {
        Some(v) => Some(v@.map_values(|x: PermissionOverwrite| x@)),
        None => None,
    }
}

pub open spec fn opt_permission_overwrite_seq_to_json(o: Option<Seq<PermissionOverwriteV>>) -> JsonV {
    match o {
        Some(s) => JsonV::Arr(permission_overwrite_seq_to_json(s)),
        None => JsonV::Null,
    }
}

pub open spec fn permission_overwrite_seq_to_json(s: Seq<PermissionOverwriteV>) -> Seq<JsonV>
    decreases s.len(),
{
    if s.len() == 0 { Seq::empty() } else { seq![permission_overwrite_to_json(s[0])] + permission_overwrite_seq_to_json(s.drop_first()) }
}

pub open spec fn permission_overwrite_seq_from_json(a: Seq<JsonV>) -> Option<Seq<PermissionOverwriteV>>
    decreases a.len(),
{
    if a.len() == 0 {
        Some(Seq::empty())
    } else {
        match permission_overwrite_from_json(a[0]) {
            Some(x) => match permission_overwrite_seq_from_json(a.drop_first()) {
                Some(t) => Some(seq![x] + t),
                None => None,
            },
            None => None,
        }
    }
}

/// Writing each record of a list and reading the list back gives the list.
pub proof fn lemma_permission_overwrite_seq_roundtrip(s: Seq<PermissionOverwriteV>)
    ensures
        permission_overwrite_seq_from_json(permission_overwrite_seq_to_json(s)) == Some(s),
    decreases s.len(),
{
    if s.len() == 0 {
        assert(s =~= Seq::<PermissionOverwriteV>::empty());
    } else {
        lemma_permission_overwrite_roundtrip(s[0]);
        lemma_permission_overwrite_seq_roundtrip(s.drop_first());
        assert(permission_overwrite_seq_to_json(s)[0] == permission_overwrite_to_json(s[0]));
        assert(permission_overwrite_seq_to_json(s).drop_first() =~= permission_overwrite_seq_to_json(s.drop_first()));
        assert(seq![s[0]] + s.drop_first() =~= s);
    }
}

fn encode_permission_overwrite_seq_from(v: &Vec<PermissionOverwrite>, i: usize) -> (r: Vec<Json>)
    requires
        i <= v@.len(),
    ensures
        jview_arr(r@) == permission_overwrite_seq_to_json(v@.map_values(|x: PermissionOverwrite| x@).skip(i as int)),
    decreases v@.len() - i,
{
    let ghost m = v@.map_values(|x: PermissionOverwrite| x@);
    if i == v.len() {
        let r: Vec<Json> = Vec::new();
        proof {
            assert(m.skip(i as int) =~= Seq::<PermissionOverwriteV>::empty());
            assert(jview_arr(r@) =~= permission_overwrite_seq_to_json(m.skip(i as int)));
        }
        r
    } else {
        let e = encode_permission_overwrite(&v[i]);
        let rest = encode_permission_overwrite_seq_from(v, i + 1);
        let ghost vrest = rest@;
        let mut r = rest;
        r.insert(0, e);
        proof {
            assert(r@.drop_first() =~= vrest);
            assert(jview_arr(r@) =~= seq![jview(r@[0])] + jview_arr(vrest));
            assert(m.skip(i as int)[0] == m[i as int]);
            assert(m.skip(i as int).drop_first() =~= m.skip(i + 1));
            assert(jview_arr(r@) =~= permission_overwrite_seq_to_json(m.skip(i as int)));
        }
        r
    }
}

pub fn encode_permission_overwrite_seq(v: &Vec<PermissionOverwrite>) -> (r: Vec<Json>)
    ensures
        jview_arr(r@) == permission_overwrite_seq_to_json(v@.map_values(|x: PermissionOverwrite| x@)),
{
    let r = encode_permission_overwrite_seq_from(v, 0);
    proof {
        assert(v@.map_values(|x: PermissionOverwrite| x@).skip(0) =~= v@.map_values(|x: PermissionOverwrite| x@));
    }
    r
}

fn decode_permission_overwrite_seq_from(a: &Vec<Json>, i: usize) -> (r: Option<Vec<PermissionOverwrite>>)
    requires
        i <= a@.len(),
    ensures
        match r {
            Some(v) => permission_overwrite_seq_from_json(jview_arr(a@).skip(i as int)) == Some(v@.map_values(|x: PermissionOverwrite| x@)),
            None => permission_overwrite_seq_from_json(jview_arr(a@).skip(i as int)) is None,
        },
    decreases a@.len() - i,
{
    proof {
        lemma_jview_arr_len(a@);
    }
    if i == a.len() {
        let r: Vec<PermissionOverwrite> = Vec::new();
        proof {
            assert(jview_arr(a@).skip(i as int) =~= Seq::<JsonV>::empty());
            assert(r@.map_values(|x: PermissionOverwrite| x@) =~= Seq::<PermissionOverwriteV>::empty());
        }
        Some(r)
    } else {
        proof {
            assert(jview_arr(a@).skip(i as int)[0] == jview(a@[i as int]));
            assert(jview_arr(a@).skip(i as int).drop_first() =~= jview_arr(a@).skip(i + 1));
        }
        match decode_permission_overwrite(&a[i]) {
            Some(x) => match decode_permission_overwrite_seq_from(a, i + 1) {
                Some(rest) => {
                    let ghost vrest = rest@;
                    let mut r = rest;
                    r.insert(0, x);
                    proof {
                        assert(r@.drop_first() =~= vrest);
                        assert(r@.map_values(|y: PermissionOverwrite| y@) =~= seq![r@[0]@] + vrest.map_values(|y: PermissionOverwrite| y@));
                    }
                    Some(r)
                },
                None => None,
            },
            None => None,
        }
    }
}

pub fn decode_permission_overwrite_seq(a: &Vec<Json>) -> (r: Option<Vec<PermissionOverwrite>>)
    ensures
        match r {
            Some(v) => permission_overwrite_seq_from_json(jview_arr(a@)) == Some(v@.map_values(|x: PermissionOverwrite| x@)),
            None => permission_overwrite_seq_from_json(jview_arr(a@)) is None,
        },
{
    proof {
        assert(jview_arr(a@).skip(0) =~= jview_arr(a@));
    }
    decode_permission_overwrite_seq_from(a, 0)
}

/// One channel of a guild template.
#[derive(Debug, Clone, PartialEq)]
pub struct TemplateChannel {
    pub type_: u64,
    pub name: String,
    pub nsfw: bool,
    pub permissions_overwrites: Option<Vec<PermissionOverwrite>>,
    pub rate_limit_per_user: u64,
    pub last_message_id: String,
    pub last_pin_timestamp: Option<String>,
}

pub struct TemplateChannelV {
    pub type_: u64,
    pub name: Seq<char>,
    pub nsfw: bool,
    pub permissions_overwrites: Option<Seq<PermissionOverwriteV>>,
    pub rate_limit_per_user: u64,
    pub last_message_id: Seq<char>,
    pub last_pin_timestamp: Option<Seq<char>>,
}

impl View for TemplateChannel {
    type V = TemplateChannelV;

    open spec fn view(&self) -> TemplateChannelV {
        TemplateChannelV {
            type_: self.type_,
            name: self.name@,
            nsfw: self.nsfw,
            permissions_overwrites: opt_permission_overwrite_vec_view(self.permissions_overwrites),
            rate_limit_per_user: self.rate_limit_per_user,
            last_message_id: self.last_message_id@,
            last_pin_timestamp: opt_string_view(self.last_pin_timestamp),
        }
    }
}

/// How a record of this schema is written as a JSON object.
pub open spec fn template_channel_to_json(x: TemplateChannelV) -> JsonV {
    JsonV::Obj(seq![("type"@, JsonV::Num(x.type_)), ("name"@, JsonV::Str(x.name)), ("nsfw"@, JsonV::Bool(x.nsfw)), ("permissions_overwrites"@, opt_permission_overwrite_seq_to_json(x.permissions_overwrites)), ("rate_limit_per_user"@, JsonV::Num(x.rate_limit_per_user)), ("last_message_id"@, JsonV::Str(x.last_message_id)), ("last_pin_timestamp"@, opt_str_to_json(x.last_pin_timestamp))])
}

/// How a JSON value reads as a record of this schema, if it does.
pub open spec fn template_channel_from_json(j: JsonV) -> Option<TemplateChannelV> {
    match j {
        JsonV::Obj(o) => {
            let f_type_ = lookup_u64(o, "type"@);
            let f_name = lookup_str(o, "name"@);
            let f_nsfw = lookup_bool(o, "nsfw"@);
            let f_permissions_overwrites = (match lookup(o, "permissions_overwrites"@) { None => Some(None), Some(JsonV::Null) => Some(None), Some(JsonV::Arr(a)) => (match permission_overwrite_seq_from_json(a) { Some(v) => Some(Some(v)), None => None }), Some(_) => None });
            let f_rate_limit_per_user = lookup_u64(o, "rate_limit_per_user"@);
            let f_last_message_id = lookup_str(o, "last_message_id"@);
            let f_last_pin_timestamp = lookup_opt_str(o, "last_pin_timestamp"@);
            if f_type_ is Some && f_name is Some && f_nsfw is Some && f_permissions_overwrites is Some && f_rate_limit_per_user is Some && f_last_message_id is Some && f_last_pin_timestamp is Some {
                Some(TemplateChannelV {
                    type_: f_type_.unwrap(),
                    name: f_name.unwrap(),
                    nsfw: f_nsfw.unwrap(),
                    permissions_overwrites: f_permissions_overwrites.unwrap(),
                    rate_limit_per_user: f_rate_limit_per_user.unwrap(),
                    last_message_id: f_last_message_id.unwrap(),
                    last_pin_timestamp: f_last_pin_timestamp.unwrap(),
                })
            } else {
                None
            }
        },
        _ => None,
    }
}

#[verifier::rlimit(100)]
pub fn encode_template_channel(x: &TemplateChannel) -> (r: Json)
    ensures
        r@ == template_channel_to_json(x@),
{
    let mut o: Vec<(String, Json)> = Vec::new();
    o.push((String::from_str("type"), Json::Num(x.type_)));
    o.push((String::from_str("name"), Json::Str(x.name.clone())));
    o.push((String::from_str("nsfw"), Json::Bool(x.nsfw)));
    o.push((String::from_str("permissions_overwrites"), (match &x.permissions_overwrites { Some(v) => Json::Arr(encode_permission_overwrite_seq(v)), None => Json::Null })));
    o.push((String::from_str("rate_limit_per_user"), Json::Num(x.rate_limit_per_user)));
    o.push((String::from_str("last_message_id"), Json::Str(x.last_message_id.clone())));
    o.push((String::from_str("last_pin_timestamp"), (match &x.last_pin_timestamp { Some(s) => Json::Str(s.clone()), None => Json::Null })));
    proof {
        lemma_jview_obj_len(o@);
        assert(jview_obj(o@)[0] == ("type"@, JsonV::Num(x@.type_)));
        assert(jview_obj(o@)[1] == ("name"@, JsonV::Str(x@.name)));
        assert(jview_obj(o@)[2] == ("nsfw"@, JsonV::Bool(x@.nsfw)));
        assert(jview_obj(o@)[3] == ("permissions_overwrites"@, opt_permission_overwrite_seq_to_json(x@.permissions_overwrites)));
        assert(jview_obj(o@)[4] == ("rate_limit_per_user"@, JsonV::Num(x@.rate_limit_per_user)));
        assert(jview_obj(o@)[5] == ("last_message_id"@, JsonV::Str(x@.last_message_id)));
        assert(jview_obj(o@)[6] == ("last_pin_timestamp"@, opt_str_to_json(x@.last_pin_timestamp)));
        assert(jview_obj(o@) =~= seq![("type"@, JsonV::Num(x@.type_)), ("name"@, JsonV::Str(x@.name)), ("nsfw"@, JsonV::Bool(x@.nsfw)), ("permissions_overwrites"@, opt_permission_overwrite_seq_to_json(x@.permissions_overwrites)), ("rate_limit_per_user"@, JsonV::Num(x@.rate_limit_per_user)), ("last_message_id"@, JsonV::Str(x@.last_message_id)), ("last_pin_timestamp"@, opt_str_to_json(x@.last_pin_timestamp))]);
    }
    Json::Obj(o)
}

#[verifier::rlimit(100)]
pub fn decode_template_channel(j: &Json) -> (r: Option<TemplateChannel>)
    ensures
        match r {
            Some(x) => template_channel_from_json(j@) == Some(x@),
            None => template_channel_from_json(j@) is None,
        },
{
    match j {
        Json::Obj(o) => {
        let f_type_ = match get_u64(o, "type") { Some(v) => v, None => { return None } };
        let f_name = match get_string(o, "name") { Some(v) => v, None => { return None } };
        let f_nsfw = match get_bool(o, "nsfw") { Some(v) => v, None => { return None } };
        let f_permissions_overwrites: Option<Vec<PermissionOverwrite>> = match obj_get(o, "permissions_overwrites") {
        None => None,
        Some(Json::Null) => None,
        Some(Json::Arr(a)) => match decode_permission_overwrite_seq(a) { Some(v) => Some(v), None => { return None } },
        Some(_) => { return None },
    };
        let f_rate_limit_per_user = match get_u64(o, "rate_limit_per_user") { Some(v) => v, None => { return None } };
        let f_last_message_id = match get_string(o, "last_message_id") { Some(v) => v, None => { return None } };
        let f_last_pin_timestamp = match get_opt_string(o, "last_pin_timestamp") { Some(v) => v, None => { return None } };
            Some(TemplateChannel {
                type_: f_type_,
                name: f_name,
                nsfw: f_nsfw,
                permissions_overwrites: f_permissions_overwrites,
                rate_limit_per_user: f_rate_limit_per_user,
                last_message_id: f_last_message_id,
                last_pin_timestamp: f_last_pin_timestamp,
            })
        },
        _ => None,
    }
}

/// Writing a record and reading it back gives the record: every wire
/// field name maps back to the field it came from.
#[verifier::rlimit(100)]
pub proof fn lemma_template_channel_roundtrip(x: TemplateChannelV)
    ensures
        template_channel_from_json(template_channel_to_json(x)) == Some(x),
{
    reveal_strlit("last_message_id");
    reveal_strlit("last_pin_timestamp");
    reveal_strlit("name");
    reveal_strlit("nsfw");
    reveal_strlit("permissions_overwrites");
    reveal_strlit("rate_limit_per_user");
    reveal_strlit("type");
    reveal_with_fuel(lookup, 9);
    assert("last_message_id"@.len() == 15);
    assert("last_pin_timestamp"@.len() == 18);
    assert("name"@.len() == 4);
    assert("nsfw"@.len() == 4);
    assert("permissions_overwrites"@.len() == 22);
    assert("rate_limit_per_user"@.len() == 19);
    assert("type"@.len() == 4);
    assert("name"@[1] == 'a');
    assert("nsfw"@[1] == 's');
    assert("name"@[0] == 'n');
    assert("type"@[0] == 't');
    assert("nsfw"@[0] == 'n');
    assert("type"@[0] == 't');
    if x.permissions_overwrites is Some { lemma_permission_overwrite_seq_roundtrip(x.permissions_overwrites.unwrap()); }
    let o = seq![("type"@, JsonV::Num(x.type_)), ("name"@, JsonV::Str(x.name)), ("nsfw"@, JsonV::Bool(x.nsfw)), ("permissions_overwrites"@, opt_permission_overwrite_seq_to_json(x.permissions_overwrites)), ("rate_limit_per_user"@, JsonV::Num(x.rate_limit_per_user)), ("last_message_id"@, JsonV::Str(x.last_message_id)), ("last_pin_timestamp"@, opt_str_to_json(x.last_pin_timestamp))];
    assert(lookup(o, "type"@) == Some(JsonV::Num(x.type_)));
    assert(lookup(o, "name"@) == Some(JsonV::Str(x.name)));
    assert(lookup(o, "nsfw"@) == Some(JsonV::Bool(x.nsfw)));
    assert(lookup(o, "permissions_overwrites"@) == Some(opt_permission_overwrite_seq_to_json(x.permissions_overwrites)));
    assert(lookup(o, "rate_limit_per_user"@) == Some(JsonV::Num(x.rate_limit_per_user)));
    assert(lookup(o, "last_message_id"@) == Some(JsonV::Str(x.last_message_id)));
    assert(lookup(o, "last_pin_timestamp"@) == Some(opt_str_to_json(x.last_pin_timestamp)));
}

pub open spec fn template_channel_seq_to_json(s: Seq<TemplateChannelV>) -> Seq<JsonV>
    decreases s.len(),
{
    if s.len() == 0 { Seq::empty() } else { seq![template_channel_to_json(s[0])] + template_channel_seq_to_json(s.drop_first()) }
}

pub open spec fn template_channel_seq_from_json(a: Seq<JsonV>) -> Option<Seq<TemplateChannelV>>
    decreases a.len(),
{
    if a.len() == 0 {
        Some(Seq::empty())
    } else {
        match template_channel_from_json(a[0]) {
            Some(x) => match template_channel_seq_from_json(a.drop_first()) {
                Some(t) => Some(seq![x] + t),
                None => None,
            },
            None => None,
        }
    }
}

/// Writing each record of a list and reading the list back gives the list.
pub proof fn lemma_template_channel_seq_roundtrip(s: Seq<TemplateChannelV>)
    ensures
        template_channel_seq_from_json(template_channel_seq_to_json(s)) == Some(s),
    decreases s.len(),
{
    if s.len() == 0 {
        assert(s =~= Seq::<TemplateChannelV>::empty());
    } else {
        lemma_template_channel_roundtrip(s[0]);
        lemma_template_channel_seq_roundtrip(s.drop_first());
        assert(template_channel_seq_to_json(s)[0] == template_channel_to_json(s[0]));
        assert(template_channel_seq_to_json(s).drop_first() =~= template_channel_seq_to_json(s.drop_first()));
        assert(seq![s[0]] + s.drop_first() =~= s);
    }
}

fn encode_template_channel_seq_from(v: &Vec<TemplateChannel>, i: usize) -> (r: Vec<Json>)
    requires
        i <= v@.len(),
    ensures
        jview_arr(r@) == template_channel_seq_to_json(v@.map_values(|x: TemplateChannel| x@).skip(i as int)),
    decreases v@.len() - i,
{
    let ghost m = v@.map_values(|x: TemplateChannel| x@);
    if i == v.len() {
        let r: Vec<Json> = Vec::new();
        proof {
            assert(m.skip(i as int) =~= Seq::<TemplateChannelV>::empty());
            assert(jview_arr(r@) =~= template_channel_seq_to_json(m.skip(i as int)));
        }
        r
    } else {
        let e = encode_template_channel(&v[i]);
        let rest = encode_template_channel_seq_from(v, i + 1);
        let ghost vrest = rest@;
        let mut r = rest;
        r.insert(0, e);
        proof {
            assert(r@.drop_first() =~= vrest);
            assert(jview_arr(r@) =~= seq![jview(r@[0])] + jview_arr(vrest));
            assert(m.skip(i as int)[0] == m[i as int]);
            assert(m.skip(i as int).drop_first() =~= m.skip(i + 1));
            assert(jview_arr(r@) =~= template_channel_seq_to_json(m.skip(i as int)));
        }
        r
    }
}

pub fn encode_template_channel_seq(v: &Vec<TemplateChannel>) -> (r: Vec<Json>)
    ensures
        jview_arr(r@) == template_channel_seq_to_json(v@.map_values(|x: TemplateChannel| x@)),
{
    let r = encode_template_channel_seq_from(v, 0);
    proof {
        assert(v@.map_values(|x: TemplateChannel| x@).skip(0) =~= v@.map_values(|x: TemplateChannel| x@));
    }
    r
}

fn decode_template_channel_seq_from(a: &Vec<Json>, i: usize) -> (r: Option<Vec<TemplateChannel>>)
    requires
        i <= a@.len(),
    ensures
        match r {
            Some(v) => template_channel_seq_from_json(jview_arr(a@).skip(i as int)) == Some(v@.map_values(|x: TemplateChannel| x@)),
            None => template_channel_seq_from_json(jview_arr(a@).skip(i as int)) is None,
        },
    decreases a@.len() - i,
{
    proof {
        lemma_jview_arr_len(a@);
    }
    if i == a.len() {
        let r: Vec<TemplateChannel> = Vec::new();
        proof {
            assert(jview_arr(a@).skip(i as int) =~= Seq::<JsonV>::empty());
            assert(r@.map_values(|x: TemplateChannel| x@) =~= Seq::<TemplateChannelV>::empty());
        }
        Some(r)
    } else {
        proof {
            assert(jview_arr(a@).skip(i as int)[0] == jview(a@[i as int]));
            assert(jview_arr(a@).skip(i as int).drop_first() =~= jview_arr(a@).skip(i + 1));
        }
        match decode_template_channel(&a[i]) {
            Some(x) => match decode_template_channel_seq_from(a, i + 1) {
                Some(rest) => {
                    let ghost vrest = rest@;
                    let mut r = rest;
                    r.insert(0, x);
                    proof {
                        assert(r@.drop_first() =~= vrest);
                        assert(r@.map_values(|y: TemplateChannel| y@) =~= seq![r@[0]@] + vrest.map_values(|y: TemplateChannel| y@));
                    }
                    Some(r)
                },
                None => None,
            },
            None => None,
        }
    }
}

pub fn decode_template_channel_seq(a: &Vec<Json>) -> (r: Option<Vec<TemplateChannel>>)
    ensures
        match r {
            Some(v) => template_channel_seq_from_json(jview_arr(a@)) == Some(v@.map_values(|x: TemplateChannel| x@)),
            None => template_channel_seq_from_json(jview_arr(a@)) is None,
        },
{
    proof {
        assert(jview_arr(a@).skip(0) =~= jview_arr(a@));
    }
    decode_template_channel_seq_from(a, 0)
}

/// The outward links of a template's listing.
#[derive(Debug, Clone, PartialEq)]
pub struct TemplateLinks {
    pub template: String,
}

pub struct TemplateLinksV {
    pub template: Seq<char>,
}

impl View for TemplateLinks {
    type V = TemplateLinksV;

    open spec fn view(&self) -> TemplateLinksV {
        TemplateLinksV {
            template: self.template@,
        }
    }
}

/// How a record of this schema is written as a JSON object.
pub open spec fn template_links_to_json(x: TemplateLinksV) -> JsonV {
    JsonV::Obj(seq![("template"@, JsonV::Str(x.template))])
}

/// How a JSON value reads as a record of this schema, if it does.
pub open spec fn template_links_from_json(j: JsonV) -> Option<TemplateLinksV> {
    match j {
        JsonV::Obj(o) => {
            let f_template = lookup_str(o, "template"@);
            if f_template is Some {
                Some(TemplateLinksV {
                    template: f_template.unwrap(),
                })
            } else {
                None
            }
        },
        _ => None,
    }
}

#[verifier::rlimit(100)]
pub fn encode_template_links(x: &TemplateLinks) -> (r: Json)
    ensures
        r@ == template_links_to_json(x@),
{
    let mut o: Vec<(String, Json)> = Vec::new();
    o.push((String::from_str("template"), Json::Str(x.template.clone())));
    proof {
        lemma_jview_obj_len(o@);
        assert(jview_obj(o@)[0] == ("template"@, JsonV::Str(x@.template)));
        assert(jview_obj(o@) =~= seq![("template"@, JsonV::Str(x@.template))]);
    }
    Json::Obj(o)
}

#[verifier::rlimit(100)]
pub fn decode_template_links(j: &Json) -> (r: Option<TemplateLinks>)
    ensures
        match r {
            Some(x) => template_links_from_json(j@) == Some(x@),
            None => template_links_from_json(j@) is None,
        },
{
    match j {
        Json::Obj(o) => {
        let f_template = match get_string(o, "template") { Some(v) => v, None => { return None } };
            Some(TemplateLinks {
                template: f_template,
            })
        },
        _ => None,
    }
}

/// Writing a record and reading it back gives the record: every wire
/// field name maps back to the field it came from.
#[verifier::rlimit(100)]
pub proof fn lemma_template_links_roundtrip(x: TemplateLinksV)
    ensures
        template_links_from_json(template_links_to_json(x)) == Some(x),
{
    reveal_strlit("template");
    reveal_with_fuel(lookup, 3);
    assert("template"@.len() == 8);
    let o = seq![("template"@, JsonV::Str(x.template))];
    assert(lookup(o, "template"@) == Some(JsonV::Str(x.template)));
}

/// One listed guild template.
#[derive(Debug, Clone, PartialEq)]
pub struct Template {
    pub id: String,
    pub name: String,
    pub region: String,
    pub locale: String,
    pub afk_timeout: u64,
    pub verification_level: u64,
    pub default_message_notifications: u64,
    pub explicit_content: u64,
    pub roles: Vec<TemplateRole>,
    pub channels: Vec<TemplateChannel>,
    pub usage_count: u64,
    pub short_desc: String,
    pub long_desc: String,
    pub tags: Vec<String>,
    pub from_guild: String,
    pub owner: Owner,
    pub icon: Icon,
    pub links: TemplateLinks,
}

pub struct TemplateV {
    pub id: Seq<char>,
    pub name: Seq<char>,
    pub region: Seq<char>,
    pub locale: Seq<char>,
    pub afk_timeout: u64,
    pub verification_level: u64,
    pub default_message_notifications: u64,
    pub explicit_content: u64,
    pub roles: Seq<TemplateRoleV>,
    pub channels: Seq<TemplateChannelV>,
    pub usage_count: u64,
    pub short_desc: Seq<char>,
    pub long_desc: Seq<char>,
    pub tags: Seq<Seq<char>>,
    pub from_guild: Seq<char>,
    pub owner: OwnerV,
    pub icon: IconV,
    pub links: TemplateLinksV,
}

impl View for Template {
    type V = TemplateV;

    open spec fn view(&self) -> TemplateV {
        TemplateV {
            id: self.id@,
            name: self.name@,
            region: self.region@,
            locale: self.locale@,
            afk_timeout: self.afk_timeout,
            verification_level: self.verification_level,
            default_message_notifications: self.default_message_notifications,
            explicit_content: self.explicit_content,
            roles: self.roles@.map_values(|x: TemplateRole| x@),
            channels: self.channels@.map_values(|x: TemplateChannel| x@),
            usage_count: self.usage_count,
            short_desc: self.short_desc@,
            long_desc: self.long_desc@,
            tags: self.tags@.map_values(|s: String| s@),
            from_guild: self.from_guild@,
            owner: self.owner@,
            icon: self.icon@,
            links: self.links@,
        }
    }
}

/// How a record of this schema is written as a JSON object.
pub open spec fn template_to_json(x: TemplateV) -> JsonV {
    JsonV::Obj(seq![("id"@, JsonV::Str(x.id)), ("name"@, JsonV::Str(x.name)), ("region"@, JsonV::Str(x.region)), ("locale"@, JsonV::Str(x.locale)), ("afkTimeout"@, JsonV::Num(x.afk_timeout)), ("verificationLevel"@, JsonV::Num(x.verification_level)), ("defaultMessageNotifications"@, JsonV::Num(x.default_message_notifications)), ("explicitContent"@, JsonV::Num(x.explicit_content)), ("roles"@, JsonV::Arr(template_role_seq_to_json(x.roles))), ("channels"@, JsonV::Arr(template_channel_seq_to_json(x.channels))), ("usageCount"@, JsonV::Num(x.usage_count)), ("shortDesc"@, JsonV::Str(x.short_desc)), ("longDesc"@, JsonV::Str(x.long_desc)), ("tags"@, JsonV::Arr(strs_to_json(x.tags))), ("fromGuild"@, JsonV::Str(x.from_guild)), ("owner"@, owner_to_json(x.owner)), ("icon"@, icon_to_json(x.icon)), ("links"@, template_links_to_json(x.links))])
}

/// How a JSON value reads as a record of this schema, if it does.
pub open spec fn template_from_json(j: JsonV) -> Option<TemplateV> {
    match j {
        JsonV::Obj(o) => {
            let f_id = lookup_str(o, "id"@);
            let f_name = lookup_str(o, "name"@);
            let f_region = lookup_str(o, "region"@);
            let f_locale = lookup_str(o, "locale"@);
            let f_afk_timeout = lookup_u64(o, "afkTimeout"@);
            let f_verification_level = lookup_u64(o, "verificationLevel"@);
            let f_default_message_notifications = lookup_u64(o, "defaultMessageNotifications"@);
            let f_explicit_content = lookup_u64(o, "explicitContent"@);
            let f_roles = (match lookup_arr(o, "roles"@) { Some(a) => template_role_seq_from_json(a), None => None });
            let f_channels = (match lookup_arr(o, "channels"@) { Some(a) => template_channel_seq_from_json(a), None => None });
            let f_usage_count = lookup_u64(o, "usageCount"@);
            let f_short_desc = lookup_str(o, "shortDesc"@);
            let f_long_desc = lookup_str(o, "longDesc"@);
            let f_tags = (match lookup_arr(o, "tags"@) { Some(a) => str_elems(a), None => None });
            let f_from_guild = lookup_str(o, "fromGuild"@);
            let f_owner = (match lookup(o, "owner"@) { Some(v) => owner_from_json(v), None => None });
            let f_icon = (match lookup(o, "icon"@) { Some(v) => icon_from_json(v), None => None });
            let f_links = (match lookup(o, "links"@) { Some(v) => template_links_from_json(v), None => None });
            if f_id is Some && f_name is Some && f_region is Some && f_locale is Some && f_afk_timeout is Some && f_verification_level is Some && f_default_message_notifications is Some && f_explicit_content is Some && f_roles is Some && f_channels is Some && f_usage_count is Some && f_short_desc is Some && f_long_desc is Some && f_tags is Some && f_from_guild is Some && f_owner is Some && f_icon is Some && f_links is Some {
                Some(TemplateV {
                    id: f_id.unwrap(),
                    name: f_name.unwrap(),
                    region: f_region.unwrap(),
                    locale: f_locale.unwrap(),
                    afk_timeout: f_afk_timeout.unwrap(),
                    verification_level: f_verification_level.unwrap(),
                    default_message_notifications: f_default_message_notifications.unwrap(),
                    explicit_content: f_explicit_content.unwrap(),
                    roles: f_roles.unwrap(),
                    channels: f_channels.unwrap(),
                    usage_count: f_usage_count.unwrap(),
                    short_desc: f_short_desc.unwrap(),
                    long_desc: f_long_desc.unwrap(),
                    tags: f_tags.unwrap(),
                    from_guild: f_from_guild.unwrap(),
                    owner: f_owner.unwrap(),
                    icon: f_icon.unwrap(),
                    links: f_links.unwrap(),
                })
            } else {
                None
            }
        },
        _ => None,
    }
}

#[verifier::rlimit(100)]
pub fn encode_template(x: &Template) -> (r: Json)
    ensures
        r@ == template_to_json(x@),
{
    let mut o: Vec<(String, Json)> = Vec::new();
    o.push((String::from_str("id"), Json::Str(x.id.clone())));
    o.push((String::from_str("name"), Json::Str(x.name.clone())));
    o.push((String::from_str("region"), Json::Str(x.region.clone())));
    o.push((String::from_str("locale"), Json::Str(x.locale.clone())));
    o.push((String::from_str("afkTimeout"), Json::Num(x.afk_timeout)));
    o.push((String::from_str("verificationLevel"), Json::Num(x.verification_level)));
    o.push((String::from_str("defaultMessageNotifications"), Json::Num(x.default_message_notifications)));
    o.push((String::from_str("explicitContent"), Json::Num(x.explicit_content)));
    o.push((String::from_str("roles"), Json::Arr(encode_template_role_seq(&x.roles))));
    o.push((String::from_str("channels"), Json::Arr(encode_template_channel_seq(&x.channels))));
    o.push((String::from_str("usageCount"), Json::Num(x.usage_count)));
    o.push((String::from_str("shortDesc"), Json::Str(x.short_desc.clone())));
    o.push((String::from_str("longDesc"), Json::Str(x.long_desc.clone())));
    o.push((String::from_str("tags"), Json::Arr(encode_strs(&x.tags))));
    o.push((String::from_str("fromGuild"), Json::Str(x.from_guild.clone())));
    o.push((String::from_str("owner"), encode_owner(&x.owner)));
    o.push((String::from_str("icon"), encode_icon(&x.icon)));
    o.push((String::from_str("links"), encode_template_links(&x.links)));
    proof {
        lemma_jview_obj_len(o@);
        assert(jview_obj(o@)[0] == ("id"@, JsonV::Str(x@.id)));
        assert(jview_obj(o@)[1] == ("name"@, JsonV::Str(x@.name)));
        assert(jview_obj(o@)[2] == ("region"@, JsonV::Str(x@.region)));
        assert(jview_obj(o@)[3] == ("locale"@, JsonV::Str(x@.locale)));
        assert(jview_obj(o@)[4] == ("afkTimeout"@, JsonV::Num(x@.afk_timeout)));
        assert(jview_obj(o@)[5] == ("verificationLevel"@, JsonV::Num(x@.verification_level)));
        assert(jview_obj(o@)[6] == ("defaultMessageNotifications"@, JsonV::Num(x@.default_message_notifications)));
        assert(jview_obj(o@)[7] == ("explicitContent"@, JsonV::Num(x@.explicit_content)));
        assert(jview_obj(o@)[8] == ("roles"@, JsonV::Arr(template_role_seq_to_json(x@.roles))));
        assert(jview_obj(o@)[9] == ("channels"@, JsonV::Arr(template_channel_seq_to_json(x@.channels))));
        assert(jview_obj(o@)[10] == ("usageCount"@, JsonV::Num(x@.usage_count)));
        assert(jview_obj(o@)[11] == ("shortDesc"@, JsonV::Str(x@.short_desc)));
        assert(jview_obj(o@)[12] == ("longDesc"@, JsonV::Str(x@.long_desc)));
        assert(jview_obj(o@)[13] == ("tags"@, JsonV::Arr(strs_to_json(x@.tags))));
        assert(jview_obj(o@)[14] == ("fromGuild"@, JsonV::Str(x@.from_guild)));
        assert(jview_obj(o@)[15] == ("owner"@, owner_to_json(x@.owner)));
        assert(jview_obj(o@)[16] == ("icon"@, icon_to_json(x@.icon)));
        assert(jview_obj(o@)[17] == ("links"@, template_links_to_json(x@.links)));
        assert(jview_obj(o@) =~= seq![("id"@, JsonV::Str(x@.id)), ("name"@, JsonV::Str(x@.name)), ("region"@, JsonV::Str(x@.region)), ("locale"@, JsonV::Str(x@.locale)), ("afkTimeout"@, JsonV::Num(x@.afk_timeout)), ("verificationLevel"@, JsonV::Num(x@.verification_level)), ("defaultMessageNotifications"@, JsonV::Num(x@.default_message_notifications)), ("explicitContent"@, JsonV::Num(x@.explicit_content)), ("roles"@, JsonV::Arr(template_role_seq_to_json(x@.roles))), ("channels"@, JsonV::Arr(template_channel_seq_to_json(x@.channels))), ("usageCount"@, JsonV::Num(x@.usage_count)), ("shortDesc"@, JsonV::Str(x@.short_desc)), ("longDesc"@, JsonV::Str(x@.long_desc)), ("tags"@, JsonV::Arr(strs_to_json(x@.tags))), ("fromGuild"@, JsonV::Str(x@.from_guild)), ("owner"@, owner_to_json(x@.owner)), ("icon"@, icon_to_json(x@.icon)), ("links"@, template_links_to_json(x@.links))]);
    }
    Json::Obj(o)
}

#[verifier::rlimit(100)]
pub fn decode_template(j: &Json) -> (r: Option<Template>)
    ensures
        match r {
            Some(x) => template_from_json(j@) == Some(x@),
            None => template_from_json(j@) is None,
        },
{
    match j {
        Json::Obj(o) => {
        let f_id = match get_string(o, "id") { Some(v) => v, None => { return None } };
        let f_name = match get_string(o, "name") { Some(v) => v, None => { return None } };
        let f_region = match get_string(o, "region") { Some(v) => v, None => { return None } };
        let f_locale = match get_string(o, "locale") { Some(v) => v, None => { return None } };
        let f_afk_timeout = match get_u64(o, "afkTimeout") { Some(v) => v, None => { return None } };
        let f_verification_level = match get_u64(o, "verificationLevel") { Some(v) => v, None => { return None } };
        let f_default_message_notifications = match get_u64(o, "defaultMessageNotifications") { Some(v) => v, None => { return None } };
        let f_explicit_content = match get_u64(o, "explicitContent") { Some(v) => v, None => { return None } };
        let f_roles = match obj_get(o, "roles") { Some(Json::Arr(a)) => match decode_template_role_seq(a) { Some(v) => v, None => { return None } }, _ => { return None } };
        let f_channels = match obj_get(o, "channels") { Some(Json::Arr(a)) => match decode_template_channel_seq(a) { Some(v) => v, None => { return None } }, _ => { return None } };
        let f_usage_count = match get_u64(o, "usageCount") { Some(v) => v, None => { return None } };
        let f_short_desc = match get_string(o, "shortDesc") { Some(v) => v, None => { return None } };
        let f_long_desc = match get_string(o, "longDesc") { Some(v) => v, None => { return None } };
        let f_tags = match get_str_arr(o, "tags") { Some(v) => v, None => { return None } };
        let f_from_guild = match get_string(o, "fromGuild") { Some(v) => v, None => { return None } };
        let f_owner = match obj_get(o, "owner") { Some(vj) => match decode_owner(vj) { Some(v) => v, None => { return None } }, None => { return None } };
        let f_icon = match obj_get(o, "icon") { Some(vj) => match decode_icon(vj) { Some(v) => v, None => { return None } }, None => { return None } };
        let f_links = match obj_get(o, "links") { Some(vj) => match decode_template_links(vj) { Some(v) => v, None => { return None } }, None => { return None } };
            Some(Template {
                id: f_id,
                name: f_name,
                region: f_region,
                locale: f_locale,
                afk_timeout: f_afk_timeout,
                verification_level: f_verification_level,
                default_message_notifications: f_default_message_notifications,
                explicit_content: f_explicit_content,
                roles: f_roles,
                channels: f_channels,
                usage_count: f_usage_count,
                short_desc: f_short_desc,
                long_desc: f_long_desc,
                tags: f_tags,
                from_guild: f_from_guild,
                owner: f_owner,
                icon: f_icon,
                links: f_links,
            })
        },
        _ => None,
    }
}

/// Writing a record and reading it back gives the record: every wire
/// field name maps back to the field it came from.
#[verifier::rlimit(100)]
pub proof fn lemma_template_roundtrip(x: TemplateV)
    ensures
        template_from_json(template_to_json(x)) == Some(x),
{
    reveal_strlit("afkTimeout");
    reveal_strlit("channels");
    reveal_strlit("defaultMessageNotifications");
    reveal_strlit("explicitContent");
    reveal_strlit("fromGuild");
    reveal_strlit("icon");
    reveal_strlit("id");
    reveal_strlit("links");
    reveal_strlit("locale");
    reveal_strlit("longDesc");
    reveal_strlit("name");
    reveal_strlit("owner");
    reveal_strlit("region");
    reveal_strlit("roles");
    reveal_strlit("shortDesc");
    reveal_strlit("tags");
    reveal_strlit("usageCount");
    reveal_strlit("verificationLevel");
    reveal_with_fuel(lookup, 20);
    assert("afkTimeout"@.len() == 10);
    assert("channels"@.len() == 8);
    assert("defaultMessageNotifications"@.len() == 27);
    assert("explicitContent"@.len() == 15);
    assert("fromGuild"@.len() == 9);
    assert("icon"@.len() == 4);
    assert("id"@.len() == 2);
    assert("links"@.len() == 5);
    assert("locale"@.len() == 6);
    assert("longDesc"@.len() == 8);
    assert("name"@.len() == 4);
    assert("owner"@.len() == 5);
    assert("region"@.len() == 6);
    assert("roles"@.len() == 5);
    assert("shortDesc"@.len() == 9);
    assert("tags"@.len() == 4);
    assert("usageCount"@.len() == 10);
    assert("verificationLevel"@.len() == 17);
    assert("afkTimeout"@[0] == 'a');
    assert("usageCount"@[0] == 'u');
    assert("channels"@[0] == 'c');
    assert("longDesc"@[0] == 'l');
    assert("fromGuild"@[0] == 'f');
    assert("shortDesc"@[0] == 's');
    assert("icon"@[0] == 'i');
    assert("name"@[0] == 'n');
    assert("icon"@[0] == 'i');
    assert("tags"@[0] == 't');
    assert("links"@[0] == 'l');
    assert("owner"@[0] == 'o');
    assert("links"@[0] == 'l');
    assert("roles"@[0] == 'r');
    assert("locale"@[0] == 'l');
    assert("region"@[0] == 'r');
    assert("name"@[0] == 'n');
    assert("tags"@[0] == 't');
    assert("owner"@[0] == 'o');
    assert("roles"@[0] == 'r');
    lemma_template_role_seq_roundtrip(x.roles);
    lemma_template_channel_seq_roundtrip(x.channels);
    lemma_strs_roundtrip(x.tags);
    lemma_owner_roundtrip(x.owner);
    lemma_icon_roundtrip(x.icon);
    lemma_template_links_roundtrip(x.links);
    let o = seq![("id"@, JsonV::Str(x.id)), ("name"@, JsonV::Str(x.name)), ("region"@, JsonV::Str(x.region)), ("locale"@, JsonV::Str(x.locale)), ("afkTimeout"@, JsonV::Num(x.afk_timeout)), ("verificationLevel"@, JsonV::Num(x.verification_level)), ("defaultMessageNotifications"@, JsonV::Num(x.default_message_notifications)), ("explicitContent"@, JsonV::Num(x.explicit_content)), ("roles"@, JsonV::Arr(template_role_seq_to_json(x.roles))), ("channels"@, JsonV::Arr(template_channel_seq_to_json(x.channels))), ("usageCount"@, JsonV::Num(x.usage_count)), ("shortDesc"@, JsonV::Str(x.short_desc)), ("longDesc"@, JsonV::Str(x.long_desc)), ("tags"@, JsonV::Arr(strs_to_json(x.tags))), ("fromGuild"@, JsonV::Str(x.from_guild)), ("owner"@, owner_to_json(x.owner)), ("icon"@, icon_to_json(x.icon)), ("links"@, template_links_to_json(x.links))];
    assert(lookup(o, "id"@) == Some(JsonV::Str(x.id)));
    assert(lookup(o, "name"@) == Some(JsonV::Str(x.name)));
    assert(lookup(o, "region"@) == Some(JsonV::Str(x.region)));
    assert(lookup(o, "locale"@) == Some(JsonV::Str(x.locale)));
    assert(lookup(o, "afkTimeout"@) == Some(JsonV::Num(x.afk_timeout)));
    assert(lookup(o, "verificationLevel"@) == Some(JsonV::Num(x.verification_level)));
    assert(lookup(o, "defaultMessageNotifications"@) == Some(JsonV::Num(x.default_message_notifications)));
    assert(lookup(o, "explicitContent"@) == Some(JsonV::Num(x.explicit_content)));
    assert(lookup(o, "roles"@) == Some(JsonV::Arr(template_role_seq_to_json(x.roles))));
    assert(lookup(o, "channels"@) == Some(JsonV::Arr(template_channel_seq_to_json(x.channels))));
    assert(lookup(o, "usageCount"@) == Some(JsonV::Num(x.usage_count)));
    assert(lookup(o, "shortDesc"@) == Some(JsonV::Str(x.short_desc)));
    assert(lookup(o, "longDesc"@) == Some(JsonV::Str(x.long_desc)));
    assert(lookup(o, "tags"@) == Some(JsonV::Arr(strs_to_json(x.tags))));
    assert(lookup(o, "fromGuild"@) == Some(JsonV::Str(x.from_guild)));
    assert(lookup(o, "owner"@) == Some(owner_to_json(x.owner)));
    assert(lookup(o, "icon"@) == Some(icon_to_json(x.icon)));
    assert(lookup(o, "links"@) == Some(template_links_to_json(x.links)));
}

/// The outward links of a user's profile.
#[derive(Debug, Clone, PartialEq)]
pub struct UserLinks {
    pub website: String,
    pub github: String,
    pub gitlab: String,
    pub twitter: String,
    pub instagram: String,
    pub snapchat: String,
}

pub struct UserLinksV {
    pub website: Seq<char>,
    pub github: Seq<char>,
    pub gitlab: Seq<char>,
    pub twitter: Seq<char>,
    pub instagram: Seq<char>,
    pub snapchat: Seq<char>,
}

impl View for UserLinks {
    type V = UserLinksV;

    open spec fn view(&self) -> UserLinksV {
        UserLinksV {
            website: self.website@,
            github: self.github@,
            gitlab: self.gitlab@,
            twitter: self.twitter@,
            instagram: self.instagram@,
            snapchat: self.snapchat@,
        }
    }
}

/// How a record of this schema is written as a JSON object.
pub open spec fn user_links_to_json(x: UserLinksV) -> JsonV {
    JsonV::Obj(seq![("website"@, JsonV::Str(x.website)), ("github"@, JsonV::Str(x.github)), ("gitlab"@, JsonV::Str(x.gitlab)), ("twitter"@, JsonV::Str(x.twitter)), ("instagram"@, JsonV::Str(x.instagram)), ("snapchat"@, JsonV::Str(x.snapchat))])
}

/// How a JSON value reads as a record of this schema, if it does.
pub open spec fn user_links_from_json(j: JsonV) -> Option<UserLinksV> {
    match j {
        JsonV::Obj(o) => {
            let f_website = lookup_str(o, "website"@);
            let f_github = lookup_str(o, "github"@);
            let f_gitlab = lookup_str(o, "gitlab"@);
            let f_twitter = lookup_str(o, "twitter"@);
            let f_instagram = lookup_str(o, "instagram"@);
            let f_snapchat = lookup_str(o, "snapchat"@);
            if f_website is Some && f_github is Some && f_gitlab is Some && f_twitter is Some && f_instagram is Some && f_snapchat is Some {
                Some(UserLinksV {
                    website: f_website.unwrap(),
                    github: f_github.unwrap(),
                    gitlab: f_gitlab.unwrap(),
                    twitter: f_twitter.unwrap(),
                    instagram: f_instagram.unwrap(),
                    snapchat: f_snapchat.unwrap(),
                })
            } else {
                None
            }
        },
        _ => None,
    }
}

#[verifier::rlimit(100)]
pub fn encode_user_links(x: &UserLinks) -> (r: Json)
    ensures
        r@ == user_links_to_json(x@),
{
    let mut o: Vec<(String, Json)> = Vec::new();
    o.push((String::from_str("website"), Json::Str(x.website.clone())));
    o.push((String::from_str("github"), Json::Str(x.github.clone())));
    o.push((String::from_str("gitlab"), Json::Str(x.gitlab.clone())));
    o.push((String::from_str("twitter"), Json::Str(x.twitter.clone())));
    o.push((String::from_str("instagram"), Json::Str(x.instagram.clone())));
    o.push((String::from_str("snapchat"), Json::Str(x.snapchat.clone())));
    proof {
        lemma_jview_obj_len(o@);
        assert(jview_obj(o@)[0] == ("website"@, JsonV::Str(x@.website)));
        assert(jview_obj(o@)[1] == ("github"@, JsonV::Str(x@.github)));
        assert(jview_obj(o@)[2] == ("gitlab"@, JsonV::Str(x@.gitlab)));
        assert(jview_obj(o@)[3] == ("twitter"@, JsonV::Str(x@.twitter)));
        assert(jview_obj(o@)[4] == ("instagram"@, JsonV::Str(x@.instagram)));
        assert(jview_obj(o@)[5] == ("snapchat"@, JsonV::Str(x@.snapchat)));
        assert(jview_obj(o@) =~= seq![("website"@, JsonV::Str(x@.website)), ("github"@, JsonV::Str(x@.github)), ("gitlab"@, JsonV::Str(x@.gitlab)), ("twitter"@, JsonV::Str(x@.twitter)), ("instagram"@, JsonV::Str(x@.instagram)), ("snapchat"@, JsonV::Str(x@.snapchat))]);
    }
    Json::Obj(o)
}

#[verifier::rlimit(100)]
pub fn decode_user_links(j: &Json) -> (r: Option<UserLinks>)
    ensures
        match r {
            Some(x) => user_links_from_json(j@) == Some(x@),
            None => user_links_from_json(j@) is None,
        },
{
    match j {
        Json::Obj(o) => {
        let f_website = match get_string(o, "website") { Some(v) => v, None => { return None } };
        let f_github = match get_string(o, "github") { Some(v) => v, None => { return None } };
        let f_gitlab = match get_string(o, "gitlab") { Some(v) => v, None => { return None } };
        let f_twitter = match get_string(o, "twitter") { Some(v) => v, None => { return None } };
        let f_instagram = match get_string(o, "instagram") { Some(v) => v, None => { return None } };
        let f_snapchat = match get_string(o, "snapchat") { Some(v) => v, None => { return None } };
            Some(UserLinks {
                website: f_website,
                github: f_github,
                gitlab: f_gitlab,
                twitter: f_twitter,
                instagram: f_instagram,
                snapchat: f_snapchat,
            })
        },
        _ => None,
    }
}

/// Writing a record and reading it back gives the record: every wire
/// field name maps back to the field it came from.
#[verifier::rlimit(100)]
pub proof fn lemma_user_links_roundtrip(x: UserLinksV)
    ensures
        user_links_from_json(user_links_to_json(x)) == Some(x),
{
    reveal_strlit("github");
    reveal_strlit("gitlab");
    reveal_strlit("instagram");
    reveal_strlit("snapchat");
    reveal_strlit("twitter");
    reveal_strlit("website");
    reveal_with_fuel(lookup, 8);
    assert("github"@.len() == 6);
    assert("gitlab"@.len() == 6);
    assert("instagram"@.len() == 9);
    assert("snapchat"@.len() == 8);
    assert("twitter"@.len() == 7);
    assert("website"@.len() == 7);
    assert("github"@[3] == 'h');
    assert("gitlab"@[3] == 'l');
    assert("twitter"@[0] == 't');
    assert("website"@[0] == 'w');
    let o = seq![("website"@, JsonV::Str(x.website)), ("github"@, JsonV::Str(x.github)), ("gitlab"@, JsonV::Str(x.gitlab)), ("twitter"@, JsonV::Str(x.twitter)), ("instagram"@, JsonV::Str(x.instagram)), ("snapchat"@, JsonV::Str(x.snapchat))];
    assert(lookup(o, "website"@) == Some(JsonV::Str(x.website)));
    assert(lookup(o, "github"@) == Some(JsonV::Str(x.github)));
    assert(lookup(o, "gitlab"@) == Some(JsonV::Str(x.gitlab)));
    assert(lookup(o, "twitter"@) == Some(JsonV::Str(x.twitter)));
    assert(lookup(o, "instagram"@) == Some(JsonV::Str(x.instagram)));
    assert(lookup(o, "snapchat"@) == Some(JsonV::Str(x.snapchat)));
}

/// A user's profile text and links.
#[derive(Debug, Clone, PartialEq)]
pub struct Profile {
    pub bio: String,
    pub links: UserLinks,
}

pub struct ProfileV {
    pub bio: Seq<char>,
    pub links: UserLinksV,
}

impl View for Profile {
    type V = ProfileV;

    open spec fn view(&self) -> ProfileV {
        ProfileV {
            bio: self.bio@,
            links: self.links@,
        }
    }
}

/// How a record of this schema is written as a JSON object.
pub open spec fn profile_to_json(x: ProfileV) -> JsonV {
    JsonV::Obj(seq![("bio"@, JsonV::Str(x.bio)), ("links"@, user_links_to_json(x.links))])
}

/// How a JSON value reads as a record of this schema, if it does.
pub open spec fn profile_from_json(j: JsonV) -> Option<ProfileV> {
    match j {
        JsonV::Obj(o) => {
            let f_bio = lookup_str(o, "bio"@);
            let f_links = (match lookup(o, "links"@) { Some(v) => user_links_from_json(v), None => None });
            if f_bio is Some && f_links is Some {
                Some(ProfileV {
                    bio: f_bio.unwrap(),
                    links: f_links.unwrap(),
                })
            } else {
                None
            }
        },
        _ => None,
    }
}

#[verifier::rlimit(100)]
pub fn encode_profile(x: &Profile) -> (r: Json)
    ensures
        r@ == profile_to_json(x@),
{
    let mut o: Vec<(String, Json)> = Vec::new();
    o.push((String::from_str("bio"), Json::Str(x.bio.clone())));
    o.push((String::from_str("links"), encode_user_links(&x.links)));
    proof {
        lemma_jview_obj_len(o@);
        assert(jview_obj(o@)[0] == ("bio"@, JsonV::Str(x@.bio)));
        assert(jview_obj(o@)[1] == ("links"@, user_links_to_json(x@.links)));
        assert(jview_obj(o@) =~= seq![("bio"@, JsonV::Str(x@.bio)), ("links"@, user_links_to_json(x@.links))]);
    }
    Json::Obj(o)
}

#[verifier::rlimit(100)]
pub fn decode_profile(j: &Json) -> (r: Option<Profile>)
    ensures
        match r {
            Some(x) => profile_from_json(j@) == Some(x@),
            None => profile_from_json(j@) is None,
        },
{
    match j {
        Json::Obj(o) => {
        let f_bio = match get_string(o, "bio") { Some(v) => v, None => { return None } };
        let f_links = match obj_get(o, "links") { Some(vj) => match decode_user_links(vj) { Some(v) => v, None => { return None } }, None => { return None } };
            Some(Profile {
                bio: f_bio,
                links: f_links,
            })
        },
        _ => None,
    }
}

/// Writing a record and reading it back gives the record: every wire
/// field name maps back to the field it came from.
#[verifier::rlimit(100)]
pub proof fn lemma_profile_roundtrip(x: ProfileV)
    ensures
        profile_from_json(profile_to_json(x)) == Some(x),
{
    reveal_strlit("bio");
    reveal_strlit("links");
    reveal_with_fuel(lookup, 4);
    assert("bio"@.len() == 3);
    assert("links"@.len() == 5);
    lemma_user_links_roundtrip(x.links);
    let o = seq![("bio"@, JsonV::Str(x.bio)), ("links"@, user_links_to_json(x.links))];
    assert(lookup(o, "bio"@) == Some(JsonV::Str(x.bio)));
    assert(lookup(o, "links"@) == Some(user_links_to_json(x.links)));
}

/// A user's best score in the site's snake game.
#[derive(Debug, Clone, PartialEq)]
pub struct Snakes {
    pub max_score: u64,
}

pub struct SnakesV {
    pub max_score: u64,
}

impl View for Snakes {
    type V = SnakesV;

    open spec fn view(&self) -> SnakesV {
        SnakesV {
            max_score: self.max_score,
        }
    }
}

/// How a record of this schema is written as a JSON object.
pub open spec fn snakes_to_json(x: SnakesV) -> JsonV {
    JsonV::Obj(seq![("maxScore"@, JsonV::Num(x.max_score))])
}

/// How a JSON value reads as a record of this schema, if it does.
pub open spec fn snakes_from_json(j: JsonV) -> Option<SnakesV> {
    match j {
        JsonV::Obj(o) => {
            let f_max_score = lookup_u64(o, "maxScore"@);
            if f_max_score is Some {
                Some(SnakesV {
                    max_score: f_max_score.unwrap(),
                })
            } else {
                None
            }
        },
        _ => None,
    }
}

#[verifier::rlimit(100)]
pub fn encode_snakes(x: &Snakes) -> (r: Json)
    ensures
        r@ == snakes_to_json(x@),
{
    let mut o: Vec<(String, Json)> = Vec::new();
    o.push((String::from_str("maxScore"), Json::Num(x.max_score)));
    proof {
        lemma_jview_obj_len(o@);
        assert(jview_obj(o@)[0] == ("maxScore"@, JsonV::Num(x@.max_score)));
        assert(jview_obj(o@) =~= seq![("maxScore"@, JsonV::Num(x@.max_score))]);
    }
    Json::Obj(o)
}

#[verifier::rlimit(100)]
pub fn decode_snakes(j: &Json) -> (r: Option<Snakes>)
    ensures
        match r {
            Some(x) => snakes_from_json(j@) == Some(x@),
            None => snakes_from_json(j@) is None,
        },
{
    match j {
        Json::Obj(o) => {
        let f_max_score = match get_u64(o, "maxScore") { Some(v) => v, None => { return None } };
            Some(Snakes {
                max_score: f_max_score,
            })
        },
        _ => None,
    }
}

/// Writing a record and reading it back gives the record: every wire
/// field name maps back to the field it came from.
#[verifier::rlimit(100)]
pub proof fn lemma_snakes_roundtrip(x: SnakesV)
    ensures
        snakes_from_json(snakes_to_json(x)) == Some(x),
{
    reveal_strlit("maxScore");
    reveal_with_fuel(lookup, 3);
    assert("maxScore"@.len() == 8);
    let o = seq![("maxScore"@, JsonV::Num(x.max_score))];
    assert(lookup(o, "maxScore"@) == Some(JsonV::Num(x.max_score)));
}

/// A user's game statistics.
#[derive(Debug, Clone, PartialEq)]
pub struct Game {
    pub snakes: Snakes,
}

pub struct GameV {
    pub snakes: SnakesV,
}

impl View for Game {
    type V = GameV;

    open spec fn view(&self) -> GameV {
        GameV {
            snakes: self.snakes@,
        }
    }
}

/// How a record of this schema is written as a JSON object.
pub open spec fn game_to_json(x: GameV) -> JsonV {
    JsonV::Obj(seq![("snakes"@, snakes_to_json(x.snakes))])
}

/// How a JSON value reads as a record of this schema, if it does.
pub open spec fn game_from_json(j: JsonV) -> Option<GameV> {
    match j {
        JsonV::Obj(o) => {
            let f_snakes = (match lookup(o, "snakes"@) { Some(v) => snakes_from_json(v), None => None });
            if f_snakes is Some {
                Some(GameV {
                    snakes: f_snakes.unwrap(),
                })
            } else {
                None
            }
        },
        _ => None,
    }
}

#[verifier::rlimit(100)]
pub fn encode_game(x: &Game) -> (r: Json)
    ensures
        r@ == game_to_json(x@),
{
    let mut o: Vec<(String, Json)> = Vec::new();
    o.push((String::from_str("snakes"), encode_snakes(&x.snakes)));
    proof {
        lemma_jview_obj_len(o@);
        assert(jview_obj(o@)[0] == ("snakes"@, snakes_to_json(x@.snakes)));
        assert(jview_obj(o@) =~= seq![("snakes"@, snakes_to_json(x@.snakes))]);
    }
    Json::Obj(o)
}

#[verifier::rlimit(100)]
pub fn decode_game(j: &Json) -> (r: Option<Game>)
    ensures
        match r {
            Some(x) => game_from_json(j@) == Some(x@),
            None => game_from_json(j@) is None,
        },
{
    match j {
        Json::Obj(o) => {
        let f_snakes = match obj_get(o, "snakes") { Some(vj) => match decode_snakes(vj) { Some(v) => v, None => { return None } }, None => { return None } };
            Some(Game {
                snakes: f_snakes,
            })
        },
        _ => None,
    }
}

/// Writing a record and reading it back gives the record: every wire
/// field name maps back to the field it came from.
#[verifier::rlimit(100)]
pub proof fn lemma_game_roundtrip(x: GameV)
    ensures
        game_from_json(game_to_json(x)) == Some(x),
{
    reveal_strlit("snakes");
    reveal_with_fuel(lookup, 3);
    assert("snakes"@.len() == 6);
    lemma_snakes_roundtrip(x.snakes);
    let o = seq![("snakes"@, snakes_to_json(x.snakes))];
    assert(lookup(o, "snakes"@) == Some(snakes_to_json(x.snakes)));
}

/// A user's staff and community ranks.
#[derive(Debug, Clone, PartialEq)]
pub struct Rank {
    pub admin: bool,
    pub assistant: bool,
    pub mod_: bool,
    pub tester: bool,
    pub translator: bool,
    pub covid: bool,
}

pub struct RankV {
    pub admin: bool,
    pub assistant: bool,
    pub mod_: bool,
    pub tester: bool,
    pub translator: bool,
    pub covid: bool,
}

impl View for Rank {
    type V = RankV;

    open spec fn view(&self) -> RankV {
        RankV {
            admin: self.admin,
            assistant: self.assistant,
            mod_: self.mod_,
            tester: self.tester,
            translator: self.translator,
            covid: self.covid,
        }
    }
}

/// How a record of this schema is written as a JSON object.
pub open spec fn rank_to_json(x: RankV) -> JsonV {
    JsonV::Obj(seq![("admin"@, JsonV::Bool(x.admin)), ("assistant"@, JsonV::Bool(x.assistant)), ("mod"@, JsonV::Bool(x.mod_)), ("tester"@, JsonV::Bool(x.tester)), ("translator"@, JsonV::Bool(x.translator)), ("covid"@, JsonV::Bool(x.covid))])
}

/// How a JSON value reads as a record of this schema, if it does.
pub open spec fn rank_from_json(j: JsonV) -> Option<RankV> {
    match j {
        JsonV::Obj(o) => {
            let f_admin = lookup_bool(o, "admin"@);
            let f_assistant = lookup_bool(o, "assistant"@);
            let f_mod_ = lookup_bool(o, "mod"@);
            let f_tester = lookup_bool(o, "tester"@);
            let f_translator = lookup_bool(o, "translator"@);
            let f_covid = lookup_bool(o, "covid"@);
            if f_admin is Some && f_assistant is Some && f_mod_ is Some && f_tester is Some && f_translator is Some && f_covid is Some {
                Some(RankV {
                    admin: f_admin.unwrap(),
                    assistant: f_assistant.unwrap(),
                    mod_: f_mod_.unwrap(),
                    tester: f_tester.unwrap(),
                    translator: f_translator.unwrap(),
                    covid: f_covid.unwrap(),
                })
            } else {
                None
            }
        },
        _ => None,
    }
}

#[verifier::rlimit(100)]
pub fn encode_rank(x: &Rank) -> (r: Json)
    ensures
        r@ == rank_to_json(x@),
{
    let mut o: Vec<(String, Json)> = Vec::new();
    o.push((String::from_str("admin"), Json::Bool(x.admin)));
    o.push((String::from_str("assistant"), Json::Bool(x.assistant)));
    o.push((String::from_str("mod"), Json::Bool(x.mod_)));
    o.push((String::from_str("tester"), Json::Bool(x.tester)));
    o.push((String::from_str("translator"), Json::Bool(x.translator)));
    o.push((String::from_str("covid"), Json::Bool(x.covid)));
    proof {
        lemma_jview_obj_len(o@);
        assert(jview_obj(o@)[0] == ("admin"@, JsonV::Bool(x@.admin)));
        assert(jview_obj(o@)[1] == ("assistant"@, JsonV::Bool(x@.assistant)));
        assert(jview_obj(o@)[2] == ("mod"@, JsonV::Bool(x@.mod_)));
        assert(jview_obj(o@)[3] == ("tester"@, JsonV::Bool(x@.tester)));
        assert(jview_obj(o@)[4] == ("translator"@, JsonV::Bool(x@.translator)));
        assert(jview_obj(o@)[5] == ("covid"@, JsonV::Bool(x@.covid)));
        assert(jview_obj(o@) =~= seq![("admin"@, JsonV::Bool(x@.admin)), ("assistant"@, JsonV::Bool(x@.assistant)), ("mod"@, JsonV::Bool(x@.mod_)), ("tester"@, JsonV::Bool(x@.tester)), ("translator"@, JsonV::Bool(x@.translator)), ("covid"@, JsonV::Bool(x@.covid))]);
    }
    Json::Obj(o)
}

#[verifier::rlimit(100)]
pub fn decode_rank(j: &Json) -> (r: Option<Rank>)
    ensures
        match r {
            Some(x) => rank_from_json(j@) == Some(x@),
            None => rank_from_json(j@) is None,
        },
{
    match j {
        Json::Obj(o) => {
        let f_admin = match get_bool(o, "admin") { Some(v) => v, None => { return None } };
        let f_assistant = match get_bool(o, "assistant") { Some(v) => v, None => { return None } };
        let f_mod_ = match get_bool(o, "mod") { Some(v) => v, None => { return None } };
        let f_tester = match get_bool(o, "tester") { Some(v) => v, None => { return None } };
        let f_translator = match get_bool(o, "translator") { Some(v) => v, None => { return None } };
        let f_covid = match get_bool(o, "covid") { Some(v) => v, None => { return None } };
            Some(Rank {
                admin: f_admin,
                assistant: f_assistant,
                mod_: f_mod_,
                tester: f_tester,
                translator: f_translator,
                covid: f_covid,
            })
        },
        _ => None,
    }
}

/// Writing a record and reading it back gives the record: every wire
/// field name maps back to the field it came from.
#[verifier::rlimit(100)]
pub proof fn lemma_rank_roundtrip(x: RankV)
    ensures
        rank_from_json(rank_to_json(x)) == Some(x),
{
    reveal_strlit("admin");
    reveal_strlit("assistant");
    reveal_strlit("covid");
    reveal_strlit("mod");
    reveal_strlit("tester");
    reveal_strlit("translator");
    reveal_with_fuel(lookup, 8);
    assert("admin"@.len() == 5);
    assert("assistant"@.len() == 9);
    assert("covid"@.len() == 5);
    assert("mod"@.len() == 3);
    assert("tester"@.len() == 6);
    assert("translator"@.len() == 10);
    assert("admin"@[0] == 'a');
    assert("covid"@[0] == 'c');
    let o = seq![("admin"@, JsonV::Bool(x.admin)), ("assistant"@, JsonV::Bool(x.assistant)), ("mod"@, JsonV::Bool(x.mod_)), ("tester"@, JsonV::Bool(x.tester)), ("translator"@, JsonV::Bool(x.translator)), ("covid"@, JsonV::Bool(x.covid))];
    assert(lookup(o, "admin"@) == Some(JsonV::Bool(x.admin)));
    assert(lookup(o, "assistant"@) == Some(JsonV::Bool(x.assistant)));
    assert(lookup(o, "mod"@) == Some(JsonV::Bool(x.mod_)));
    assert(lookup(o, "tester"@) == Some(JsonV::Bool(x.tester)));
    assert(lookup(o, "translator"@) == Some(JsonV::Bool(x.translator)));
    assert(lookup(o, "covid"@) == Some(JsonV::Bool(x.covid)));
}

/// One registered user.
#[derive(Debug, Clone, PartialEq)]
pub struct User {
    pub id: String,
    pub name: String,
    pub discrim: String,
    pub full_username: String,
    pub flags: u64,
    pub avatar: Avatar,
    pub profile: Profile,
    pub game: Game,
    pub rank: Rank,
}

pub struct UserV {
    pub id: Seq<char>,
    pub name: Seq<char>,
    pub discrim: Seq<char>,
    pub full_username: Seq<char>,
    pub flags: u64,
    pub avatar: AvatarV,
    pub profile: ProfileV,
    pub game: GameV,
    pub rank: RankV,
}

impl View for User {
    type V = UserV;

    open spec fn view(&self) -> UserV {
        UserV {
            id: self.id@,
            name: self.name@,
            discrim: self.discrim@,
            full_username: self.full_username@,
            flags: self.flags,
            avatar: self.avatar@,
            profile: self.profile@,
            game: self.game@,
            rank: self.rank@,
        }
    }
}

/// How a record of this schema is written as a JSON object.
pub open spec fn user_to_json(x: UserV) -> JsonV {
    JsonV::Obj(seq![("id"@, JsonV::Str(x.id)), ("name"@, JsonV::Str(x.name)), ("discrim"@, JsonV::Str(x.discrim)), ("fullUsername"@, JsonV::Str(x.full_username)), ("flags"@, JsonV::Num(x.flags)), ("avatar"@, avatar_to_json(x.avatar)), ("profile"@, profile_to_json(x.profile)), ("game"@, game_to_json(x.game)), ("rank"@, rank_to_json(x.rank))])
}

/// How a JSON value reads as a record of this schema, if it does.
pub open spec fn user_from_json(j: JsonV) -> Option<UserV> {
    match j {
        JsonV::Obj(o) => {
            let f_id = lookup_str(o, "id"@);
            let f_name = lookup_str(o, "name"@);
            let f_discrim = lookup_str(o, "discrim"@);
            let f_full_username = lookup_str(o, "fullUsername"@);
            let f_flags = lookup_u64(o, "flags"@);
            let f_avatar = (match lookup(o, "avatar"@) { Some(v) => avatar_from_json(v), None => None });
            let f_profile = (match lookup(o, "profile"@) { Some(v) => profile_from_json(v), None => None });
            let f_game = (match lookup(o, "game"@) { Some(v) => game_from_json(v), None => None });
            let f_rank = (match lookup(o, "rank"@) { Some(v) => rank_from_json(v), None => None });
            if f_id is Some && f_name is Some && f_discrim is Some && f_full_username is Some && f_flags is Some && f_avatar is Some && f_profile is Some && f_game is Some && f_rank is Some {
                Some(UserV {
                    id: f_id.unwrap(),
                    name: f_name.unwrap(),
                    discrim: f_discrim.unwrap(),
                    full_username: f_full_username.unwrap(),
                    flags: f_flags.unwrap(),
                    avatar: f_avatar.unwrap(),
                    profile: f_profile.unwrap(),
                    game: f_game.unwrap(),
                    rank: f_rank.unwrap(),
                })
            } else {
                None
            }
        },
        _ => None,
    }
}

#[verifier::rlimit(100)]
pub fn encode_user(x: &User) -> (r: Json)
    ensures
        r@ == user_to_json(x@),
{
    let mut o: Vec<(String, Json)> = Vec::new();
    o.push((String::from_str("id"), Json::Str(x.id.clone())));
    o.push((String::from_str("name"), Json::Str(x.name.clone())));
    o.push((String::from_str("discrim"), Json::Str(x.discrim.clone())));
    o.push((String::from_str("fullUsername"), Json::Str(x.full_username.clone())));
    o.push((String::from_str("flags"), Json::Num(x.flags)));
    o.push((String::from_str("avatar"), encode_avatar(&x.avatar)));
    o.push((String::from_str("profile"), encode_profile(&x.profile)));
    o.push((String::from_str("game"), encode_game(&x.game)));
    o.push((String::from_str("rank"), encode_rank(&x.rank)));
    proof {
        lemma_jview_obj_len(o@);
        assert(jview_obj(o@)[0] == ("id"@, JsonV::Str(x@.id)));
        assert(jview_obj(o@)[1] == ("name"@, JsonV::Str(x@.name)));
        assert(jview_obj(o@)[2] == ("discrim"@, JsonV::Str(x@.discrim)));
        assert(jview_obj(o@)[3] == ("fullUsername"@, JsonV::Str(x@.full_username)));
        assert(jview_obj(o@)[4] == ("flags"@, JsonV::Num(x@.flags)));
        assert(jview_obj(o@)[5] == ("avatar"@, avatar_to_json(x@.avatar)));
        assert(jview_obj(o@)[6] == ("profile"@, profile_to_json(x@.profile)));
        assert(jview_obj(o@)[7] == ("game"@, game_to_json(x@.game)));
        assert(jview_obj(o@)[8] == ("rank"@, rank_to_json(x@.rank)));
        assert(jview_obj(o@) =~= seq![("id"@, JsonV::Str(x@.id)), ("name"@, JsonV::Str(x@.name)), ("discrim"@, JsonV::Str(x@.discrim)), ("fullUsername"@, JsonV::Str(x@.full_username)), ("flags"@, JsonV::Num(x@.flags)), ("avatar"@, avatar_to_json(x@.avatar)), ("profile"@, profile_to_json(x@.profile)), ("game"@, game_to_json(x@.game)), ("rank"@, rank_to_json(x@.rank))]);
    }
    Json::Obj(o)
}

#[verifier::rlimit(100)]
pub fn decode_user(j: &Json) -> (r: Option<User>)
    ensures
        match r {
            Some(x) => user_from_json(j@) == Some(x@),
            None => user_from_json(j@) is None,
        },
{
    match j {
        Json::Obj(o) => {
        let f_id = match get_string(o, "id") { Some(v) => v, None => { return None } };
        let f_name = match get_string(o, "name") { Some(v) => v, None => { return None } };
        let f_discrim = match get_string(o, "discrim") { Some(v) => v, None => { return None } };
        let f_full_username = match get_string(o, "fullUsername") { Some(v) => v, None => { return None } };
        let f_flags = match get_u64(o, "flags") { Some(v) => v, None => { return None } };
        let f_avatar = match obj_get(o, "avatar") { Some(vj) => match decode_avatar(vj) { Some(v) => v, None => { return None } }, None => { return None } };
        let f_profile = match obj_get(o, "profile") { Some(vj) => match decode_profile(vj) { Some(v) => v, None => { return None } }, None => { return None } };
        let f_game = match obj_get(o, "game") { Some(vj) => match decode_game(vj) { Some(v) => v, None => { return None } }, None => { return None } };
        let f_rank = match obj_get(o, "rank") { Some(vj) => match decode_rank(vj) { Some(v) => v, None => { return None } }, None => { return None } };
            Some(User {
                id: f_id,
                name: f_name,
                discrim: f_discrim,
                full_username: f_full_username,
                flags: f_flags,
                avatar: f_avatar,
                profile: f_profile,
                game: f_game,
                rank: f_rank,
            })
        },
        _ => None,
    }
}

/// Writing a record and reading it back gives the record: every wire
/// field name maps back to the field it came from.
#[verifier::rlimit(100)]
pub proof fn lemma_user_roundtrip(x: UserV)
    ensures
        user_from_json(user_to_json(x)) == Some(x),
{
    reveal_strlit("avatar");
    reveal_strlit("discrim");
    reveal_strlit("flags");
    reveal_strlit("fullUsername");
    reveal_strlit("game");
    reveal_strlit("id");
    reveal_strlit("name");
    reveal_strlit("profile");
    reveal_strlit("rank");
    reveal_with_fuel(lookup, 11);
    assert("avatar"@.len() == 6);
    assert("discrim"@.len() == 7);
    assert("flags"@.len() == 5);
    assert("fullUsername"@.len() == 12);
    assert("game"@.len() == 4);
    assert("id"@.len() == 2);
    assert("name"@.len() == 4);
    assert("profile"@.len() == 7);
    assert("rank"@.len() == 4);
    assert("discrim"@[0] == 'd');
    assert("profile"@[0] == 'p');
    assert("game"@[0] == 'g');
    assert("name"@[0] == 'n');
    assert("game"@[0] == 'g');
    assert("rank"@[0] == 'r');
    assert("name"@[0] == 'n');
    assert("rank"@[0] == 'r');
    lemma_avatar_roundtrip(x.avatar);
    lemma_profile_roundtrip(x.profile);
    lemma_game_roundtrip(x.game);
    lemma_rank_roundtrip(x.rank);
    let o = seq![("id"@, JsonV::Str(x.id)), ("name"@, JsonV::Str(x.name)), ("discrim"@, JsonV::Str(x.discrim)), ("fullUsername"@, JsonV::Str(x.full_username)), ("flags"@, JsonV::Num(x.flags)), ("avatar"@, avatar_to_json(x.avatar)), ("profile"@, profile_to_json(x.profile)), ("game"@, game_to_json(x.game)), ("rank"@, rank_to_json(x.rank))];
    assert(lookup(o, "id"@) == Some(JsonV::Str(x.id)));
    assert(lookup(o, "name"@) == Some(JsonV::Str(x.name)));
    assert(lookup(o, "discrim"@) == Some(JsonV::Str(x.discrim)));
    assert(lookup(o, "fullUsername"@) == Some(JsonV::Str(x.full_username)));
    assert(lookup(o, "flags"@) == Some(JsonV::Num(x.flags)));
    assert(lookup(o, "avatar"@) == Some(avatar_to_json(x.avatar)));
    assert(lookup(o, "profile"@) == Some(profile_to_json(x.profile)));
    assert(lookup(o, "game"@) == Some(game_to_json(x.game)));
    assert(lookup(o, "rank"@) == Some(rank_to_json(x.rank)));
}

} // verus!
