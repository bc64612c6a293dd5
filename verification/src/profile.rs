//! The profile calls and what they return.

use crate::http::{request_result_is, Reply, Request};
use crate::json::{member, object, Json, JsonValue, Member};
use crate::text::{join, str_eq};
use crate::{call_spec, data_of_reply, data_of_reply_spec, Error, Tarkov};
use std::collections::HashMap;
use vstd::prelude::*;

verus! {

/// An error of the profile calls.
#[derive(Debug, Clone, Copy, PartialEq, Eq, Structural)]
pub enum ProfileError {
    /// The selected user does not exist.
    InvalidUserID,
    /// The profile could not be selected.
    SelectProfileFail,
}

/// Faction, team or side.
#[derive(Debug, Clone, PartialEq)]
pub enum Side {
    /// BEAR faction
    Bear,
    /// USEC faction
    Usec,
    /// SCAV
    Savage,
}

/// Profile settings
#[derive(Debug, Clone, PartialEq)]
pub struct Settings {
    /// ?
    pub role: Option<String>,
    /// ?
    pub bot_difficulty: Option<String>,
    /// ?
    pub experience: Option<i64>,
}

/// Player customization
#[derive(Debug, Clone, PartialEq)]
pub struct Customization {
    /// Head customization
    pub head: String,
    /// Body customization
    pub body: String,
    /// Feet customization
    pub feet: String,
    /// Hands customization
    pub hands: String,
}

/// Master skill
#[derive(Debug, Clone, PartialEq)]
pub struct MasteringSkill {
    /// Skill ID
    pub id: String,
    /// Skill progress
    pub progress: u64,
}

/// Session stats counter
#[derive(Debug, Clone, PartialEq)]
pub struct SessionCounters {
    /// Statistics
    pub items: Vec<SessionItem>,
}

/// Overall stats counter
#[derive(Debug, Clone, PartialEq)]
pub struct OverallCounters {
    /// Statistics
    pub items: Vec<SessionItem>,
}

/// Statistics
#[derive(Debug, Clone, PartialEq)]
pub struct SessionItem {
    /// Statistic key
    pub key: Vec<String>,
    /// Statistic value
    pub value: u64,
}

/// Aggressor
#[derive(Debug, Clone, PartialEq)]
pub struct Aggressor {
    /// Aggressor name
    pub name: String,
    /// Aggressor side
    pub side: Side,
    /// Aggressor body part
    pub body_part: String,
    /// Aggressor head segment
    pub head_segment: Option<String>,
    /// Aggressor weapon name
    pub weapon_name: String,
    /// Aggressor category
    pub category: String,
}

/// Victim
#[derive(Debug, Clone, PartialEq)]
pub struct Victim {
    /// Victim name
    pub name: String,
    /// Victim side
    pub side: Side,
    /// Victim death time
    pub time: String,
    /// Victim level
    pub level: u64,
    /// Body part shot
    pub body_part: String,
    /// Weapon used to kill
    pub weapon: String,
}

/// ?
#[derive(Debug, Clone, PartialEq)]
pub struct ConditionCounters {
    /// Counters
    pub counters: Vec<ConditionCounter>,
}

/// ?
#[derive(Debug, Clone, PartialEq)]
pub struct ConditionCounter {
    /// Counter ID
    pub id: String,
    /// Counter value
    pub value: u64,
}

/// ?
#[derive(Debug, Clone, PartialEq)]
pub struct BackendCounter {
    /// Counter ID
    pub id: String,
    /// ?
    pub qid: String,
    /// Counter value
    pub value: u64,
}

/// Insured item
#[derive(Debug, Clone, PartialEq)]
pub struct InsuredItem {
    /// Insurance ID
    pub id: String,
    /// Insured item ID
    pub item_id: String,
}

/// Bonus?
#[derive(Debug, Clone, PartialEq)]
pub struct Bonus {
    /// ?
    pub bonus_type: String,
    /// ?
    pub template_id: Option<String>,
    /// ?
    pub value: Option<i64>,
    /// ?
    pub passive: Option<bool>,
    /// ?
    pub visible: Option<bool>,
    /// ?
    pub production: Option<bool>,
    /// ?
    pub filter: Option<Vec<String>>,
    /// ?
    pub id: Option<String>,
    /// ?
    pub icon: Option<String>,
}

/// Quest
#[derive(Debug, Clone, PartialEq)]
pub struct Quest {
    /// Quest ID
    pub id: String,
    /// Quest start time
    pub start_time: u64,
    /// Quest status
    pub status: u64,
    /// Quest status timers
    pub status_timers: HashMap<String, u64>,
}

/// Profile notifier
#[derive(Debug, Clone, PartialEq)]
pub struct Notifier {
    /// Notifier server
    pub server: String,
    /// Notifier channel ID
    pub channel_id: String,
    /// Notifier URL
    pub url: String,
}
/// The body that selects a profile.
pub open spec fn select_body(user_id: Seq<char>) -> JsonValue {
    JsonValue::Object(seq![("uid"@, JsonValue::Text(user_id))])
}

/// The outcome of selecting a profile.
#[derive(Debug, Clone, PartialEq)]
pub struct ProfileSelected {
    /// Profile status
    pub status: String,
    /// Profile notifier
    pub notifier: Notifier,
    /// Profile notifier server
    pub notifier_server: String,
}

/// Whether the data of a reply holds the outcome of a selection: a string under
/// `status` and under `notifierServer`, and under `notifier` an object with strings under
/// `server`, `channel_id` and `url`.
pub open spec fn is_profile_selected(data: JsonValue) -> bool {
    &&& data.text_at("status"@) is Some
    &&& data.text_at("notifierServer"@) is Some
    &&& data.member("notifier"@) matches Some(notifier)
    &&& notifier.text_at("server"@) is Some
    &&& notifier.text_at("channel_id"@) is Some
    &&& notifier.text_at("url"@) is Some
}

/// What the data of the reply to a selection means: data that does not hold the outcome
/// is rejected with [`Error::Json`]; a status other than `ok` is
/// [`ProfileError::SelectProfileFail`].
pub open spec fn selected_spec(data: JsonValue) -> Result<(), Error> {
    if !is_profile_selected(data) {
        Err(Error::Json)
    } else if data.text_at("status"@)->Some_0 != "ok"@ {
        Err(Error::ProfileError(ProfileError::SelectProfileFail))
    } else {
        Ok(())
    }
}

/// What the reply to [`Tarkov::select_profile`] means.
pub open spec fn select_profile_spec(reply: Reply) -> Result<(), Error> {
    match data_of_reply_spec(reply) {
        Ok(data) => selected_spec(data),
        Err(e) => Err(e),
    }
}

impl ProfileSelected {
    /// Reads the outcome of a selection from the data of a reply.
    pub fn from_json(data: &Json) -> (r: Option<ProfileSelected>)
        ensures
            match r {
                Some(p) => {
                    &&& is_profile_selected(data@)
                    &&& p.status@ == data@.text_at("status"@)->Some_0
                    &&& p.notifier_server@ == data@.text_at("notifierServer"@)->Some_0
                    &&& p.notifier.server@ == data@.member("notifier"@)->Some_0.text_at(
                        "server"@,
                    )->Some_0
                    &&& p.notifier.channel_id@ == data@.member("notifier"@)->Some_0.text_at(
                        "channel_id"@,
                    )->Some_0
                    &&& p.notifier.url@ == data@.member("notifier"@)->Some_0.text_at(
                        "url"@,
                    )->Some_0
                },
                None => !is_profile_selected(data@),
            },
    {
        let status = match data.text_at("status") {
            Some(x) => x,
            None => return None,
        };
        let notifier_server = match data.text_at("notifierServer") {
            Some(x) => x,
            None => return None,
        };
        let notifier = match data.get("notifier") {
            Some(x) => x,
            None => return None,
        };
        let server = match notifier.text_at("server") {
            Some(x) => x,
            None => return None,
        };
        let channel_id = match notifier.text_at("channel_id") {
            Some(x) => x,
            None => return None,
        };
        let url = match notifier.text_at("url") {
            Some(x) => x,
            None => return None,
        };
        let notifier = Notifier { server, channel_id, url };
        Some(ProfileSelected { status, notifier, notifier_server })
    }
}

impl Tarkov {
    /// The call for the profiles of the account.
    pub fn get_profiles(&self) -> (r: Result<Request, Error>)
        ensures
            request_result_is(
                r,
                call_spec(
                    self@,
                    self@.config.prod_endpoint + "/client/game/profile/list"@,
                    JsonValue::Null,
                ),
            ),
    {
        let url = join(self.config().prod_endpoint.as_str(), "/client/game/profile/list");
        self.post_json(url, &Json::Null)
    }

    /// The call that selects a profile by its user ID.
    pub fn select_profile(&self, user_id: &str) -> (r: Result<Request, Error>)
        ensures
            request_result_is(
                r,
                call_spec(
                    self@,
                    self@.config.prod_endpoint + "/client/game/profile/select"@,
                    select_body(user_id@),
                ),
            ),
    {
        let url = join(self.config().prod_endpoint.as_str(), "/client/game/profile/select");
        let mut members: Vec<Member> = Vec::new();
        members.push(member("uid", Json::text(user_id)));
        let body = object(members);
        assert(body@->Object_0 =~= select_body(user_id@)->Object_0);
        self.post_json(url, &body)
    }

    /// What the data of the reply to [`Tarkov::select_profile`] means.
    pub fn profile_selected(data: &Json) -> (r: Result<(), Error>)
        ensures
            r == selected_spec(data@),
    {
        match ProfileSelected::from_json(data) {
            Some(selected) => {
                if str_eq(selected.status.as_str(), "ok") {
                    Ok(())
                } else {
                    Err(Error::ProfileError(ProfileError::SelectProfileFail))
                }
            },
            None => Err(Error::Json),
        }
    }

    /// What the reply to [`Tarkov::select_profile`] means.
    pub fn select_profile_result(reply: &Reply) -> (r: Result<(), Error>)
        ensures
            r == select_profile_spec(*reply),
    {
        match data_of_reply(reply) {
            Ok(data) => Tarkov::profile_selected(&data),
            Err(e) => Err(e),
        }
    }
}

} // verus!
