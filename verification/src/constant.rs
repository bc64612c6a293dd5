//! The game's constants: what the catalogs of items, locations and texts hold.

use crate::http::{request_result_is, Reply, Request};
use crate::json::{json_result_is, member, object, Json, JsonValue, Member};
use crate::profile::Side;
use crate::text::join;
use crate::{call_spec, data_of_reply, data_of_reply_spec, Error, Tarkov};
use std::collections::HashMap;
use vstd::prelude::*;

verus! {

/// Item prefab
#[derive(Debug, Clone, PartialEq)]
pub struct Prefab {
    /// Prefab path
    pub path: String,
    /// ?
    pub rcid: String,
}

/// Item grid
#[derive(Debug, Clone, PartialEq)]
pub struct Grid {
    /// Grid ID
    pub id: String,
    /// Grid name
    pub name: String,
    /// Grid parent ID
    pub parent: String,
    /// Grid properties
    pub props: GridProps,
    /// ?
    pub proto: String,
}

/// Item grid properties
#[derive(Debug, Clone, PartialEq)]
pub struct GridProps {
    /// Grid filters
    pub filters: Vec<GridFilter>,
    /// Grid height
    pub cells_h: u64,
    /// Grid width?
    pub cells_w: u64,
    /// Minimum grid space
    pub min_count: u64,
    /// Maximum grid space
    pub max_count: u64,
    /// Grid maximum weight
    pub max_weight: u64,
}

/// Item grid filter
#[derive(Debug, Clone, PartialEq)]
pub struct GridFilter {
    /// Grid filters
    pub filter: Vec<String>,
    /// Grid exclusion filter
    pub excluded_filter: Vec<String>,
}

/// Item slot
#[derive(Debug, Clone, PartialEq)]
pub struct Slot {
    /// Slot ID
    pub id: String,
    /// Slot name
    pub name: String,
    /// Slot parent ID
    pub parent: String,
    /// Slot properties
    pub props: SlotProps,
    /// Slot is required
    pub required: bool,
    /// Merge slot with children
    pub merge_slot_with_children: bool,
    /// ?
    pub proto: String,
}

/// Item slot properties
#[derive(Debug, Clone, PartialEq)]
pub struct SlotProps {
    /// ?
    pub slot: Option<i64>,
    /// Slot animation
    pub animation_index: Option<i64>,
    /// Slot filters
    pub filters: Option<Vec<SlotFilter>>,
}

/// Item slot filter
#[derive(Debug, Clone, PartialEq)]
pub struct SlotFilter {
    /// ?
    pub slot: Option<i64>,
    /// Slot filter animation index
    pub animation_index: Option<i64>,
    /// Slot filter filters
    pub filters: Vec<String>,
}

/// Item cartridge/ammo
#[derive(Debug, Clone, PartialEq)]
pub struct Cartridge {
    /// Cartridge ID
    pub id: String,
    /// Cartridge name
    pub name: String,
    /// Cartridge parent ID
    pub parent: String,
    /// Maximum number of cartridges
    pub max_count: u64,
    /// Cartridge properties
    pub props: CartridgeProps,
    /// ?
    pub proto: String,
}

/// Cartridge properties
#[derive(Debug, Clone, PartialEq)]
pub struct CartridgeProps {
    /// Cartridge filters
    pub filters: Vec<CartridgeFilter>,
}

/// Cartridge filter
#[derive(Debug, Clone, PartialEq)]
pub struct CartridgeFilter {
    /// Cartridge filter filters?
    pub filter: Vec<String>,
}

/// Item armor zone
#[derive(Debug, Clone, PartialEq)]
pub enum ArmorZone {
    /// Head
    Head,
    /// Chest
    Chest,
    /// Stomach
    Stomach,
    /// Left arm
    LeftArm,
    /// Right arm
    RightArm,
    /// Left leg
    LeftLeg,
    /// Right leg
    RightLeg,
}

/// Item fire mode
#[derive(Debug, Clone, PartialEq)]
pub enum FireMode {
    /// Single fire
    Single,
    /// Burst mode
    Burst,
    /// Full auto
    FullAuto,
}

/// Item chamber
#[derive(Debug, Clone, PartialEq)]
pub struct Chamber {
    /// Chamber ID
    pub id: String,
    /// Chamber name
    pub name: String,
    /// Chamber parent ID
    pub parent: String,
    /// Chamber properties
    pub props: ChamberProps,
    /// Chamber is required
    pub required: bool,
    /// Merge chamber slot with children
    pub merge_slot_with_children: bool,
    /// ?
    pub proto: String,
}

/// Chamber properties
#[derive(Debug, Clone, PartialEq)]
pub struct ChamberProps {
    /// Chamber filters
    pub filters: Vec<ChamberFilter>,
}

/// Chamber filter
#[derive(Debug, Clone, PartialEq)]
pub struct ChamberFilter {
    /// Chamber filter filters?
    pub filter: Vec<String>,
}

/// RGB color
#[derive(Debug, Clone, PartialEq)]
pub struct Color {
    /// Red
    pub r: u8,
    /// Green
    pub g: u8,
    /// Blue
    pub b: u8,
    /// Alpha
    pub a: u8,
}

/// Head parts
#[derive(Debug, Clone, PartialEq)]
pub enum HeadSegment {
    /// Top of head
    Top,
    /// Nape
    Nape,
    /// Ears
    Ears,
    /// Eyes
    Eyes,
    /// Jaws
    Jaws,
}

/// Damage effects on player
#[derive(Debug, Clone, PartialEq)]
pub struct DamageEffects {
    /// Bloodloss effect
    pub bloodloss: Damage,
    /// Fracture effect
    pub fracture: Damage,
    /// Pain effect
    pub pain: Damage,
    /// Contusion effect
    pub contusion: Damage,
    /// Toxication effect
    pub toxication: Damage,
    /// Radiation exposure
    pub radiation_exposure: Damage,
}

/// Damage effect
#[derive(Debug, Clone, PartialEq)]
pub struct Damage {
    /// ?
    pub remove: bool,
    /// ?
    pub time: u64,
    /// Damage effect duration
    pub duration: u64,
    /// ?
    pub fade_out: Option<u64>,
    /// ?
    pub cost: Option<u64>,
    /// Damage minimum health penalty
    pub health_penalty_min: Option<u64>,
    /// Damage maximum health penalty
    pub health_penalty_max: Option<u64>,
}

/// Speed effects on player
#[derive(Debug, Clone, PartialEq)]
pub struct SpeedEffects {
    /// Mobility effect
    pub mobility: Speed,
    /// Recoil effect
    pub recoil: Speed,
    /// Reload effect
    pub reload_speed: Speed,
    /// Loot effect
    pub loot_speed: Speed,
    /// Unlock effect
    pub unlock_speed: Speed,
}

/// Speed effect
#[derive(Debug, Clone, PartialEq)]
pub struct Speed {
    /// Effect value
    pub value: i64,
    /// Effect percent
    pub percent: bool,
    /// ?
    pub time: u64,
    /// Effect duration
    pub duration: u64,
}

/// ?
#[derive(Debug, Clone, PartialEq)]
pub struct StackSlot {
    /// Stack slot ID
    pub id: String,
    /// Stack slot name
    pub name: String,
    /// Stack slot parent ID
    pub parent: String,
    /// Maximum stack slots
    pub max_count: u64,
    /// Stack slot properties
    pub props: StackSlotProps,
    /// ?
    pub proto: String,
}

/// Stack slot properties
#[derive(Debug, Clone, PartialEq)]
pub struct StackSlotProps {
    /// Stack slot filters
    pub filters: Vec<StackSlotFilter>,
}

/// Stack slot filter
#[derive(Debug, Clone, PartialEq)]
pub struct StackSlotFilter {
    /// Stack slot filter filters?
    pub filter: Vec<String>,
}

/// Location scene prefab
#[derive(Debug, Clone, PartialEq)]
pub struct Scene {
    /// Scene path
    pub path: String,
    /// ?
    pub rcid: String,
}

/// Location path?
#[derive(Debug, Clone, PartialEq)]
pub struct Path {
    /// ?
    pub source: String,
    /// ?
    pub destination: String,
}

/// Location preview
#[derive(Debug, Clone, PartialEq)]
pub struct Preview {
    /// Location preview path
    pub path: String,
    /// ?
    pub rcid: String,
}

/// Bot wave
#[derive(Debug, Clone, PartialEq)]
pub struct Wave {
    /// Number of bots in wave?
    pub number: u64,
    /// Minimum wave time
    pub time_min: u64,
    /// Maximum wave time
    pub time_max: u64,
    /// ?
    pub slots_min: u64,
    /// ?
    pub slots_max: u64,
    /// Wave spawn point
    pub spawn_points: String,
    /// Bot side
    pub bot_side: Side,
    /// Bot difficulty
    pub bot_preset: BotDifficulty,
    /// ?
    pub is_players: bool,
    /// ?
    pub wild_spawn_type: String,
}

/// ?
#[derive(Debug, Clone, PartialEq)]
pub struct MinMaxBot {
    /// ?
    pub min: u64,
    /// ?
    pub max: u64,
    /// ?
    pub wild_spawn_type: String,
}

/// Location bot stat modifier
#[derive(Debug, Clone, PartialEq)]
pub struct BotLocationModifier {
    /// Bot accuracy speed modifier
    pub accuracy_speed: u64,
    /// Bot scattering modifier
    pub scattering: u64,
    /// Bot gain sight modifier
    pub gain_sight: u64,
    /// Bot marksmen accuracy modifier
    pub marksman_accuracy_coefficient: u64,
    /// Bot visible distance modifier
    pub visible_distance: u64,
}

/// Extraction point
#[derive(Debug, Clone, PartialEq)]
pub struct Exit {
    /// Extraction name
    pub name: String,
    /// ?
    pub entry_points: String,
    /// Extraction availability chance
    pub chance: u64,
    /// Extraction minimum availability time
    pub min_time: u64,
    /// Extraction maximum availability time
    pub max_time: u64,
    /// ?
    pub players_count: u64,
    /// ?
    pub exfiltration_time: u64,
    /// ?
    pub passage_requirement: Option<String>,
    /// ?
    pub exfiltration_type: Option<String>,
    /// ?
    pub required_slot: Option<String>,
    /// ?
    pub count: Option<u64>,
    /// Extraction ID
    pub id: String,
    /// ?
    pub requirement_tip: Option<String>,
}

/// Boss bots
#[derive(Debug, Clone, PartialEq)]
pub struct BossSpawn {
    /// Boss name
    pub name: String,
    /// Boss spawn chance
    pub chance: u64,
    /// Boss spawn zone
    pub zone: String,
    /// ?
    pub player: bool,
    /// Boss difficulty
    pub difficulty: BotDifficulty,
    /// Boss escort type
    pub escort_type: String,
    /// Boss escort difficulty
    pub escort_difficulty: BotDifficulty,
    /// Number of boss escorts
    pub escort_amount: String,
    /// ?
    pub time: i64,
}

/// Boss difficulty
#[derive(Debug, Clone, PartialEq)]
pub enum BotDifficulty {
    /// Easy difficulty
    Easy,
    /// Normal difficulty
    Normal,
    /// Hard difficulty
    Hard,
    /// Impossible difficulty
    Impossible,
}

/// Location banner
#[derive(Debug, Clone, PartialEq)]
pub struct Banner {
    /// Banner ID
    pub id: String,
    /// Banner picture
    pub pic: BannerPic,
}

/// Location banner picture
#[derive(Debug, Clone, PartialEq)]
pub struct BannerPic {
    /// Picture path
    pub path: String,
    /// ?
    pub rcid: String,
}

/// Quest
#[derive(Debug, Clone, PartialEq)]
pub struct Quest {
    /// Quest name
    pub name: String,
    /// Quest description
    pub description: String,
    /// Quest note
    pub note: Option<String>,
    /// Quest fail message
    pub fail_message_text: String,
    /// Quest start message
    pub started_message_text: String,
    /// Quest success message
    pub success_message_text: String,
    /// Quest conditions
    pub conditions: HashMap<String, String>,
    /// Quest location
    pub location: String,
}

/// ?
#[derive(Debug, Clone, PartialEq)]
pub struct Preset {
    /// Preset name
    pub name: Option<String>,
}

/// Item localization
#[derive(Debug, Clone, PartialEq)]
pub struct ItemLocalization {
    /// Item name
    pub name: String,
    /// Item short name
    pub short_name: String,
    /// Item description
    pub description: String,
}

/// Location localization
#[derive(Debug, Clone, PartialEq)]
pub struct LocationLocalization {
    /// Location name
    pub name: String,
    /// Location description
    pub description: String,
}

/// Banner localization
#[derive(Debug, Clone, PartialEq)]
pub struct BannerLocalization {
    /// Banner name
    pub name: Option<String>,
    /// Banner description
    pub description: Option<String>,
}

/// Trader localization
#[derive(Debug, Clone, PartialEq)]
pub struct TraderLocalization {
    /// Trader full name
    pub full_name: String,
    /// Trader first name
    pub first_name: String,
    /// Trader nickname
    pub nickname: String,
    /// Trader location
    pub location: String,
    /// Trader description
    pub description: String,
}
/// The body that asks for a catalog from its start.
pub open spec fn catalog_body() -> JsonValue {
    JsonValue::Object(seq![("crc"@, JsonValue::Unsigned(0))])
}

fn catalog() -> (body: Json)
    ensures
        body@ == catalog_body(),
{
    let mut members: Vec<Member> = Vec::new();
    members.push(member("crc", Json::Unsigned(0)));
    let body = object(members);
    assert(body@->Object_0 =~= catalog_body()->Object_0);
    body
}

/// What the reply to [`Tarkov::get_weather`] gives: the error of the reply, else what
/// its data holds under `weather`; data without it is rejected with [`Error::Json`].
pub open spec fn weather_spec(reply: Reply) -> Result<JsonValue, Error> {
    match data_of_reply_spec(reply) {
        Ok(data) => match data.present("weather"@) {
            Some(weather) => Ok(weather),
            None => Err(Error::Json),
        },
        Err(e) => Err(e),
    }
}

impl Tarkov {
    /// The call for the list of all items. Its reply holds them by their ID.
    pub fn get_all_items(&self) -> (r: Result<Request, Error>)
        ensures
            request_result_is(
                r,
                call_spec(self@, self@.config.prod_endpoint + "/client/items"@, catalog_body()),
            ),
    {
        let url = join(self.config().prod_endpoint.as_str(), "/client/items");
        self.post_json(url, &catalog())
    }

    /// The call for the list of all locations.
    pub fn get_all_locations(&self) -> (r: Result<Request, Error>)
        ensures
            request_result_is(
                r,
                call_spec(
                    self@,
                    self@.config.prod_endpoint + "/client/locations"@,
                    catalog_body(),
                ),
            ),
    {
        let url = join(self.config().prod_endpoint.as_str(), "/client/locations");
        self.post_json(url, &catalog())
    }

    /// The call for the weather and the time in the game.
    pub fn get_weather(&self) -> (r: Result<Request, Error>)
        ensures
            request_result_is(
                r,
                call_spec(self@, self@.config.prod_endpoint + "/client/weather"@, JsonValue::Null),
            ),
    {
        let url = join(self.config().prod_endpoint.as_str(), "/client/weather");
        self.post_json(url, &Json::Null)
    }

    /// Takes the weather out of the reply to [`Tarkov::get_weather`].
    pub fn get_weather_result(reply: &Reply) -> (r: Result<Json, Error>)
        ensures
            json_result_is(r, weather_spec(*reply)),
    {
        match data_of_reply(reply) {
            Ok(data) => match data.take_present("weather") {
                Some(weather) => Ok(weather),
                None => Err(Error::Json),
            },
            Err(e) => Err(e),
        }
    }

    /// The call for the table of texts in a language, named by its ISO 639-1 code.
    pub fn get_i18n(&self, language: &str) -> (r: Result<Request, Error>)
        ensures
            request_result_is(
                r,
                call_spec(
                    self@,
                    self@.config.prod_endpoint + "/client/locale/"@ + language@,
                    JsonValue::Null,
                ),
            ),
    {
        let url = join(self.config().prod_endpoint.as_str(), "/client/locale/").concat(language);
        self.post_json(url, &Json::Null)
    }
}

} // verus!
