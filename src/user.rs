//! The user records that a key fetches, and the decisions made while
//! reading them from the remote API's wire form.
use vstd::prelude::*;
use vstd::string::StrSliceExecFns;

verus! {

/// The selections of the user category.
#[derive(Debug, Clone, Copy, PartialEq, Eq, Structural)]
#[non_exhaustive]
pub enum UserSelection {
    Basic,
    Profile,
    Discord,
    PersonalStats,
    Crimes,
    AttacksFull,
    Attacks,
    Icons,
}

#[derive(Debug, Clone, Copy, PartialEq, Eq, Structural)]
pub enum Gender {
    Male,
    Female,
    Enby,
}

#[derive(Debug, Clone, PartialEq, Eq)]
pub struct Faction {
    pub faction_id: i32,
    pub faction_name: String,
    pub days_in_faction: i16,
    pub position: String,
    pub faction_tag: Option<String>,
}

#[derive(Debug, Clone, Copy, PartialEq, Eq, Structural)]
pub struct Discord {
    pub user_id: Option<i32>,
    pub discord_id: Option<i64>,
}

#[derive(Debug, Clone, Copy, PartialEq, Eq, Structural)]
pub struct LifeBar {
    pub current: i16,
    pub maximum: i16,
    pub increment: i16,
}

#[derive(Debug, Clone, Copy, PartialEq, Eq, Structural)]
pub enum EliminationTeam2022 {
    Firestarters,
    HardBoiled,
    QuackAddicts,
    RainMen,
    TotallyBoned,
    RawringThunder,
    DirtyCops,
    LaughingStock,
    JeanTherapy,
    SatansSoldiers,
    WolfPack,
    Sleepyheads,
}

#[derive(Debug, Clone, Copy, PartialEq, Eq, Structural)]
pub enum EliminationTeam {
    Backstabbers,
    Cheese,
    DeathsDoor,
    RegularHumanPeople,
    FlowerRangers,
    ReligiousExtremists,
    Hivemind,
    CapsLockCrew,
}

#[derive(Debug, Clone, Copy, PartialEq, Eq, Structural)]
pub enum Competition {
    Elimination { score: i32, attacks: i16, team: EliminationTeam },
    DogTags { score: i32, position: Option<i32> },
    Unknown,
}

/// The name under which a competition is reported.
#[derive(Debug, Clone, Copy, PartialEq, Eq, Structural)]
pub enum CompetitionName {
    Elimination,
    DogTags,
    Unknown,
}

#[derive(Debug, Clone, Copy, PartialEq, Eq, Structural)]
pub struct PersonalStats {
    pub attacks_won: i32,
    pub attacks_lost: i32,
    pub defends_won: i32,
    pub defends_lost: i32,
    pub stat_enhancers_used: i32,
    pub refills: i32,
    pub drugs_used: i32,
    pub xanax_taken: i32,
    pub lsd_taken: i32,
    pub net_worth: i64,
    pub cans_used: i32,
    pub boosters_used: i32,
    pub awards: i16,
    pub elo: i16,
    pub days_been_donator: i16,
    pub best_damage: i32,
}

#[derive(Debug, Clone, Copy, PartialEq, Eq, Structural)]
pub struct Crimes1 {
    pub selling_illegal_products: i32,
    pub theft: i32,
    pub auto_theft: i32,
    pub drug_deals: i32,
    pub computer_crimes: i32,
    pub murder: i32,
    pub fraud_crimes: i32,
    pub other: i32,
    pub total: i32,
}

#[derive(Debug, Clone, Copy, PartialEq, Eq, Structural)]
pub struct Crimes2 {
    pub vandalism: i32,
    pub theft: i32,
    pub counterfeiting: i32,
    pub fraud: i32,
    pub illicit_services: i32,
    pub cyber_crime: i32,
    pub extortion: i32,
    pub illegal_production: i32,
    pub total: i32,
}

/// A criminal record in either of the two layouts the API has used.
#[derive(Debug, Clone, Copy, PartialEq, Eq, Structural)]
pub enum CriminalRecord {
    Crimes1(Crimes1),
    Crimes2(Crimes2),
}

/// A profile icon, by number.
#[derive(Debug, Clone, Copy, PartialEq, Eq, Hash, Structural)]
pub struct Icon(pub i16);

#[derive(Debug, Clone, Copy, PartialEq, Eq, Structural)]
#[non_exhaustive]
pub enum Job {
    Director,
    Employee,
    Education,
    Army,
    Law,
    Casino,
    Medical,
    Grocer,
    Other,
}

#[derive(Debug, Clone, PartialEq, Eq)]
pub enum Company {
    PlayerRun { name: String, id: i32, company_type: u8 },
    CityJob,
}

#[derive(Debug, Clone, PartialEq, Eq)]
pub struct EmploymentStatus {
    pub job: Job,
    pub company: Company,
}

/// Why a record could not be read.
#[derive(Debug, Clone, PartialEq, Eq)]
pub enum DecodeError {
    /// A field that the record needs was absent.
    MissingField(String),
    /// A name that stands for none of the known variants.
    UnknownVariant(String),
    /// A value of the right type but the wrong form.
    InvalidValue(String),
}

/// Whether `r` failed because the field named `name` was absent.
pub open spec fn missing<T>(r: Result<T, DecodeError>, name: Seq<char>) -> bool {
    r matches Err(DecodeError::MissingField(f)) && f@ == name
}

/// Whether `r` failed on the name `v`, which stands for no known variant.
pub open spec fn unknown_variant<T>(r: Result<T, DecodeError>, v: Seq<char>) -> bool {
    r matches Err(DecodeError::UnknownVariant(f)) && f@ == v
}

/// Whether `r` failed on the value `v`, which has the wrong form.
pub open spec fn invalid_value<T>(r: Result<T, DecodeError>, v: Seq<char>) -> bool {
    r matches Err(DecodeError::InvalidValue(f)) && f@ == v
}

/// A `MissingField` error for the field `name`.
fn missing_field(name: &str) -> (e: DecodeError)
    ensures
        e matches DecodeError::MissingField(f) && f@ == name@,
{
    DecodeError::MissingField(name.to_owned())
}

/// Builds a faction membership from its fields. A faction id of zero means
/// the user is in no faction.
pub fn faction_from_fields(
    faction_id: Option<i32>,
    faction_name: Option<String>,
    days_in_faction: Option<i16>,
    position: Option<String>,
    faction_tag: Option<String>,
) -> (r: Result<Option<Faction>, DecodeError>)
    ensures
        faction_id is None ==> missing(r, "faction_id"@),
        faction_id is Some && faction_name is None ==> missing(r, "faction_name"@),
        faction_id is Some && faction_name is Some && days_in_faction is None ==> missing(
            r,
            "days_in_faction"@,
        ),
        faction_id is Some && faction_name is Some && days_in_faction is Some && position is None
            ==> missing(r, "position"@),
        faction_id is Some && faction_name is Some && days_in_faction is Some && position is Some
            ==> r == Ok::<Option<Faction>, DecodeError>(
            if faction_id->0 == 0 {
                None
            } else {
                Some(
                    Faction {
                        faction_id: faction_id->0,
                        faction_name: faction_name->0,
                        days_in_faction: days_in_faction->0,
                        position: position->0,
                        faction_tag,
                    },
                )
            },
        ),
{
    let faction_id = match faction_id {
        Some(v) => v,
        None => return Err(missing_field("faction_id")),
    };
    let faction_name = match faction_name {
        Some(v) => v,
        None => return Err(missing_field("faction_name")),
    };
    let days_in_faction = match days_in_faction {
        Some(v) => v,
        None => return Err(missing_field("days_in_faction")),
    };
    let position = match position {
        Some(v) => v,
        None => return Err(missing_field("position")),
    };
    if faction_id == 0 {
        Ok(None)
    } else {
        Ok(Some(Faction { faction_id, faction_name, days_in_faction, position, faction_tag }))
    }
}

/// Whether two strings hold the same characters.
fn same_text(a: &str, b: &str) -> (r: bool)
    ensures
        r == (a@ == b@),
{
    let a2 = a.to_owned();
    let b2 = b.to_owned();
    a2 == b2
}

/// The elimination team that a kebab-case team name stands for.
pub open spec fn team_of(s: Seq<char>) -> Option<EliminationTeam> {
    if s == "backstabbers"@ {
        Some(EliminationTeam::Backstabbers)
    } else if s == "cheese"@ {
        Some(EliminationTeam::Cheese)
    } else if s == "deaths-door"@ {
        Some(EliminationTeam::DeathsDoor)
    } else if s == "regular-human-people"@ {
        Some(EliminationTeam::RegularHumanPeople)
    } else if s == "flower-rangers"@ {
        Some(EliminationTeam::FlowerRangers)
    } else if s == "religious-extremists"@ {
        Some(EliminationTeam::ReligiousExtremists)
    } else if s == "hivemind"@ {
        Some(EliminationTeam::Hivemind)
    } else if s == "caps-lock-crew"@ {
        Some(EliminationTeam::CapsLockCrew)
    } else {
        None
    }
}

/// Reads an elimination team name: an empty name means no team yet.
pub fn elimination_team_from_str(s: &str) -> (r: Result<Option<EliminationTeam>, DecodeError>)
    ensures
        s@.len() == 0 ==> r == Ok::<Option<EliminationTeam>, DecodeError>(None),
        s@.len() > 0 && team_of(s@) is Some ==> r == Ok::<Option<EliminationTeam>, DecodeError>(
            team_of(s@),
        ),
        s@.len() > 0 && team_of(s@) is None ==> unknown_variant(r, s@),
{
    if s.is_empty() {
        return Ok(None);
    }
    let team = if same_text(s, "backstabbers") {
        EliminationTeam::Backstabbers
    } else if same_text(s, "cheese") {
        EliminationTeam::Cheese
    } else if same_text(s, "deaths-door") {
        EliminationTeam::DeathsDoor
    } else if same_text(s, "regular-human-people") {
        EliminationTeam::RegularHumanPeople
    } else if same_text(s, "flower-rangers") {
        EliminationTeam::FlowerRangers
    } else if same_text(s, "religious-extremists") {
        EliminationTeam::ReligiousExtremists
    } else if same_text(s, "hivemind") {
        EliminationTeam::Hivemind
    } else if same_text(s, "caps-lock-crew") {
        EliminationTeam::CapsLockCrew
    } else {
        return Err(DecodeError::UnknownVariant(s.to_owned()));
    };
    Ok(Some(team))
}

/// The competition that a reported competition name stands for.
pub open spec fn competition_name_of(s: Seq<char>) -> CompetitionName {
    if s == "Elimination"@ {
        CompetitionName::Elimination
    } else if s == "Dog Tags"@ {
        CompetitionName::DogTags
    } else {
        CompetitionName::Unknown
    }
}

/// Reads a competition name; names of other competitions are `Unknown`.
pub fn competition_name_from_str(s: &str) -> (r: CompetitionName)
    ensures
        r == competition_name_of(s@),
{
    if same_text(s, "Elimination") {
        CompetitionName::Elimination
    } else if same_text(s, "Dog Tags") {
        CompetitionName::DogTags
    } else {
        CompetitionName::Unknown
    }
}

/// Builds a competition entry from its fields. An elimination entry without
/// a team means the user has not joined one, and gives no entry.
pub fn competition_from_fields(
    name: Option<CompetitionName>,
    score: Option<i32>,
    attacks: Option<i16>,
    team: Option<EliminationTeam>,
    position: Option<Option<i32>>,
) -> (r: Result<Option<Competition>, DecodeError>)
    ensures
        name is None ==> missing(r, "name"@),
        name == Some(CompetitionName::Elimination) ==> (team is None ==> r == Ok::<
            Option<Competition>,
            DecodeError,
        >(None)),
        name == Some(CompetitionName::Elimination) && team is Some ==> (score is None ==> missing(
            r,
            "score"@,
        )) && (score is Some && attacks is None ==> missing(r, "attacks"@)) && (score is Some
            && attacks is Some ==> r == Ok::<Option<Competition>, DecodeError>(
            Some(
                Competition::Elimination {
                    score: score->0,
                    attacks: attacks->0,
                    team: team->0,
                },
            ),
        )),
        name == Some(CompetitionName::DogTags) ==> (score is None ==> missing(r, "score"@)) && (
        score is Some && position is None ==> missing(r, "position"@)) && (score is Some
            && position is Some ==> r == Ok::<Option<Competition>, DecodeError>(
            Some(Competition::DogTags { score: score->0, position: position->0 }),
        )),
        name == Some(CompetitionName::Unknown) ==> r == Ok::<Option<Competition>, DecodeError>(
            Some(Competition::Unknown),
        ),
{
    let name = match name {
        Some(n) => n,
        None => return Err(missing_field("name")),
    };
    match name {
        CompetitionName::Elimination => match team {
            Some(team) => {
                let score = match score {
                    Some(v) => v,
                    None => return Err(missing_field("score")),
                };
                let attacks = match attacks {
                    Some(v) => v,
                    None => return Err(missing_field("attacks")),
                };
                Ok(Some(Competition::Elimination { score, attacks, team }))
            },
            None => Ok(None),
        },
        CompetitionName::DogTags => {
            let score = match score {
                Some(v) => v,
                None => return Err(missing_field("score")),
            };
            let position = match position {
                Some(v) => v,
                None => return Err(missing_field("position")),
            };
            Ok(Some(Competition::DogTags { score, position }))
        },
        CompetitionName::Unknown => Ok(Some(Competition::Unknown)),
    }
}

impl Company {
    /// Builds an employer from its fields. A company id of zero means a job
    /// with the city, whatever else is given.
    pub fn from_fields(id: Option<i32>, name: Option<String>, company_type: Option<u8>) -> (r:
        Result<Company, DecodeError>)
        ensures
            id == Some(0i32) ==> r == Ok::<Company, DecodeError>(Company::CityJob),
            id is None ==> missing(r, "company_id"@),
            id is Some && id != Some(0i32) && name is None ==> missing(r, "company_name"@),
            id is Some && id != Some(0i32) && name is Some && company_type is None ==> missing(
                r,
                "company_type"@,
            ),
            id is Some && id != Some(0i32) && name is Some && company_type is Some ==> r == Ok::<
                Company,
                DecodeError,
            >(Company::PlayerRun { name: name->0, id: id->0, company_type: company_type->0 }),
    {
        let id = match id {
            Some(v) => v,
            None => return Err(missing_field("company_id")),
        };
        if id == 0 {
            return Ok(Company::CityJob);
        }
        let name = match name {
            Some(v) => v,
            None => return Err(missing_field("company_name")),
        };
        let company_type = match company_type {
            Some(v) => v,
            None => return Err(missing_field("company_type")),
        };
        Ok(Company::PlayerRun { name, id, company_type })
    }
}

/// What `str::parse::<i16>` makes of the text `s`, where it reads a number.
pub uninterp spec fn parsed_i16(s: Seq<char>) -> Option<i16>;

/// Relies on str::parse::<i16>: the number that the text spells in decimal,
/// where it spells one that fits; the outcome depends on the text alone.
#[verifier::external_body]
fn parse_i16(s: &str) -> (r: Option<i16>)
    ensures
        r == parsed_i16(s@),
{
    s.parse::<i16>().ok()
}

/// The text after the prefix `icon`, where `s` starts with it.
pub open spec fn icon_suffix(s: Seq<char>) -> Option<Seq<char>> {
    if s.len() >= 4 && s.subrange(0, 4) == seq!['i', 'c', 'o', 'n'] {
        Some(s.subrange(4, s.len() as int))
    } else {
        None
    }
}

/// The numbers of the icons that callers look for.
impl Icon {
    pub const SUBSCRIBER: i16 = 4;
    pub const LEVEL_100: i16 = 5;
    pub const GENDER_MALE: i16 = 6;
    pub const GENDER_FEMALE: i16 = 7;
    pub const MARITAL_STATUS: i16 = 8;
    pub const FACTION_MEMBER: i16 = 9;
    pub const PLAYER_COMMITTEE: i16 = 10;
    pub const STAFF: i16 = 11;
    pub const COMPANY: i16 = 27;
    pub const BANK_INVESTMENT: i16 = 29;
    pub const PROPERTY_VAULT: i16 = 32;
    pub const DUKE_LOAN: i16 = 33;
    pub const DRUG_COOLDOWN: i16 = 53;
    pub const FEDDED: i16 = 70;
    pub const TRAVELLING: i16 = 71;
    pub const FACTION_LEADER: i16 = 74;
    pub const TERRITORY_WAR: i16 = 75;
    pub const FACTION_RECRUIT: i16 = 81;
    pub const STOCK_MARKET: i16 = 84;

    /// The icon whose number `parsed` is, as read from the text `suffix`.
    pub fn from_parsed(suffix: &str, parsed: Option<i16>) -> (r: Result<Icon, DecodeError>)
        ensures
            parsed matches Some(n) ==> r == Ok::<Icon, DecodeError>(Icon(n)),
            parsed is None ==> invalid_value(r, suffix@),
    {
        match parsed {
            Some(n) => Ok(Icon(n)),
            None => Err(DecodeError::InvalidValue(suffix.to_owned())),
        }
    }

    /// Reads an icon from its key in a profile's icon map, `icon` followed
    /// by the icon's number.
    pub fn from_name(s: &str) -> (r: Result<Icon, DecodeError>)
        ensures
            icon_suffix(s@) is None ==> invalid_value(r, s@),
            icon_suffix(s@) matches Some(t) ==> (parsed_i16(t) matches Some(n) ==> r == Ok::<
                Icon,
                DecodeError,
            >(Icon(n))),
            icon_suffix(s@) matches Some(t) ==> (parsed_i16(t) is None ==> invalid_value(r, t)),
    {
        let n = s.unicode_len();
        if n >= 4 && s.get_char(0) == 'i' && s.get_char(1) == 'c' && s.get_char(2) == 'o'
            && s.get_char(3) == 'n' {
            assert(s@.subrange(0, 4) =~= seq!['i', 'c', 'o', 'n']);
            let suffix = s.substring_char(4, n);
            Icon::from_parsed(suffix, parse_i16(suffix))
        } else {
            assert(n >= 4 ==> s@.subrange(0, 4)[0] == s@[0] && s@.subrange(0, 4)[1] == s@[1]
                && s@.subrange(0, 4)[2] == s@[2] && s@.subrange(0, 4)[3] == s@[3]);
            Err(DecodeError::InvalidValue(s.to_owned()))
        }
    }
}

} // verus!
