use torn_key_pool::user::{
    competition_from_fields, competition_name_from_str, elimination_team_from_str,
    faction_from_fields, Company, Competition, CompetitionName, DecodeError, EliminationTeam, Icon,
};

#[test]
fn not_in_faction() {
    let faction = faction_from_fields(
        Some(0),
        Some("None".to_string()),
        Some(0),
        Some("None".to_string()),
        None,
    )
    .unwrap();
    assert!(faction.is_none());
}

#[test]
fn faction_member() {
    let faction = faction_from_fields(
        Some(8151),
        Some("The Mob".to_string()),
        Some(120),
        Some("Member".to_string()),
        Some("MOB".to_string()),
    )
    .unwrap()
    .unwrap();
    assert_eq!(faction.faction_id, 8151);
    assert_eq!(faction.faction_name, "The Mob");
    assert_eq!(faction.faction_tag.as_deref(), Some("MOB"));
}

#[test]
fn faction_missing_field() {
    let r = faction_from_fields(Some(1), Some("X".to_string()), None, None, None);
    assert_eq!(r, Err(DecodeError::MissingField("days_in_faction".to_string())));
    let r = faction_from_fields(None, None, None, None, None);
    assert_eq!(r, Err(DecodeError::MissingField("faction_id".to_string())));
}

#[test]
fn fedded() {
    assert_eq!(Icon::from_name("icon70"), Ok(Icon(Icon::FEDDED)));
    assert_eq!(Icon::from_name("icon4"), Ok(Icon(Icon::SUBSCRIBER)));
}

#[test]
fn bad_icon_names() {
    assert_eq!(
        Icon::from_name("iconXX"),
        Err(DecodeError::InvalidValue("XX".to_string()))
    );
    assert_eq!(
        Icon::from_name("badge70"),
        Err(DecodeError::InvalidValue("badge70".to_string()))
    );
    assert_eq!(Icon::from_name("ico"), Err(DecodeError::InvalidValue("ico".to_string())));
    assert_eq!(
        Icon::from_parsed("12", None),
        Err(DecodeError::InvalidValue("12".to_string()))
    );
    assert_eq!(Icon::from_parsed("12", Some(12)), Ok(Icon(12)));
}

#[test]
fn team_names() {
    assert_eq!(elimination_team_from_str(""), Ok(None));
    assert_eq!(
        elimination_team_from_str("caps-lock-crew"),
        Ok(Some(EliminationTeam::CapsLockCrew))
    );
    assert_eq!(
        elimination_team_from_str("deaths-door"),
        Ok(Some(EliminationTeam::DeathsDoor))
    );
    assert_eq!(
        elimination_team_from_str("firestarters"),
        Err(DecodeError::UnknownVariant("firestarters".to_string()))
    );
}

#[test]
fn competition_names() {
    assert_eq!(competition_name_from_str("Elimination"), CompetitionName::Elimination);
    assert_eq!(competition_name_from_str("Dog Tags"), CompetitionName::DogTags);
    assert_eq!(competition_name_from_str("Easter Egg Hunt"), CompetitionName::Unknown);
}

#[test]
fn competition_entries() {
    let r = competition_from_fields(
        Some(CompetitionName::Elimination),
        Some(300),
        Some(12),
        Some(EliminationTeam::Cheese),
        None,
    );
    assert_eq!(
        r,
        Ok(Some(Competition::Elimination { score: 300, attacks: 12, team: EliminationTeam::Cheese }))
    );
    let r = competition_from_fields(Some(CompetitionName::Elimination), Some(1), None, None, None);
    assert_eq!(r, Ok(None));
    let r = competition_from_fields(
        Some(CompetitionName::Elimination),
        Some(1),
        None,
        Some(EliminationTeam::Hivemind),
        None,
    );
    assert_eq!(r, Err(DecodeError::MissingField("attacks".to_string())));
    let r = competition_from_fields(Some(CompetitionName::DogTags), Some(5), None, None, Some(None));
    assert_eq!(r, Ok(Some(Competition::DogTags { score: 5, position: None })));
    let r = competition_from_fields(Some(CompetitionName::DogTags), Some(5), None, None, None);
    assert_eq!(r, Err(DecodeError::MissingField("position".to_string())));
    let r = competition_from_fields(Some(CompetitionName::Unknown), None, None, None, None);
    assert_eq!(r, Ok(Some(Competition::Unknown)));
    let r = competition_from_fields(None, Some(5), None, None, None);
    assert_eq!(r, Err(DecodeError::MissingField("name".to_string())));
}

#[test]
fn company_fields() {
    assert_eq!(Company::from_fields(Some(0), None, None), Ok(Company::CityJob));
    assert_eq!(
        Company::from_fields(Some(42), Some("Pawn Shop".to_string()), Some(7)),
        Ok(Company::PlayerRun { name: "Pawn Shop".to_string(), id: 42, company_type: 7 })
    );
    assert_eq!(
        Company::from_fields(Some(42), Some("Pawn Shop".to_string()), None),
        Err(DecodeError::MissingField("company_type".to_string()))
    );
    assert_eq!(
        Company::from_fields(None, None, None),
        Err(DecodeError::MissingField("company_id".to_string()))
    );
}
