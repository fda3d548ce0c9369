use demoman::analyser::GameDetailsAnalyser;
use demoman::game::{Class, PlayerLifeState, Team};
use demoman::message::{
    EntityKind, GameEvent, Message, PacketEntity, PlayerDeathEvent, PlayerSpawnEvent, SendProp,
    SendPropValue, UserInfo,
};
use demoman::player::PlayerProp;
use demoman::props::{MedigunProp, PropTable, TeamProp};
use demoman::scoreboard::ScoreField;
use tf_demo_parser::demo::sendprop::SendPropIdentifier;

const PLAYER: u16 = 1;
const RESOURCE: u16 = 2;
const TEAM: u16 = 3;
const MEDIGUN: u16 = 4;
const RULES: u16 = 5;

fn id(table: &str, name: &str) -> u64 {
    u64::from(SendPropIdentifier::new(table, name))
}

fn integer(table: &str, name: &str, value: i64) -> SendProp {
    SendProp { identifier: id(table, name), value: SendPropValue::Integer(value) }
}

fn score(name: &str, value: i64) -> SendProp {
    integer("DT_TFPlayerScoringDataExclusive", name, value)
}

fn entity(server_class: u16, entity_index: u32, props: Vec<SendProp>) -> PacketEntity {
    PacketEntity { server_class, entity_index, props }
}

fn analyser() -> GameDetailsAnalyser {
    let mut analyser = GameDetailsAnalyser::new();
    analyser.handle_data_tables(
        ["CWorld", "CTFPlayer", "CTFPlayerResource", "CTFTeam", "CWeaponMedigun", "CTFGameRulesProxy"]
            .iter()
            .map(|name| name.to_string())
            .collect(),
    );
    for (user_id, entity_id, name) in [(7u16, 1u32, "Seven"), (8, 2, "Eight")] {
        analyser.handle_user_info(UserInfo {
            entity_id,
            name: name.to_string(),
            user_id,
            steam_id: format!("[U:1:{}]", user_id),
        });
    }
    analyser
}

fn update(analyser: &mut GameDetailsAnalyser, entities: Vec<PacketEntity>, tick: u32) {
    analyser.handle_message(&Message::PacketEntities { entities }, tick);
}

#[test]
fn object_kinds_come_from_the_class_table() {
    let analyser = analyser();
    assert_eq!(analyser.entity_kind(0), EntityKind::Other);
    assert_eq!(analyser.entity_kind(PLAYER), EntityKind::Player);
    assert_eq!(analyser.entity_kind(RESOURCE), EntityKind::PlayerResource);
    assert_eq!(analyser.entity_kind(TEAM), EntityKind::Team);
    assert_eq!(analyser.entity_kind(MEDIGUN), EntityKind::Medigun);
    assert_eq!(analyser.entity_kind(RULES), EntityKind::GameRules);
    assert_eq!(analyser.entity_kind(6), EntityKind::Other);
    assert_eq!(analyser.entity_kind(u16::MAX), EntityKind::Other);
    assert_eq!(GameDetailsAnalyser::new().entity_kind(1), EntityKind::Other);
}

#[test]
fn a_new_class_table_replaces_the_old_one() {
    let mut analyser = analyser();
    analyser.handle_data_tables(vec!["CTFTeam".to_string()]);
    assert_eq!(analyser.entity_kind(0), EntityKind::Team);
    assert_eq!(analyser.entity_kind(PLAYER), EntityKind::Other);
}

#[test]
fn properties_are_told_apart_by_their_identifier() {
    let table = PropTable::new();
    let expected = [
        ("DT_BasePlayer", "m_lifeState", PlayerProp::LifeState),
        ("DT_TFPlayerShared", "m_nPlayerCond", PlayerProp::PlayerCond),
        ("DT_TFPlayerShared", "m_nPlayerCondEx", PlayerProp::PlayerCondEx),
        ("DT_TFPlayerShared", "m_nPlayerCondEx2", PlayerProp::PlayerCondEx2),
        ("DT_TFPlayerShared", "m_nPlayerCondEx3", PlayerProp::PlayerCondEx3),
        ("DT_TFPlayerConditionListExclusive", "_condition_bits", PlayerProp::ConditionBits),
        ("DT_TFPlayerScoringDataExclusive", "m_iCaptures", PlayerProp::Score(ScoreField::Captures)),
        ("DT_TFPlayerScoringDataExclusive", "m_iDefenses", PlayerProp::Score(ScoreField::Defenses)),
        ("DT_TFPlayerScoringDataExclusive", "m_iKills", PlayerProp::Score(ScoreField::Kills)),
        ("DT_TFPlayerScoringDataExclusive", "m_iDeaths", PlayerProp::Score(ScoreField::Deaths)),
        (
            "DT_TFPlayerScoringDataExclusive",
            "m_iDominations",
            PlayerProp::Score(ScoreField::Dominations),
        ),
        ("DT_TFPlayerScoringDataExclusive", "m_iRevenge", PlayerProp::Score(ScoreField::Revenges)),
        (
            "DT_TFPlayerScoringDataExclusive",
            "m_iBuildingsDestroyed",
            PlayerProp::Score(ScoreField::BuildingsDestroyed),
        ),
        ("DT_TFPlayerScoringDataExclusive", "m_iHeadshots", PlayerProp::Score(ScoreField::Headshots)),
        ("DT_TFPlayerScoringDataExclusive", "m_iBackstabs", PlayerProp::Score(ScoreField::Backstabs)),
        ("DT_TFPlayerScoringDataExclusive", "m_iHealPoints", PlayerProp::Score(ScoreField::Healing)),
        ("DT_TFPlayerScoringDataExclusive", "m_iInvulns", PlayerProp::Score(ScoreField::Ubercharges)),
        ("DT_TFPlayerScoringDataExclusive", "m_iTeleports", PlayerProp::Score(ScoreField::Teleports)),
        (
            "DT_TFPlayerScoringDataExclusive",
            "m_iDamageDone",
            PlayerProp::Score(ScoreField::DamageDealt),
        ),
        (
            "DT_TFPlayerScoringDataExclusive",
            "m_iKillAssists",
            PlayerProp::Score(ScoreField::Assists),
        ),
        (
            "DT_TFPlayerScoringDataExclusive",
            "m_iBonusPoints",
            PlayerProp::Score(ScoreField::BonusPoints),
        ),
        ("DT_TFPlayerScoringDataExclusive", "m_iPoints", PlayerProp::Score(ScoreField::Points)),
    ];
    for (table_name, name, prop) in expected {
        assert_eq!(table.player_prop(id(table_name, name)), prop, "{}.{}", table_name, name);
    }
    assert_eq!(table.player_prop(id("DT_BasePlayer", "m_iHealth")), PlayerProp::Other);
    assert_eq!(table.player_prop(0), PlayerProp::Other);
    assert_eq!(table.player_prop(id("m_lifeState", "DT_BasePlayer")), PlayerProp::Other);

    assert_eq!(
        table.medigun_prop(id("DT_TFWeaponMedigunDataNonLocal", "m_flChargeLevel")),
        MedigunProp::Charge
    );
    assert_eq!(
        table.medigun_prop(id("DT_LocalTFWeaponMedigunData", "m_flChargeLevel")),
        MedigunProp::Charge
    );
    assert_eq!(table.medigun_prop(id("DT_BaseCombatWeapon", "m_hOwner")), MedigunProp::Owner);
    assert_eq!(table.medigun_prop(id("DT_BasePlayer", "m_lifeState")), MedigunProp::Other);
    assert_eq!(table.team_prop(id("DT_Team", "m_iTeamNum")), TeamProp::Number);
    assert_eq!(table.team_prop(id("DT_Team", "m_iScore")), TeamProp::Score);
    assert_eq!(table.team_prop(id("DT_Team", "m_iRoundsWon")), TeamProp::Other);
    assert!(table.is_teams_switched(id("DT_TFGameRules", "m_bTeamsSwitched")));
    assert!(!table.is_teams_switched(id("DT_TFGameRules", "m_bInSetup")));
}

#[test]
fn player_object_updates_scores_conditions_and_life() {
    let mut analyser = analyser();
    update(
        &mut analyser,
        vec![entity(
            PLAYER,
            1,
            vec![
                score("m_iKills", 2),
                score("m_iDeaths", 1),
                integer("DT_BasePlayer", "m_lifeState", 0),
                integer("DT_TFPlayerShared", "m_nPlayerCondEx2", 1 << 17),
                integer("DT_TFPlayerConditionListExclusive", "_condition_bits", 1 << 11),
                SendProp { identifier: id("DT_BasePlayer", "m_iHealth"), value: SendPropValue::Integer(125) },
                score("m_iKills", 3),
            ],
        )],
        60,
    );
    let player = &analyser.players.players[0];
    assert_eq!(player.scoreboard.kills, 3);
    assert_eq!(player.scoreboard.deaths, 1);
    assert_eq!(player.round_scoreboards.len(), 1);
    assert_eq!(player.round_scoreboards[&0].kills, 3);
    assert_eq!(player.life_state, PlayerLifeState::Alive);
    assert_eq!(player.last_spawn_tick, Some(60));
    assert!(player.has_cond(81));
    assert!(player.has_cond(11));
    assert_eq!(analyser.players.players[1].scoreboard.kills, 0);
    assert!(analyser.highlights.is_empty());
}

#[test]
fn value_that_is_no_integer_reads_as_zero() {
    let mut analyser = analyser();
    update(&mut analyser, vec![entity(PLAYER, 1, vec![score("m_iKills", 4)])], 1);
    update(
        &mut analyser,
        vec![entity(
            PLAYER,
            1,
            vec![
                SendProp {
                    identifier: id("DT_TFPlayerScoringDataExclusive", "m_iKills"),
                    value: SendPropValue::Other,
                },
                SendProp {
                    identifier: id("DT_TFPlayerShared", "m_nPlayerCond"),
                    value: SendPropValue::Hundredths(40),
                },
            ],
        )],
        2,
    );
    let player = &analyser.players.players[0];
    assert_eq!(player.scoreboard.kills, 4);
    assert_eq!(player.round_scoreboards[&0].kills, 0);
    assert_eq!(player.player_cond, 0);
}

#[test]
fn scores_across_rounds() {
    let mut analyser = analyser();
    update(&mut analyser, vec![entity(PLAYER, 1, vec![score("m_iKills", 2)])], 10);
    analyser.handle_message(
        &Message::GameEvent {
            event: GameEvent::TeamPlayRoundStalemate(demoman::message::TeamPlayRoundStalemateEvent {
                reason: 0,
            }),
        },
        20,
    );
    update(&mut analyser, vec![entity(PLAYER, 1, vec![score("m_iKills", 5)])], 30);
    update(&mut analyser, vec![entity(PLAYER, 1, vec![score("m_iKills", 3)])], 31);
    update(&mut analyser, vec![entity(PLAYER, 1, vec![score("m_iAssists", 9)])], 32);
    let player = &analyser.players.players[0];
    assert_eq!(player.scoreboard.kills, 5);
    assert_eq!(player.round_scoreboards.len(), 2);
    assert_eq!(player.round_scoreboards[&0].kills, 2);
    assert_eq!(player.round_scoreboards[&1].kills, 3);
    assert_eq!(player.scoreboard.assists, 0);
}

#[test]
fn object_of_an_unknown_player_changes_nothing() {
    let mut analyser = analyser();
    update(&mut analyser, vec![entity(PLAYER, 30, vec![score("m_iKills", 2)])], 10);
    update(&mut analyser, vec![entity(0, 1, vec![score("m_iKills", 2)])], 10);
    update(&mut analyser, vec![entity(77, 1, vec![score("m_iKills", 2)])], 10);
    assert_eq!(analyser.players.players[0].scoreboard.kills, 0);
    assert_eq!(analyser.players.players[1].scoreboard.kills, 0);
    assert!(analyser.initial_packet_entities_parsed);
}

#[test]
fn player_list_fills_in_team_and_class_once() {
    let mut analyser = analyser();
    update(
        &mut analyser,
        vec![entity(
            RESOURCE,
            50,
            vec![
                integer("m_iTeam", "001", 2),
                integer("m_iPlayerClass", "001", 5),
                integer("m_iTeam", "002", 3),
                integer("m_iTeam", "009", 3),
                integer("m_iHealth", "001", 150),
                integer("m_iPlayerClass", "002", 0),
            ],
        )],
        500,
    );
    let first = &analyser.players.players[0];
    assert_eq!((first.team, first.class, first.last_spawn_tick), (Team::Red, Class::Medic, Some(500)));
    let second = &analyser.players.players[1];
    assert_eq!((second.team, second.class, second.last_spawn_tick), (Team::Blue, Class::Other, Some(500)));

    // Later reports do not overrule what is known.
    update(
        &mut analyser,
        vec![entity(
            RESOURCE,
            50,
            vec![integer("m_iTeam", "001", 3), integer("m_iPlayerClass", "001", 1), integer("m_iPlayerClass", "002", 7)],
        )],
        600,
    );
    let first = &analyser.players.players[0];
    assert_eq!((first.team, first.class, first.last_spawn_tick), (Team::Red, Class::Medic, Some(500)));
    let second = &analyser.players.players[1];
    assert_eq!((second.team, second.class, second.last_spawn_tick), (Team::Blue, Class::Pyro, Some(500)));
}

#[test]
fn healing_device_charge_goes_to_its_owner() {
    let mut analyser = analyser();
    let charge = |hundredths: u8| SendProp {
        identifier: id("DT_TFWeaponMedigunDataNonLocal", "m_flChargeLevel"),
        value: SendPropValue::Hundredths(hundredths),
    };
    // No owner on record yet.
    update(&mut analyser, vec![entity(MEDIGUN, 300, vec![charge(50)])], 1);
    assert_eq!(analyser.players.players[1].charge, 0);
    update(
        &mut analyser,
        vec![entity(MEDIGUN, 300, vec![integer("DT_BaseCombatWeapon", "m_hOwner", 0x1234_02), charge(100)])],
        2,
    );
    assert_eq!(analyser.mediguns.len(), 1);
    assert_eq!(analyser.mediguns.get(&300), Some(&2));
    assert_eq!(analyser.players.players[1].charge, 100);
    assert_eq!(analyser.players.players[0].charge, 0);
    // The first owner stays.
    update(
        &mut analyser,
        vec![entity(MEDIGUN, 300, vec![integer("DT_BaseCombatWeapon", "m_hOwner", 1), charge(7)])],
        3,
    );
    assert_eq!(analyser.mediguns.len(), 1);
    assert_eq!(analyser.players.players[1].charge, 7);
    assert_eq!(analyser.players.players[0].charge, 0);
    // The local reading counts as well; a whole number reads as no charge.
    update(
        &mut analyser,
        vec![entity(
            MEDIGUN,
            300,
            vec![SendProp {
                identifier: id("DT_LocalTFWeaponMedigunData", "m_flChargeLevel"),
                value: SendPropValue::Hundredths(100),
            }],
        )],
        4,
    );
    assert_eq!(analyser.players.players[1].charge, 100);
    let mut drop = PlayerDeathEvent {
        user_id: 8,
        attacker: 7,
        assister: u16::MAX,
        weapon: "x".to_string(),
        damage_bits: 0,
        custom_kill: 0,
        player_penetrate_count: 0,
        kill_streak_total: 0,
        kill_streak_assist: 0,
        kill_streak_victim: 0,
    };
    analyser.handle_message(&Message::GameEvent { event: GameEvent::PlayerDeath(drop) }, 5);
    assert!(matches!(
        analyser.highlights[0].event,
        demoman::highlight::Highlight::Kill { drop: true, .. }
    ));
    update(
        &mut analyser,
        vec![entity(
            MEDIGUN,
            300,
            vec![SendProp {
                identifier: id("DT_LocalTFWeaponMedigunData", "m_flChargeLevel"),
                value: SendPropValue::Integer(1),
            }],
        )],
        6,
    );
    assert_eq!(analyser.players.players[1].charge, 0);
    drop = PlayerDeathEvent {
        user_id: 8,
        attacker: 7,
        assister: u16::MAX,
        weapon: "x".to_string(),
        damage_bits: 0,
        custom_kill: 0,
        player_penetrate_count: 0,
        kill_streak_total: 0,
        kill_streak_assist: 0,
        kill_streak_victim: 0,
    };
    analyser.handle_message(&Message::GameEvent { event: GameEvent::PlayerDeath(drop) }, 7);
    assert!(matches!(
        analyser.highlights[1].event,
        demoman::highlight::Highlight::Kill { drop: false, .. }
    ));
}

#[test]
fn team_objects_carry_the_scores() {
    let mut analyser = analyser();
    update(
        &mut analyser,
        vec![
            entity(TEAM, 40, vec![integer("DT_Team", "m_iTeamNum", 0)]),
            entity(TEAM, 41, vec![integer("DT_Team", "m_iTeamNum", 1)]),
            entity(TEAM, 42, vec![integer("DT_Team", "m_iTeamNum", 2), integer("DT_Team", "m_iScore", 1)]),
            entity(TEAM, 43, vec![integer("DT_Team", "m_iScore", 9), integer("DT_Team", "m_iTeamNum", 3)]),
        ],
        1,
    );
    assert_eq!((analyser.red_team_entity_id, analyser.blue_team_entity_id), (42, 43));
    assert_eq!((analyser.red_team_score, analyser.blue_team_score), (1, 0));
    update(
        &mut analyser,
        vec![
            entity(TEAM, 43, vec![integer("DT_Team", "m_iScore", 4)]),
            entity(TEAM, 41, vec![integer("DT_Team", "m_iScore", 8)]),
        ],
        2,
    );
    assert_eq!((analyser.red_team_score, analyser.blue_team_score), (1, 4));
    let summary = analyser.into_output();
    assert_eq!((summary.red_team_score, summary.blue_team_score), (1, 4));
}

#[test]
fn switched_sides_change_where_playtime_goes() {
    let mut analyser = analyser();
    update(
        &mut analyser,
        vec![entity(RULES, 60, vec![integer("DT_TFGameRules", "m_bTeamsSwitched", 1)])],
        0,
    );
    assert!(analyser.teams_switched);
    analyser.handle_message(
        &Message::GameEvent {
            event: GameEvent::PlayerSpawn(PlayerSpawnEvent { user_id: 7, team: 2, class: 1 }),
        },
        10,
    );
    analyser.handle_message(
        &Message::GameEvent {
            event: GameEvent::PlayerDisconnect(demoman::message::PlayerDisconnectEvent {
                user_id: 7,
                reason: String::new(),
            }),
        },
        25,
    );
    assert_eq!(analyser.players.players[0].time_on_team.0, [0, 0, 0, 15]);
    assert_eq!(analyser.players.players[0].team, Team::Red);
    update(
        &mut analyser,
        vec![entity(
            RULES,
            60,
            vec![integer("DT_TFGameRules", "m_bTeamsSwitched", 0), integer("DT_TFGameRules", "m_bInSetup", 1)],
        )],
        30,
    );
    assert!(!analyser.teams_switched);
}

#[test]
fn rows_of_the_player_list_are_decimal_numbers() {
    let mut analyser = analyser();
    // Rows that name no object index, or that of nobody, change nothing.
    for row in ["", "+", "-1", "1a", " 1", "4294967297", "0x1", "٣", "9"] {
        analyser.apply_listed("m_iTeam", row, 2);
    }
    assert_eq!(analyser.players.players[0].team, Team::Other);
    assert_eq!(analyser.players.players[0].last_spawn_tick, None);
    analyser.apply_listed("m_iTeam", "+1", 2);
    assert_eq!(analyser.players.players[0].team, Team::Red);
    analyser.apply_listed("m_iPlayerClass", "0000000002", 4);
    assert_eq!(analyser.players.players[1].class, Class::Demoman);
    assert_eq!(analyser.players.players[1].team, Team::Other);
    // Other columns are not read.
    analyser.apply_listed("m_iteam", "2", 3);
    analyser.apply_listed("m_iScore", "2", 3);
    assert_eq!(analyser.players.players[1].team, Team::Other);
    analyser.apply_listed("m_iTeam", "2", 77);
    assert_eq!(analyser.players.players[1].team, Team::Other);
    assert_eq!(analyser.players.players[1].last_spawn_tick, Some(0));
}

#[test]
fn readings_of_healing_devices_and_teams() {
    let mut analyser = analyser();
    analyser.apply_medigun_reading(90, MedigunProp::Owner, SendPropValue::Integer(257));
    assert_eq!(analyser.mediguns.get(&90), Some(&1));
    analyser.apply_medigun_reading(90, MedigunProp::Charge, SendPropValue::Hundredths(33));
    analyser.apply_medigun_reading(91, MedigunProp::Charge, SendPropValue::Hundredths(99));
    analyser.apply_medigun_reading(90, MedigunProp::Other, SendPropValue::Hundredths(1));
    assert_eq!(analyser.players.players[0].charge, 33);
    assert_eq!(analyser.players.players[1].charge, 0);
    analyser.apply_medigun_reading(91, MedigunProp::Owner, SendPropValue::Other);
    assert_eq!(analyser.mediguns.get(&91), Some(&0));
    assert_eq!(analyser.mediguns.len(), 2);
    assert_eq!(analyser.medigun_owner(90), Some(1));
    assert_eq!(analyser.medigun_owner(92), None);

    analyser.apply_team_reading(5, TeamProp::Number, 0x102);
    analyser.apply_team_reading(6, TeamProp::Number, 3);
    analyser.apply_team_reading(7, TeamProp::Number, 1);
    analyser.apply_team_reading(5, TeamProp::Score, 0x1_0000_0002);
    analyser.apply_team_reading(6, TeamProp::Score, -1);
    analyser.apply_team_reading(7, TeamProp::Score, 9);
    analyser.apply_team_reading(5, TeamProp::Other, 9);
    assert_eq!((analyser.red_team_entity_id, analyser.blue_team_entity_id), (5, 6));
    assert_eq!((analyser.red_team_score, analyser.blue_team_score), (2, u32::MAX));
}
