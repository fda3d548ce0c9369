use demoman::analyser::{does_handle, user_info_index, GameDetailsAnalyser};
use demoman::damage_flag::DamageFlag;
use demoman::game::{
    Class, PlayerLifeState, Team, TF_DMG_CUSTOM_BACKSTAB, TF_DMG_CUSTOM_BURNING,
    TF_DMG_CUSTOM_BURNING_ARROW, TF_DMG_CUSTOM_EYEBALL_ROCKET, TF_DMG_CUSTOM_FLYINGBURN,
    TF_DMG_CUSTOM_GIANT_HAMMER, TF_DMG_CUSTOM_HEADSHOT, TF_DMG_CUSTOM_HEADSHOT_DECAPITATION,
    TF_DMG_CUSTOM_KART, TF_DMG_CUSTOM_MERASMUS_DECAPITATION, TF_DMG_CUSTOM_MERASMUS_GRENADE,
    TF_DMG_CUSTOM_MERASMUS_ZAP, TF_DMG_CUSTOM_PUMPKIN_BOMB, TF_DMG_CUSTOM_SPELL_SKELETON,
    TF_DMG_CUSTOM_SUICIDE, TF_WEAPON_CANNON, TF_WEAPON_CROSSBOW, TF_WEAPON_GRENADELAUNCHER,
    TF_WEAPON_PARTICLE_CANNON, TF_WEAPON_ROCKETLAUNCHER, TF_WEAPON_ROCKETLAUNCHER_DIRECTHIT,
};
use demoman::highlight::Highlight;
use demoman::kill::{airshot_weapon, kill_icon, killer_name_override};
use demoman::message::{
    CrossbowHealEvent, GameEvent, HudTextLocation, Message, PlayerConnectClientEvent,
    PlayerDeathEvent, PlayerDisconnectEvent, PlayerHurtEvent, PlayerSpawnEvent, PlayerTeamEvent,
    TeamPlayPointCapturedEvent, TeamPlayRoundStalemateEvent, TeamPlayRoundStartEvent,
    TeamPlayRoundWinEvent, UserInfo, UserMessage,
};

fn death(victim: u16, attacker: u16, weapon: &str) -> PlayerDeathEvent {
    PlayerDeathEvent {
        user_id: victim,
        attacker,
        assister: u16::MAX,
        weapon: weapon.to_string(),
        damage_bits: 0,
        custom_kill: 0,
        player_penetrate_count: 0,
        kill_streak_total: 0,
        kill_streak_assist: 0,
        kill_streak_victim: 0,
    }
}

fn icon(victim: u16, attacker: u16, weapon: &str, custom_kill: u16, damage_bits: u32) -> String {
    let mut event = death(victim, attacker, weapon);
    event.custom_kill = custom_kill;
    event.damage_bits = damage_bits;
    kill_icon(&event)
}

fn join(analyser: &mut GameDetailsAnalyser, user_id: u16, entity_id: u32, name: &str, steam: &str) {
    analyser.handle_user_info(UserInfo {
        entity_id,
        name: name.to_string(),
        user_id,
        steam_id: steam.to_string(),
    });
}

/// An analyser that has seen its first object updates, with two players.
fn started() -> GameDetailsAnalyser {
    let mut analyser = GameDetailsAnalyser::new();
    join(&mut analyser, 7, 1, "Seven", "[U:1:7]");
    join(&mut analyser, 8, 2, "Eight", "[U:1:8]");
    analyser.handle_message(&Message::PacketEntities { entities: Vec::new() }, 0);
    analyser
}

fn event(analyser: &mut GameDetailsAnalyser, event: GameEvent, tick: u32) {
    analyser.handle_message(&Message::GameEvent { event }, tick);
}

fn spawn(analyser: &mut GameDetailsAnalyser, user_id: u16, team: u16, class: u16, tick: u32) {
    event(analyser, GameEvent::PlayerSpawn(PlayerSpawnEvent { user_id, team, class }), tick);
}

#[test]
fn fall_to_death_is_one_kill_and_ends_the_life() {
    let mut analyser = GameDetailsAnalyser::new();
    join(&mut analyser, 7, 1, "Seven", "[U:1:7]");
    analyser.handle_message(&Message::PacketEntities { entities: Vec::new() }, 0);
    spawn(&mut analyser, 7, 2, 1, 100);
    let mut fall = death(7, 0, "world");
    fall.damage_bits = DamageFlag::DMG_FALL.bitmask();
    event(&mut analyser, GameEvent::PlayerDeath(fall), 250);

    assert_eq!(analyser.highlights.len(), 1);
    assert_eq!(analyser.highlights[0].tick, 250);
    match &analyser.highlights[0].event {
        Highlight::Kill { killer, assister, victim, weapon, kill_icon, streak, drop, airshot } => {
            assert_eq!(kill_icon, "#fall");
            assert_eq!(weapon, "world");
            assert_eq!(killer.user_id, 0);
            assert_eq!(killer.name, "<world>");
            assert_eq!(killer.team, Team::Other);
            assert!(assister.is_none());
            assert_eq!(victim.user_id, 7);
            assert_eq!(victim.name, "Seven");
            assert_eq!(victim.team, Team::Red);
            assert_eq!(*streak, 0);
            assert!(!*drop);
            assert!(!*airshot);
        },
        other => panic!("not a kill: {:?}", other),
    }
    let player = analyser.players.get(7).unwrap();
    assert_eq!(player.class, Class::Scout);
    assert_eq!(player.time_on_class.0, [0, 150, 0, 0, 0, 0, 0, 0, 0, 0]);
    assert_eq!(player.time_on_team.0, [0, 0, 150, 0]);
    assert_eq!(player.last_spawn_tick, None);

    let summary = analyser.into_output();
    assert_eq!(summary.players.len(), 1);
    assert_eq!(summary.players[0].time_on_class, [150, 0, 0, 0, 0, 0, 0, 0, 0]);
    assert_eq!(summary.players[0].time_on_team, [150, 0]);
    assert_eq!(summary.highlights.len(), 1);
}

#[test]
fn round_win_counts_a_life_once_even_with_a_death_in_the_same_tick() {
    let mut analyser = started();
    spawn(&mut analyser, 7, 3, 5, 100);
    analyser.players.players[0].life_state = PlayerLifeState::Alive;
    event(
        &mut analyser,
        GameEvent::TeamPlayRoundWin(TeamPlayRoundWinEvent { team: 3, win_reason: 1 }),
        400,
    );
    assert_eq!(analyser.current_round, 1);
    assert_eq!(analyser.players.players[0].time_on_class.0[5], 300);
    assert_eq!(analyser.players.players[0].time_on_team.0, [0, 0, 0, 300]);
    assert_eq!(analyser.players.players[0].last_spawn_tick, None);
    event(&mut analyser, GameEvent::PlayerDeath(death(7, 8, "scattergun")), 400);
    assert_eq!(analyser.players.players[0].time_on_class.0, [0, 0, 0, 0, 0, 300, 0, 0, 0, 0]);
    assert_eq!(analyser.players.players[0].time_on_team.0, [0, 0, 0, 300]);
    let summary = analyser.into_output();
    assert_eq!(summary.players[0].time_on_class[4], 300);
    assert_eq!(summary.num_rounds, 1);
}

#[test]
fn round_end_leaves_the_dead_alone() {
    let mut analyser = started();
    spawn(&mut analyser, 7, 2, 1, 10);
    spawn(&mut analyser, 8, 3, 1, 10);
    analyser.players.players[0].life_state = PlayerLifeState::Alive;
    analyser.players.players[1].life_state = PlayerLifeState::Death;
    event(
        &mut analyser,
        GameEvent::TeamPlayRoundStalemate(TeamPlayRoundStalemateEvent { reason: 2 }),
        50,
    );
    assert_eq!(analyser.current_round, 1);
    assert_eq!(analyser.players.players[0].time_on_class.0[1], 40);
    assert_eq!(analyser.players.players[1].time_on_class.0[1], 0);
    assert_eq!(analyser.players.players[1].last_spawn_tick, Some(10));
    assert!(matches!(analyser.highlights[0].event, Highlight::RoundStalemate { reason: 2 }));
}

#[test]
fn events_before_the_first_object_updates_are_left_out() {
    let mut analyser = GameDetailsAnalyser::new();
    join(&mut analyser, 7, 1, "Seven", "[U:1:7]");
    spawn(&mut analyser, 7, 2, 1, 100);
    event(&mut analyser, GameEvent::PlayerDeath(death(7, 0, "world")), 120);
    assert!(analyser.highlights.is_empty());
    assert_eq!(analyser.players.players[0].class, Class::Other);
    assert_eq!(analyser.players.players[0].last_spawn_tick, None);
    assert_eq!(analyser.demo_tick, 120);
    assert!(!analyser.initial_packet_entities_parsed);
    analyser.handle_message(&Message::PacketEntities { entities: Vec::new() }, 130);
    assert!(analyser.initial_packet_entities_parsed);
    spawn(&mut analyser, 7, 2, 1, 140);
    assert_eq!(analyser.players.players[0].class, Class::Scout);
}

#[test]
fn timeline_follows_the_ticks() {
    let mut analyser = started();
    analyser.handle_message(&Message::SetPause { pause: true }, 5);
    event(
        &mut analyser,
        GameEvent::TeamPlayRoundStart(TeamPlayRoundStartEvent { full_reset: true }),
        5,
    );
    event(&mut analyser, GameEvent::PlayerDeath(death(7, 8, "knife")), 9);
    analyser.handle_message(&Message::SetPause { pause: false }, 30);
    let ticks: Vec<u32> = analyser.highlights.iter().map(|highlight| highlight.tick).collect();
    assert_eq!(ticks, vec![5, 5, 9, 30]);
    assert!(matches!(analyser.highlights[0].event, Highlight::Pause { pause: true }));
    assert!(matches!(analyser.highlights[1].event, Highlight::RoundStart { full_reset: true }));
    assert!(matches!(analyser.highlights[3].event, Highlight::Pause { pause: false }));
    let summary = analyser.into_output();
    for pair in summary.highlights.windows(2) {
        assert!(pair[0].tick <= pair[1].tick);
    }
}

#[test]
fn kill_icon_follows_the_custom_damage() {
    assert_eq!(icon(1, 2, "knife", 0, 0), "knife");
    assert_eq!(icon(1, 2, "knife", TF_DMG_CUSTOM_BACKSTAB, 0), "backstab");
    assert_eq!(icon(1, 2, "sharp_dresser", TF_DMG_CUSTOM_BACKSTAB, 0), "sharp_dresser_backstab");
    assert_eq!(icon(1, 2, "sniperrifle", TF_DMG_CUSTOM_HEADSHOT, 0), "headshot");
    assert_eq!(icon(1, 2, "ambassador", TF_DMG_CUSTOM_HEADSHOT, 0), "ambassador_headshot");
    assert_eq!(icon(1, 2, "huntsman", TF_DMG_CUSTOM_HEADSHOT, 0), "huntsman_headshot");
    assert_eq!(icon(1, 2, "huntsman", TF_DMG_CUSTOM_HEADSHOT_DECAPITATION, 0), "huntsman_headshot");
    assert_eq!(icon(1, 2, "bazaar", TF_DMG_CUSTOM_HEADSHOT_DECAPITATION, 0), "headshot");
    let mut through = death(1, 2, "machina");
    through.custom_kill = TF_DMG_CUSTOM_HEADSHOT;
    through.player_penetrate_count = 1;
    assert_eq!(kill_icon(&through), "headshot_player_penetration");
    through.weapon = "ambassador".to_string();
    assert_eq!(kill_icon(&through), "ambassador_headshot");
    assert_eq!(icon(1, 2, "flamethrower", TF_DMG_CUSTOM_BURNING, 0), "flamethrower");
    assert_eq!(icon(1, 1, "flamethrower", TF_DMG_CUSTOM_BURNING, 0), "firedeath");
    assert_eq!(icon(1, 2, "huntsman", TF_DMG_CUSTOM_BURNING_ARROW, 0), "huntsman_burning");
    assert_eq!(icon(1, 2, "huntsman", TF_DMG_CUSTOM_FLYINGBURN, 0), "huntsman_flyingburn");
    assert_eq!(icon(1, 2, "x", TF_DMG_CUSTOM_PUMPKIN_BOMB, 0), "pumpkindeath");
    assert_eq!(icon(1, 1, "world", TF_DMG_CUSTOM_SUICIDE, 0), "#suicide");
    assert_eq!(icon(1, 2, "world", TF_DMG_CUSTOM_SUICIDE, 0), "#assisted_suicide");
    assert_eq!(icon(1, 2, "x", TF_DMG_CUSTOM_KART, 0), "bumper_kart");
    assert_eq!(icon(1, 2, "x", TF_DMG_CUSTOM_GIANT_HAMMER, 0), "necro_smasher");
    assert_eq!(icon(1, 0, "eyeball_rocket", TF_DMG_CUSTOM_EYEBALL_ROCKET, 0), "eyeball_rocket");
    assert_eq!(icon(1, 2, "x", 4, 0), "x");
    assert_eq!(icon(1, 2, "x", 9999, 0), "x");
}

#[test]
fn kill_icon_of_a_death_without_a_killer_follows_the_damage_word() {
    let fall = DamageFlag::DMG_FALL.bitmask();
    let saw = DamageFlag::DMG_NERVEGAS.bitmask();
    let vehicle = DamageFlag::DMG_VEHICLE.bitmask();
    assert_eq!(icon(1, 0, "world", 0, fall), "#fall");
    assert_eq!(icon(1, 1, "world", 0, fall), "#fall");
    assert_eq!(icon(1, 0, "world", 0, saw), "saw_kill");
    assert_eq!(icon(1, 0, "world", 0, vehicle), "vehicle");
    assert_eq!(icon(1, 0, "world", 0, fall | saw), "saw_kill");
    assert_eq!(icon(1, 0, "world", 0, fall | saw | vehicle), "vehicle");
    assert_eq!(icon(1, 0, "world", 0, fall | vehicle), "vehicle");
    assert_eq!(icon(1, 1, "world", TF_DMG_CUSTOM_SUICIDE, fall), "#fall");
    assert_eq!(icon(1, 0, "world", 0, DamageFlag::DMG_BLAST.bitmask()), "world");
    // Somebody else made the kill: the damage word is left out.
    assert_eq!(icon(1, 2, "rocket", 0, fall | saw | vehicle), "rocket");
    assert_eq!(icon(1, 2, "world", TF_DMG_CUSTOM_SUICIDE, fall), "#assisted_suicide");
}

#[test]
fn bosses_give_their_name_to_a_killer_without_a_user_id() {
    let named = |custom_kill: u16, attacker: u16| {
        let mut event = death(1, attacker, "x");
        event.custom_kill = custom_kill;
        killer_name_override(&event)
    };
    assert_eq!(named(TF_DMG_CUSTOM_EYEBALL_ROCKET, 0).as_deref(), Some("MONOCULUS!"));
    assert_eq!(named(TF_DMG_CUSTOM_MERASMUS_ZAP, 0).as_deref(), Some("MERASMUS!"));
    assert_eq!(named(TF_DMG_CUSTOM_MERASMUS_GRENADE, 0).as_deref(), Some("MERASMUS!"));
    assert_eq!(named(TF_DMG_CUSTOM_MERASMUS_DECAPITATION, 0).as_deref(), Some("MERASMUS!"));
    assert_eq!(named(TF_DMG_CUSTOM_SPELL_SKELETON, 0).as_deref(), Some("SKELETON"));
    assert_eq!(named(TF_DMG_CUSTOM_EYEBALL_ROCKET, 3), None);
    assert_eq!(named(TF_DMG_CUSTOM_BACKSTAB, 0), None);
    assert_eq!(named(0, 0), None);

    let mut analyser = started();
    let mut event_ = death(7, 0, "merasmus_zap");
    event_.custom_kill = TF_DMG_CUSTOM_MERASMUS_ZAP;
    event_.kill_streak_total = 5;
    event(&mut analyser, GameEvent::PlayerDeath(event_), 10);
    assert_eq!(analyser.highlights.len(), 2);
    match &analyser.highlights[0].event {
        Highlight::Kill { killer, .. } => {
            assert_eq!(killer.name, "MERASMUS!");
            assert_eq!(killer.user_id, 0);
        },
        other => panic!("not a kill: {:?}", other),
    }
    // The streak is shown under the killer's own name.
    match &analyser.highlights[1].event {
        Highlight::KillStreak { player, streak } => {
            assert_eq!(player.name, "<world>");
            assert_eq!(*streak, 5);
        },
        other => panic!("not a streak: {:?}", other),
    }
}

#[test]
fn kill_with_assist_streaks_and_ended_streak() {
    let mut analyser = started();
    join(&mut analyser, 9, 3, "Nine", "[U:1:9]");
    analyser.players.players[0].team = Team::Red;
    analyser.players.players[1].team = Team::Blue;
    analyser.players.players[2].team = Team::Blue;
    let mut kill = death(7, 8, "scattergun");
    kill.assister = 9;
    kill.kill_streak_total = 10;
    kill.kill_streak_assist = 5;
    kill.kill_streak_victim = 12;
    event(&mut analyser, GameEvent::PlayerDeath(kill), 77);
    assert_eq!(analyser.highlights.len(), 4);
    for highlight in analyser.highlights.iter() {
        assert_eq!(highlight.tick, 77);
    }
    match &analyser.highlights[0].event {
        Highlight::Kill { killer, assister, victim, weapon, kill_icon, streak, drop, airshot } => {
            assert_eq!((killer.user_id, killer.name.as_str(), killer.team), (8, "Eight", Team::Blue));
            let assister = assister.as_ref().unwrap();
            assert_eq!((assister.user_id, assister.name.as_str()), (9, "Nine"));
            assert_eq!((victim.user_id, victim.name.as_str(), victim.team), (7, "Seven", Team::Red));
            assert_eq!(weapon, "scattergun");
            assert_eq!(kill_icon, "scattergun");
            assert_eq!(*streak, 10);
            assert!(!*drop && !*airshot);
        },
        other => panic!("not a kill: {:?}", other),
    }
    match &analyser.highlights[1].event {
        Highlight::KillStreak { player, streak } => {
            assert_eq!((player.user_id, *streak), (8, 10));
        },
        other => panic!("not a streak: {:?}", other),
    }
    match &analyser.highlights[2].event {
        Highlight::KillStreak { player, streak } => {
            assert_eq!((player.user_id, *streak), (9, 5));
        },
        other => panic!("not a streak: {:?}", other),
    }
    match &analyser.highlights[3].event {
        Highlight::KillStreakEnded { killer, victim, streak } => {
            assert_eq!((killer.user_id, victim.user_id, *streak), (8, 7, 12));
        },
        other => panic!("not an ended streak: {:?}", other),
    }
}

#[test]
fn streaks_that_are_no_multiple_of_five_make_no_highlight() {
    let mut analyser = started();
    let mut kill = death(7, 8, "x");
    kill.assister = 55;
    kill.kill_streak_total = 4;
    kill.kill_streak_assist = 5;
    kill.kill_streak_victim = 9;
    event(&mut analyser, GameEvent::PlayerDeath(kill), 1);
    // The assisting player is unknown: no streak for them either.
    assert_eq!(analyser.highlights.len(), 1);
    match &analyser.highlights[0].event {
        Highlight::Kill { assister, .. } => {
            let assister = assister.as_ref().unwrap();
            assert_eq!((assister.user_id, assister.name.as_str()), (55, "<unknown>"));
        },
        other => panic!("not a kill: {:?}", other),
    }
    let mut kill = death(7, 8, "x");
    kill.kill_streak_assist = 10;
    kill.kill_streak_total = 6;
    event(&mut analyser, GameEvent::PlayerDeath(kill), 2);
    assert_eq!(analyser.highlights.len(), 2);
}

#[test]
fn drop_and_airshot_are_read_from_the_victim() {
    let mut analyser = started();
    analyser.players.players[0].charge = 100;
    analyser.players.players[0].player_cond_ex2 = 1 << 17;
    event(&mut analyser, GameEvent::PlayerDeath(death(7, 8, "rocket")), 1);
    analyser.players.players[0].charge = 99;
    analyser.players.players[0].player_cond_ex2 = 0;
    event(&mut analyser, GameEvent::PlayerDeath(death(7, 8, "rocket")), 2);
    event(&mut analyser, GameEvent::PlayerDeath(death(70, 8, "rocket")), 3);
    let read = |i: usize| match &analyser.highlights[i].event {
        Highlight::Kill { drop, airshot, .. } => (*drop, *airshot),
        other => panic!("not a kill: {:?}", other),
    };
    assert_eq!(read(0), (true, true));
    assert_eq!(read(1), (false, false));
    assert_eq!(read(2), (false, false));
}

fn hurt(victim: u16, attacker: u16, weapon_id: u16) -> GameEvent {
    GameEvent::PlayerHurt(PlayerHurtEvent { user_id: victim, attacker, weapon_id })
}

#[test]
fn airshot_needs_an_airborne_victim_and_a_fitting_weapon() {
    let mut analyser = started();
    analyser.handle_header("");
    assert!(analyser.is_stv);
    analyser.players.players[0].player_cond_ex2 = 1 << 17;
    event(&mut analyser, hurt(7, 8, TF_WEAPON_ROCKETLAUNCHER), 1);
    assert_eq!(analyser.highlights.len(), 1);
    match &analyser.highlights[0].event {
        Highlight::Airshot { attacker, victim } => {
            assert_eq!((attacker.user_id, victim.user_id), (8, 7));
        },
        other => panic!("not an airshot: {:?}", other),
    }
    // Hitting oneself, an unknown victim, a victim on the ground, another weapon.
    event(&mut analyser, hurt(7, 7, TF_WEAPON_ROCKETLAUNCHER), 2);
    event(&mut analyser, hurt(70, 8, TF_WEAPON_ROCKETLAUNCHER), 2);
    event(&mut analyser, hurt(8, 7, TF_WEAPON_ROCKETLAUNCHER), 2);
    event(&mut analyser, hurt(7, 8, 16), 2);
    assert_eq!(analyser.highlights.len(), 1);
    // An unknown attacker still counts in a recording that shows everybody.
    event(&mut analyser, hurt(7, 80, TF_WEAPON_CROSSBOW), 3);
    assert_eq!(analyser.highlights.len(), 2);
}

#[test]
fn airshot_weapons() {
    for weapon_id in 0..200u16 {
        let expected = weapon_id == TF_WEAPON_ROCKETLAUNCHER
            || weapon_id == TF_WEAPON_ROCKETLAUNCHER_DIRECTHIT
            || weapon_id == TF_WEAPON_PARTICLE_CANNON
            || weapon_id == TF_WEAPON_GRENADELAUNCHER
            || weapon_id == TF_WEAPON_CANNON
            || weapon_id == TF_WEAPON_CROSSBOW;
        assert_eq!(airshot_weapon(weapon_id), expected);
    }
    assert!(airshot_weapon(22) && airshot_weapon(23) && airshot_weapon(65));
    assert!(airshot_weapon(73) && airshot_weapon(79) && airshot_weapon(91));
}

#[test]
fn recording_of_a_player_shows_their_airshots_only() {
    let mut analyser = started();
    analyser.handle_header("127.0.0.1:27015");
    assert!(!analyser.is_stv);
    analyser.handle_message(&Message::ServerInfo { player_slot: 1, interval_per_tick: 0x3c75c28f }, 0);
    assert_eq!(analyser.local_entity_id, 2);
    assert_eq!(analyser.interval_per_tick, 0x3c75c28f);
    analyser.players.players[0].player_cond_ex2 = 1 << 17;
    analyser.players.players[1].player_cond_ex2 = 1 << 17;
    event(&mut analyser, hurt(8, 7, TF_WEAPON_GRENADELAUNCHER), 1);
    assert!(analyser.highlights.is_empty());
    event(&mut analyser, hurt(7, 8, TF_WEAPON_GRENADELAUNCHER), 1);
    assert_eq!(analyser.highlights.len(), 1);
    let summary = analyser.into_output();
    assert_eq!(summary.local_user_id, 8);
    assert_eq!(summary.interval_per_tick, 0x3c75c28f);
}

#[test]
fn crossbow_heal_of_an_airborne_target() {
    let mut analyser = started();
    event(&mut analyser, GameEvent::CrossbowHeal(CrossbowHealEvent { healer: 8, target: 7 }), 1);
    assert!(analyser.highlights.is_empty());
    analyser.players.players[0].player_cond_ex2 = 1 << 17;
    event(&mut analyser, GameEvent::CrossbowHeal(CrossbowHealEvent { healer: 8, target: 7 }), 2);
    event(&mut analyser, GameEvent::CrossbowHeal(CrossbowHealEvent { healer: 8, target: 70 }), 2);
    assert_eq!(analyser.highlights.len(), 1);
    match &analyser.highlights[0].event {
        Highlight::CrossbowAirshot { healer, target } => {
            assert_eq!((healer.user_id, target.user_id), (8, 7));
        },
        other => panic!("not a crossbow airshot: {:?}", other),
    }
}

#[test]
fn team_change_is_shown_with_the_new_team() {
    let mut analyser = started();
    let change = |team: u8| {
        GameEvent::PlayerTeam(PlayerTeamEvent { user_id: 7, team, name: "Seven".to_string() })
    };
    event(&mut analyser, change(0), 1);
    event(&mut analyser, change(4), 1);
    event(&mut analyser, change(200), 1);
    assert!(analyser.highlights.is_empty());
    event(&mut analyser, change(3), 2);
    event(&mut analyser, change(1), 3);
    assert_eq!(analyser.highlights.len(), 2);
    match &analyser.highlights[0].event {
        Highlight::PlayerTeamChange { player, team } => {
            assert_eq!((player.user_id, player.name.as_str(), player.team), (7, "Seven", Team::Blue));
            assert_eq!(*team, Team::Blue);
        },
        other => panic!("not a team change: {:?}", other),
    }
    assert!(matches!(
        analyser.highlights[1].event,
        Highlight::PlayerTeamChange { team: Team::Spectator, .. }
    ));
    // The roster itself learns of teams from spawns.
    assert_eq!(analyser.players.players[0].team, Team::Other);
}

#[test]
fn round_win_of_a_playing_team_or_of_nobody() {
    let mut analyser = started();
    let win = |team: u8| GameEvent::TeamPlayRoundWin(TeamPlayRoundWinEvent { team, win_reason: 6 });
    event(&mut analyser, win(2), 1);
    event(&mut analyser, win(3), 2);
    event(&mut analyser, win(0), 3);
    event(&mut analyser, win(1), 4);
    event(&mut analyser, win(9), 5);
    assert_eq!(analyser.current_round, 5);
    assert!(matches!(analyser.highlights[0].event, Highlight::RoundWin { winner: Team::Red }));
    assert!(matches!(analyser.highlights[1].event, Highlight::RoundWin { winner: Team::Blue }));
    for i in 2..5 {
        assert!(matches!(analyser.highlights[i].event, Highlight::RoundStalemate { reason: 6 }));
    }
}

#[test]
fn connect_and_disconnect() {
    let mut analyser = started();
    spawn(&mut analyser, 7, 2, 3, 10);
    event(
        &mut analyser,
        GameEvent::PlayerConnectClient(PlayerConnectClientEvent {
            name: "New".to_string(),
            user_id: 30,
        }),
        20,
    );
    event(
        &mut analyser,
        GameEvent::PlayerDisconnect(PlayerDisconnectEvent {
            user_id: 7,
            reason: "Disconnect by user.".to_string(),
        }),
        25,
    );
    event(
        &mut analyser,
        GameEvent::PlayerDisconnect(PlayerDisconnectEvent { user_id: 99, reason: "x".to_string() }),
        26,
    );
    assert_eq!(analyser.highlights.len(), 3);
    match &analyser.highlights[0].event {
        Highlight::PlayerConnected { player } => {
            assert_eq!((player.user_id, player.name.as_str(), player.team), (30, "New", Team::Other));
        },
        other => panic!("not a connect: {:?}", other),
    }
    match &analyser.highlights[1].event {
        Highlight::PlayerDisconnected { player, reason } => {
            assert_eq!((player.user_id, player.name.as_str(), player.team), (7, "Seven", Team::Red));
            assert_eq!(reason, "Disconnect by user.");
        },
        other => panic!("not a disconnect: {:?}", other),
    }
    match &analyser.highlights[2].event {
        Highlight::PlayerDisconnected { player, .. } => {
            assert_eq!((player.user_id, player.name.as_str()), (99, "<unknown>"));
        },
        other => panic!("not a disconnect: {:?}", other),
    }
    assert_eq!(analyser.players.players[0].time_on_class.0[3], 15);
    assert_eq!(analyser.players.players[0].last_spawn_tick, None);
    // A connect alone puts nobody on the roster.
    assert!(analyser.players.get(30).is_none());
}

#[test]
fn point_capture_lists_the_known_cappers_in_order() {
    let mut analyser = started();
    analyser.players.players[1].team = Team::Blue;
    event(
        &mut analyser,
        GameEvent::TeamPlayPointCaptured(TeamPlayPointCapturedEvent {
            cp_name: "#koth_viaduct_cap".to_string(),
            team: 3,
            cappers: vec![2, 9, 1, 2],
        }),
        40,
    );
    match &analyser.highlights[0].event {
        Highlight::PointCaptured { point_name, capturing_team, cappers } => {
            assert_eq!(point_name, "#koth_viaduct_cap");
            assert_eq!(*capturing_team, 3);
            let ids: Vec<u16> = cappers.iter().map(|capper| capper.user_id).collect();
            assert_eq!(ids, vec![8, 7, 8]);
            assert_eq!(cappers[0].team, Team::Blue);
            assert_eq!(cappers[1].name, "Seven");
        },
        other => panic!("not a capture: {:?}", other),
    }
    event(
        &mut analyser,
        GameEvent::TeamPlayPointCaptured(TeamPlayPointCapturedEvent {
            cp_name: String::new(),
            team: 2,
            cappers: vec![50, 51],
        }),
        41,
    );
    match &analyser.highlights[1].event {
        Highlight::PointCaptured { cappers, .. } => assert!(cappers.is_empty()),
        other => panic!("not a capture: {:?}", other),
    }
}

#[test]
fn chat_and_server_text() {
    let mut analyser = started();
    let say = |client: u32, text: &str| {
        Message::UserMessage(UserMessage::SayText2 { client, text: text.to_string() })
    };
    let print = |location: HudTextLocation, text: &str| {
        Message::UserMessage(UserMessage::Text { location, text: text.to_string() })
    };
    analyser.handle_message(&say(2, "gg"), 3);
    analyser.handle_message(&say(40, "who"), 4);
    analyser.handle_message(&print(HudTextLocation::PrintTalk, "server says"), 5);
    analyser.handle_message(&print(HudTextLocation::PrintCenter, "hidden"), 6);
    analyser.handle_message(&print(HudTextLocation::PrintConsole, "hidden"), 6);
    analyser.handle_message(&print(HudTextLocation::PrintNotify, "hidden"), 6);
    analyser.handle_message(&Message::UserMessage(UserMessage::Other), 7);
    analyser.handle_message(&Message::Other, 8);
    assert_eq!(analyser.highlights.len(), 3);
    match &analyser.highlights[0].event {
        Highlight::ChatMessage { sender, text } => {
            assert_eq!((sender.user_id, sender.name.as_str(), text.as_str()), (8, "Eight", "gg"));
        },
        other => panic!("not chat: {:?}", other),
    }
    match &analyser.highlights[1].event {
        Highlight::ChatMessage { sender, text } => {
            assert_eq!((sender.user_id, sender.name.as_str(), text.as_str()), (0, "<unknown>", "who"));
        },
        other => panic!("not chat: {:?}", other),
    }
    match &analyser.highlights[2].event {
        Highlight::Message { text } => assert_eq!(text, "server says"),
        other => panic!("not a message: {:?}", other),
    }
    assert_eq!(analyser.demo_tick, 8);
}

#[test]
fn net_tick_and_server_info_leave_the_timeline_alone() {
    let mut analyser = GameDetailsAnalyser::new();
    analyser.handle_message(&Message::NetTick { tick: 9000 }, 4);
    assert_eq!(analyser.server_tick, 9000);
    assert_eq!(analyser.demo_tick, 4);
    analyser.handle_message(&Message::ServerInfo { player_slot: 255, interval_per_tick: 1 }, 4);
    assert_eq!(analyser.local_entity_id, 256);
    assert!(analyser.highlights.is_empty());
    let summary = analyser.into_output();
    assert_eq!(summary.local_user_id, 0);
    assert!(summary.players.is_empty());
    assert!(summary.aliases.is_empty());
    assert_eq!(summary.num_rounds, 0);
    assert_eq!((summary.red_team_score, summary.blue_team_score), (0, 0));
}

#[test]
fn spawn_sets_class_and_team_and_begins_a_life() {
    let mut analyser = started();
    spawn(&mut analyser, 8, 3, 9, 33);
    spawn(&mut analyser, 80, 3, 9, 33);
    let player = analyser.players.get(8).unwrap();
    assert_eq!(player.class, Class::Engineer);
    assert_eq!(player.team, Team::Blue);
    assert_eq!(player.last_spawn_tick, Some(33));
    assert_eq!(analyser.players.players.len(), 2);
    // A second spawn begins the life anew.
    spawn(&mut analyser, 8, 2, 40, 50);
    let player = analyser.players.get(8).unwrap();
    assert_eq!(player.class, Class::Other);
    assert_eq!(player.team, Team::Red);
    assert_eq!(player.last_spawn_tick, Some(50));
    assert_eq!(player.time_on_class.0, [0; 10]);
}

#[test]
fn output_counts_the_lives_in_progress() {
    let mut analyser = started();
    spawn(&mut analyser, 7, 2, 4, 1000);
    spawn(&mut analyser, 8, 3, 5, 1000);
    analyser.players.players[0].life_state = PlayerLifeState::Alive;
    analyser.handle_message(&Message::NetTick { tick: 1 }, 1500);
    let summary = analyser.into_output();
    assert_eq!(summary.players.len(), 2);
    assert_eq!(summary.players[0].user_id, 7);
    assert_eq!(summary.players[0].steam_id, "76561197960265735");
    assert_eq!(summary.players[0].time_on_class, [0, 0, 0, 500, 0, 0, 0, 0, 0]);
    assert_eq!(summary.players[0].time_on_team, [500, 0]);
    assert_eq!(summary.players[1].time_on_class, [0; 9]);
}

#[test]
fn user_info_rows() {
    assert_eq!(user_info_index("userinfo", 0), Some(0));
    assert_eq!(user_info_index("userinfo", 65535), Some(65535));
    assert_eq!(user_info_index("userinfo", 65536), None);
    assert_eq!(user_info_index("modelprecache", 3), None);
    assert_eq!(user_info_index("UserInfo", 3), None);
    assert_eq!(user_info_index("", 3), None);
}

#[test]
fn user_info_reconnection_through_the_analyser() {
    let mut analyser = started();
    join(&mut analyser, 20, 5, "Seven again", "[U:1:7]");
    assert_eq!(analyser.players.players.len(), 2);
    assert_eq!(analyser.players.players[0].user_id, 8);
    assert_eq!(analyser.players.players[1].user_id, 20);
    assert_eq!(analyser.players.players[1].name, "Seven again");
    let summary = analyser.into_output();
    assert_eq!(summary.aliases.len(), 1);
    assert_eq!(summary.aliases.get(&7), Some(&20));
}

#[test]
fn kinds_of_record_that_are_read() {
    for message_type in 0..=255u8 {
        let expected = matches!(message_type, 3 | 8 | 11 | 23 | 25 | 26);
        assert_eq!(does_handle(message_type), expected, "{}", message_type);
    }
    assert!(does_handle(tf_demo_parser::MessageType::PacketEntities as u8));
    assert!(does_handle(tf_demo_parser::MessageType::GameEvent as u8));
    assert!(does_handle(tf_demo_parser::MessageType::SetPause as u8));
    assert!(does_handle(tf_demo_parser::MessageType::ServerInfo as u8));
    assert!(does_handle(tf_demo_parser::MessageType::UserMessage as u8));
    assert!(does_handle(tf_demo_parser::MessageType::NetTick as u8));
    assert!(!does_handle(tf_demo_parser::MessageType::TempEntities as u8));
    assert!(!does_handle(tf_demo_parser::MessageType::VoiceData as u8));
}

#[test]
fn earlier_tick_is_taken_while_nothing_lies_after_it() {
    let mut analyser = GameDetailsAnalyser::new();
    join(&mut analyser, 7, 1, "Seven", "[U:1:7]");
    // Events before the first object updates carry ticks of their own.
    event(&mut analyser, GameEvent::PlayerDeath(death(7, 0, "world")), 50_000);
    assert_eq!(analyser.demo_tick, 50_000);
    assert!(analyser.accepts_tick(50_000));
    assert!(analyser.accepts_tick(60_000));
    assert!(analyser.accepts_tick(0));
    analyser.handle_message(&Message::PacketEntities { entities: Vec::new() }, 10);
    assert_eq!(analyser.demo_tick, 10);
    spawn(&mut analyser, 7, 2, 1, 100);
    assert!(analyser.accepts_tick(100));
    assert!(!analyser.accepts_tick(99));
    event(&mut analyser, GameEvent::PlayerDeath(death(7, 0, "world")), 130);
    // The life of 30 ticks and the highlight at 130 are on record.
    assert!(analyser.accepts_tick(130));
    assert!(!analyser.accepts_tick(129));
    assert!(!analyser.accepts_tick(29));
    assert!(analyser.accepts_tick(131));
}
