use crate::game::{Class, Team, TF_COND_BLASTJUMPING};
use crate::highlight::{
    snapshot_views, timeline_ordered, timeline_view, Highlight, HighlightEvent, HighlightView,
};
use crate::kill::{airshot_weapon, kill_icon, killer_name_override};
use crate::message::{
    CrossbowHealEvent, EntityKind, GameEvent, HudTextLocation, Message, PacketEntity,
    PlayerConnectClientEvent, PlayerDeathEvent, PlayerDisconnectEvent, PlayerHurtEvent,
    PlayerSpawnEvent, PlayerTeamEvent, SendProp, SendPropValue, TeamPlayPointCapturedEvent,
    TeamPlayRoundStalemateEvent, TeamPlayRoundStartEvent, TeamPlayRoundWinEvent, UserInfo,
    UserMessage,
};
use crate::player::{
    lemma_listed_wf, lemma_spawned_wf, lemma_with_prop_wf, HighlightPlayerSnapshot, PlayerProp,
    PlayerSummary, PlayerView,
};
use crate::props::{
    player_prop_of, send_prop_identifier_names, MedigunProp, PropTable, TeamProp,
};
use crate::roster::{lemma_with_player_wf, summary_views, Players, PlayersView};
use crate::search::{lemma_fold_left_ends, lemma_fold_left_step};
use crate::state::{
    capper_snapshots, lemma_wf_at_later, medigun_owner, name_views, roster_after_listed,
    roster_after_listing, AnalyserView, GameSummaryView,
};
use crate::steam::steam_id_of;
use crate::text::{parse_u32, str_eq};
use std::collections::HashMap;
use vstd::prelude::*;
use vstd::std_specs::hash::group_hash_axioms;

verus! {

/// Gathers the summary of a match from the records of its stream.
#[derive(Debug)]
pub struct GameDetailsAnalyser {
    pub highlights: Vec<HighlightEvent>,
    /// Bit pattern of the server's seconds per tick.
    pub interval_per_tick: u32,
    pub is_stv: bool,
    pub players: Players,
    pub class_names: Vec<String>,
    /// For each healing device, the object index of the player who carries it.
    pub mediguns: HashMap<u32, u32>,
    pub red_team_entity_id: u32,
    pub blue_team_entity_id: u32,
    pub red_team_score: u32,
    pub blue_team_score: u32,
    pub teams_switched: bool,
    pub local_entity_id: u32,
    pub initial_packet_entities_parsed: bool,
    pub current_round: u32,
    pub server_tick: u32,
    pub demo_tick: u32,
    pub props: PropTable,
}

impl View for GameDetailsAnalyser {
    type V = AnalyserView;

    open spec fn view(&self) -> AnalyserView {
        AnalyserView {
            highlights: timeline_view(self.highlights@),
            interval_per_tick: self.interval_per_tick,
            is_stv: self.is_stv,
            players: self.players@,
            class_names: name_views(self.class_names@),
            mediguns: self.mediguns@,
            red_team_entity_id: self.red_team_entity_id,
            blue_team_entity_id: self.blue_team_entity_id,
            red_team_score: self.red_team_score,
            blue_team_score: self.blue_team_score,
            teams_switched: self.teams_switched,
            local_entity_id: self.local_entity_id,
            initial_packet_entities_parsed: self.initial_packet_entities_parsed,
            current_round: self.current_round,
            server_tick: self.server_tick,
            demo_tick: self.demo_tick,
        }
    }
}

impl Default for GameDetailsAnalyser {
    fn default() -> (analyser: GameDetailsAnalyser)
        ensures
            analyser@ == AnalyserView::initial(),
            analyser@.wf(),
    {
        GameDetailsAnalyser::new()
    }
}

/// The final summary of a match.
#[derive(Debug)]
pub struct GameSummary {
    pub local_user_id: u16,
    pub highlights: Vec<HighlightEvent>,
    pub red_team_score: u32,
    pub blue_team_score: u32,
    /// Bit pattern of the server's seconds per tick.
    pub interval_per_tick: u32,
    pub num_rounds: u32,
    pub players: Vec<PlayerSummary>,
    /// For each user ID that a reconnection has retired, the user ID that
    /// stands for the same person now.
    pub aliases: HashMap<u16, u16>,
}

impl View for GameSummary {
    type V = GameSummaryView;

    open spec fn view(&self) -> GameSummaryView {
        GameSummaryView {
            local_user_id: self.local_user_id,
            highlights: timeline_view(self.highlights@),
            red_team_score: self.red_team_score,
            blue_team_score: self.blue_team_score,
            interval_per_tick: self.interval_per_tick,
            num_rounds: self.num_rounds,
            players: summary_views(self.players@),
            aliases: self.aliases@,
        }
    }
}

impl GameDetailsAnalyser {
    pub fn new() -> (analyser: GameDetailsAnalyser)
        ensures
            analyser@ == AnalyserView::initial(),
            analyser@.wf(),
    {
        broadcast use group_hash_axioms;

        let analyser = GameDetailsAnalyser {
            highlights: Vec::new(),
            interval_per_tick: 0,
            is_stv: false,
            players: Players::new(),
            class_names: Vec::new(),
            mediguns: HashMap::new(),
            red_team_entity_id: 0,
            blue_team_entity_id: 0,
            red_team_score: 0,
            blue_team_score: 0,
            teams_switched: false,
            local_entity_id: 0,
            initial_packet_entities_parsed: false,
            current_round: 0,
            server_tick: 0,
            demo_tick: 0,
            props: PropTable::new(),
        };
        assert(analyser@.highlights =~= Seq::empty());
        assert(analyser@.class_names =~= Seq::empty());
        assert(analyser@.mediguns =~= Map::empty());
        analyser
    }

    /// Adds a highlight at the current tick.
    pub fn add_highlight(&mut self, event: Highlight)
        requires
            old(self)@.wf(),
        ensures
            final(self)@ == old(self)@.with_highlight(event@),
            final(self)@.wf(),
    {
        let tick: u32 = self.demo_tick;
        self.highlights.push(HighlightEvent { tick, event });
        assert(self@.highlights =~= old(self)@.with_highlight(event@).highlights);
    }

    /// The kind of an object of the class with index `server_class`.
    pub fn entity_kind(&self, server_class: u16) -> (kind: EntityKind)
        ensures
            kind == self@.entity_kind(server_class),
    {
        let index: usize = server_class as usize;
        if index < self.class_names.len() {
            let class_name: &str = self.class_names[index].as_str();
            if str_eq(class_name, "CTFPlayer") {
                EntityKind::Player
            } else if str_eq(class_name, "CTFPlayerResource") {
                EntityKind::PlayerResource
            } else if str_eq(class_name, "CTFTeam") {
                EntityKind::Team
            } else if str_eq(class_name, "CWeaponMedigun") {
                EntityKind::Medigun
            } else if str_eq(class_name, "CTFGameRulesProxy") {
                EntityKind::GameRules
            } else {
                EntityKind::Other
            }
        } else {
            EntityKind::Other
        }
    }

    /// Takes in a death.
    pub fn handle_player_death_event(&mut self, event: &PlayerDeathEvent)
        requires
            old(self)@.wf(),
        ensures
            final(self)@ == old(self)@.handle_player_death(*event),
            final(self)@.wf(),
    {
        let killer_id: u16 = event.attacker;
        let victim_id: u16 = event.user_id;
        let flags: (bool, bool) = match self.players.get(victim_id) {
            Some(victim) => (victim.charge == 100, victim.has_cond(TF_COND_BLASTJUMPING)),
            None => (false, false),
        };
        let mut killer: HighlightPlayerSnapshot = self.players.snapshot_or_fallback(killer_id);
        if let Some(name_override) = killer_name_override(event) {
            killer.name = name_override;
        }
        let assister: Option<HighlightPlayerSnapshot> = if event.assister == u16::MAX {
            None
        } else {
            Some(self.players.snapshot_or_fallback(event.assister))
        };
        let kill = Highlight::Kill {
            killer,
            assister,
            victim: self.players.snapshot_or_fallback(victim_id),
            weapon: event.weapon.clone(),
            kill_icon: kill_icon(event),
            streak: event.kill_streak_total as usize,
            drop: flags.0,
            airshot: flags.1,
        };
        let streak: Option<Highlight> = if event.kill_streak_total > 0 && event.kill_streak_total
            % 5 == 0 {
            Some(
                Highlight::KillStreak {
                    player: self.players.snapshot_or_fallback(killer_id),
                    streak: event.kill_streak_total,
                },
            )
        } else {
            None
        };
        let assist: Option<Highlight> = if event.kill_streak_assist > 0
            && event.kill_streak_assist % 5 == 0 && event.assister != u16::MAX {
            match self.players.snapshot(event.assister) {
                Some(player) => Some(
                    Highlight::KillStreak { player, streak: event.kill_streak_assist },
                ),
                None => None,
            }
        } else {
            None
        };
        let ended: Option<Highlight> = if event.kill_streak_victim >= 10 {
            Some(
                Highlight::KillStreakEnded {
                    killer: self.players.snapshot_or_fallback(killer_id),
                    victim: self.players.snapshot_or_fallback(victim_id),
                    streak: event.kill_streak_victim,
                },
            )
        } else {
            None
        };
        assert(kill@ == old(self)@.kill_highlight(*event));
        self.players.player_leave(self.teams_switched, victim_id, self.demo_tick);
        self.add_highlight(kill);
        if let Some(highlight) = streak {
            self.add_highlight(highlight);
        }
        if let Some(highlight) = assist {
            self.add_highlight(highlight);
        }
        if let Some(highlight) = ended {
            self.add_highlight(highlight);
        }
    }

    /// Takes in a hit: an airshot is a highlight.
    pub fn handle_player_hurt_event(&mut self, event: &PlayerHurtEvent)
        requires
            old(self)@.wf(),
        ensures
            final(self)@ == old(self)@.handle_player_hurt(*event),
            final(self)@.wf(),
    {
        let victim_id: u16 = event.user_id;
        let attacker_id: u16 = event.attacker;
        let airborne: bool = match self.players.get(victim_id) {
            Some(victim) => victim.has_cond(TF_COND_BLASTJUMPING),
            None => {
                return ;
            },
        };
        let shown: bool = self.is_stv || match self.players.get_by_entity_id(self.local_entity_id) {
            Some(player) => player.user_id == attacker_id,
            None => false,
        };
        if shown && airborne && victim_id != attacker_id && airshot_weapon(event.weapon_id) {
            let highlight = Highlight::Airshot {
                attacker: self.players.snapshot_or_fallback(attacker_id),
                victim: self.players.snapshot_or_fallback(victim_id),
            };
            self.add_highlight(highlight);
        }
    }

    /// Takes in a change of team.
    pub fn handle_player_team_event(&mut self, event: &PlayerTeamEvent)
        requires
            old(self)@.wf(),
        ensures
            final(self)@ == old(self)@.handle_player_team(*event),
            final(self)@.wf(),
    {
        let team: Team = match Team::from_number(event.team) {
            Some(team) => team,
            None => {
                return ;
            },
        };
        if team == Team::Other {
            return ;
        }
        let highlight = Highlight::PlayerTeamChange {
            player: HighlightPlayerSnapshot {
                user_id: event.user_id,
                name: event.name.clone(),
                team,
            },
            team,
        };
        self.add_highlight(highlight);
    }

    /// Takes in a healing arrow: one that hits a player who is airborne from
    /// an explosive jump is a highlight.
    pub fn handle_crossbow_heal_event(&mut self, event: &CrossbowHealEvent)
        requires
            old(self)@.wf(),
        ensures
            final(self)@ == old(self)@.handle_crossbow_heal(*event),
            final(self)@.wf(),
    {
        let target_id: u16 = event.target as u16;
        let healer_id: u16 = event.healer as u16;
        let airborne: bool = match self.players.get(target_id) {
            Some(target) => target.has_cond(TF_COND_BLASTJUMPING),
            None => false,
        };
        if airborne {
            let highlight = Highlight::CrossbowAirshot {
                healer: self.players.snapshot_or_fallback(healer_id),
                target: self.players.snapshot_or_fallback(target_id),
            };
            self.add_highlight(highlight);
        }
    }

    /// Takes in a spawn: the player's class and team are set, and a life begins.
    pub fn handle_player_spawn_event(&mut self, event: &PlayerSpawnEvent)
        requires
            old(self)@.wf(),
        ensures
            final(self)@ == old(self)@.handle_player_spawn(*event),
            final(self)@.wf(),
    {
        match self.players.position(event.user_id) {
            Some(i) => {
                let class: Class = Class::new(event.class as i64);
                let team: Team = Team::new(event.team as i64);
                proof {
                    let player = old(self)@.players.players[i as int];
                    lemma_spawned_wf(player, class, team, self.demo_tick);
                    lemma_with_player_wf(
                        old(self)@.players,
                        i as int,
                        player.spawned(class, team, self.demo_tick),
                        self.demo_tick,
                    );
                }
                self.players.players[i].class = class;
                self.players.players[i].team = team;
                self.players.players[i].last_spawn_tick = Some(self.demo_tick);
                assert(self@.players.players =~= old(self)@.handle_player_spawn(
                    *event,
                ).players.players);
            },
            None => {},
        }
    }

    pub fn handle_round_stalemate_event(&mut self, event: &TeamPlayRoundStalemateEvent)
        requires
            old(self)@.wf(),
        ensures
            final(self)@ == old(self)@.with_highlight(
                HighlightView::RoundStalemate { reason: event.reason },
            ),
            final(self)@.wf(),
    {
        self.add_highlight(Highlight::RoundStalemate { reason: event.reason });
    }

    pub fn handle_round_start_event(&mut self, event: &TeamPlayRoundStartEvent)
        requires
            old(self)@.wf(),
        ensures
            final(self)@ == old(self)@.with_highlight(
                HighlightView::RoundStart { full_reset: event.full_reset },
            ),
            final(self)@.wf(),
    {
        self.add_highlight(Highlight::RoundStart { full_reset: event.full_reset });
    }

    pub fn handle_round_win_event(&mut self, event: &TeamPlayRoundWinEvent)
        requires
            old(self)@.wf(),
        ensures
            final(self)@ == old(self)@.with_highlight(AnalyserView::round_win_highlight(*event)),
            final(self)@.wf(),
    {
        let team: Team = match Team::from_number(event.team) {
            Some(team) => team,
            None => Team::Other,
        };
        match team {
            Team::Red => {
                self.add_highlight(Highlight::RoundWin { winner: Team::Red });
            },
            Team::Blue => {
                self.add_highlight(Highlight::RoundWin { winner: Team::Blue });
            },
            _ => {
                self.add_highlight(Highlight::RoundStalemate { reason: event.win_reason });
            },
        }
    }

    /// Ends the round in progress.
    pub fn handle_round_end(&mut self)
        requires
            old(self)@.wf(),
            old(self)@.current_round < u32::MAX,
        ensures
            final(self)@ == old(self)@.handle_round_end(),
            final(self)@.wf(),
    {
        self.current_round += 1;
        self.players.flush_alive(self.teams_switched, self.demo_tick);
    }

    /// Takes in the capture of a point, with the players who made it.
    pub fn handle_point_captured_event(&mut self, event: &TeamPlayPointCapturedEvent)
        requires
            old(self)@.wf(),
        ensures
            final(self)@ == old(self)@.handle_point_captured(*event),
            final(self)@.wf(),
    {
        let mut cappers: Vec<HighlightPlayerSnapshot> = Vec::new();
        let mut i: usize = 0;
        while i < event.cappers.len()
            invariant
                i <= event.cappers.len(),
                snapshot_views(cappers@) == capper_snapshots(
                    self@.players,
                    event.cappers@.take(i as int),
                ),
            decreases event.cappers.len() - i,
        {
            let capper_entity_id: u32 = event.cappers[i] as u32;
            proof {
                assert(event.cappers@.take(i + 1).drop_last() =~= event.cappers@.take(i as int));
            }
            if let Some(capper) = self.players.get_by_entity_id(capper_entity_id) {
                cappers.push(capper.snapshot());
                assert(snapshot_views(cappers@) =~= capper_snapshots(
                    self@.players,
                    event.cappers@.take(i + 1),
                ));
            }
            i = i + 1;
        }
        assert(event.cappers@.take(i as int) =~= event.cappers@);
        let highlight = Highlight::PointCaptured {
            point_name: event.cp_name.clone(),
            capturing_team: event.team,
            cappers,
        };
        self.add_highlight(highlight);
    }

    pub fn handle_player_connect_event(&mut self, event: &PlayerConnectClientEvent)
        requires
            old(self)@.wf(),
        ensures
            final(self)@ == old(self)@.handle_player_connect(*event),
            final(self)@.wf(),
    {
        let highlight = Highlight::PlayerConnected {
            player: HighlightPlayerSnapshot {
                user_id: event.user_id,
                name: event.name.clone(),
                team: Team::Other,
            },
        };
        self.add_highlight(highlight);
    }

    /// Takes in a disconnect: a highlight, and the end of the player's life.
    pub fn handle_player_disconnect_event(&mut self, event: &PlayerDisconnectEvent)
        requires
            old(self)@.wf(),
        ensures
            final(self)@ == old(self)@.handle_player_disconnect(*event),
            final(self)@.wf(),
    {
        let user_id: u16 = event.user_id;
        let highlight = Highlight::PlayerDisconnected {
            player: self.players.snapshot_or_fallback(user_id),
            reason: event.reason.clone(),
        };
        self.add_highlight(highlight);
        self.players.player_leave(self.teams_switched, user_id, self.demo_tick);
    }

    /// Takes in a game event.
    pub fn handle_game_event(&mut self, event: &GameEvent)
        requires
            old(self)@.wf(),
            AnalyserView::ends_round(*event) ==> old(self)@.current_round < u32::MAX,
        ensures
            final(self)@ == old(self)@.handle_game_event(*event),
            final(self)@.wf(),
    {
        match event {
            GameEvent::PlayerDeath(event) => {
                self.handle_player_death_event(event);
            },
            GameEvent::PlayerHurt(event) => {
                self.handle_player_hurt_event(event);
            },
            GameEvent::PlayerTeam(event) => {
                self.handle_player_team_event(event);
            },
            GameEvent::PlayerSpawn(event) => {
                self.handle_player_spawn_event(event);
            },
            GameEvent::TeamPlayRoundStalemate(event) => {
                self.handle_round_stalemate_event(event);
                self.handle_round_end();
            },
            GameEvent::TeamPlayRoundStart(event) => {
                self.handle_round_start_event(event);
            },
            GameEvent::TeamPlayRoundWin(event) => {
                self.handle_round_win_event(event);
                self.handle_round_end();
            },
            GameEvent::PlayerConnectClient(event) => {
                self.handle_player_connect_event(event);
            },
            GameEvent::PlayerDisconnect(event) => {
                self.handle_player_disconnect_event(event);
            },
            GameEvent::TeamPlayPointCaptured(event) => {
                self.handle_point_captured_event(event);
            },
            GameEvent::CrossbowHeal(event) => {
                self.handle_crossbow_heal_event(event);
            },
            GameEvent::Other => {},
        }
    }

    /// Takes in a message to the players' screens.
    pub fn handle_usermessage(&mut self, message: &UserMessage)
        requires
            old(self)@.wf(),
        ensures
            final(self)@ == old(self)@.handle_usermessage(*message),
            final(self)@.wf(),
    {
        match message {
            UserMessage::SayText2 { client, text } => {
                let highlight = Highlight::ChatMessage {
                    sender: self.players.snapshot_by_entity_id(*client),
                    text: text.clone(),
                };
                self.add_highlight(highlight);
            },
            UserMessage::Text { location, text } => {
                if *location == HudTextLocation::PrintTalk {
                    self.add_highlight(Highlight::Message { text: text.clone() });
                }
            },
            UserMessage::Other => {},
        }
    }

    /// Reads the properties of a player's object.
    pub fn handle_player_entity(&mut self, entity: &PacketEntity)
        requires
            old(self)@.wf(),
        ensures
            final(self)@ == old(self)@.handle_player_entity(entity.entity_index, entity.props@),
            final(self)@.wf(),
    {
        let current_round: u32 = self.current_round;
        let tick: u32 = self.demo_tick;
        match self.players.position_by_entity_id(entity.entity_index) {
            Some(i) => {
                let ghost roster = old(self)@.players;
                let ghost start = roster.players[i as int];
                let ghost step = |player: PlayerView, prop: SendProp|
                    player.with_prop(
                        player_prop_of(prop.identifier),
                        prop.value.integer(),
                        current_round,
                        tick,
                    );
                proof {
                    lemma_fold_left_ends(entity.props@, start, step);
                    assert(roster.with_player(i as int, start).players =~= roster.players);
                }
                let mut k: usize = 0;
                while k < entity.props.len()
                    invariant
                        k <= entity.props.len(),
                        i < self.players.players.len(),
                        self.players.players.len() == roster.players.len(),
                        roster.wf(tick),
                        self@ == old(self)@.with_players(
                            roster.with_player(
                                i as int,
                                entity.props@.take(k as int).fold_left(start, step),
                            ),
                        ),
                        self@.wf(),
                        self@.players.players[i as int].user_id == start.user_id,
                        start == roster.players[i as int],
                        roster == old(self)@.players,
                        current_round == old(self)@.current_round,
                        tick == old(self)@.demo_tick,
                        step == (|player: PlayerView, prop: SendProp|
                            player.with_prop(
                                player_prop_of(prop.identifier),
                                prop.value.integer(),
                                current_round,
                                tick,
                            )),
                    decreases entity.props.len() - k,
                {
                    let prop: SendProp = entity.props[k];
                    let kind: PlayerProp = self.props.player_prop(prop.identifier);
                    let value: i64 = prop.value.integer_or_zero();
                    let ghost before = self@.players.players[i as int];
                    proof {
                        lemma_fold_left_step(entity.props@, start, step, k as int);
                        assert(self@.players.players[i as int].wf(tick));
                        lemma_with_prop_wf(before, kind, value, current_round, tick);
                        lemma_with_player_wf(
                            roster,
                            i as int,
                            before.with_prop(kind, value, current_round, tick),
                            tick,
                        );
                    }
                    let ghost records = self@.players.players;
                    self.players.players[i].apply_prop(kind, value, current_round, tick);
                    assert(self@.players.players =~= records.update(
                        i as int,
                        before.with_prop(kind, value, current_round, tick),
                    ));
                    assert(self@.players.players =~= roster.players.update(
                        i as int,
                        before.with_prop(kind, value, current_round, tick),
                    ));
                    k = k + 1;
                }
                assert(entity.props@.take(k as int) =~= entity.props@);
            },
            None => {},
        }
    }

    /// Takes in what the player list reports in the column `column` and the
    /// row `row`.
    pub fn apply_listed(&mut self, column: &str, row: &str, value: i64)
        requires
            old(self)@.wf(),
        ensures
            final(self)@ == old(self)@.with_players(
                roster_after_listed(old(self)@.players, column@, row@, value, old(self)@.demo_tick),
            ),
            final(self)@.wf(),
    {
        let tick: u32 = self.demo_tick;
        if let Some(entity_id) = parse_u32(row) {
            if let Some(i) = self.players.position_by_entity_id(entity_id) {
                let ghost player = old(self)@.players.players[i as int];
                if str_eq(column, "m_iTeam") {
                    let new_team: Team = Team::new(value);
                    proof {
                        lemma_listed_wf(player, Class::Other, new_team, tick);
                        lemma_with_player_wf(
                            old(self)@.players,
                            i as int,
                            player.with_listed_team(new_team, tick),
                            tick,
                        );
                    }
                    if self.players.players[i].team == Team::Other {
                        if self.players.players[i].last_spawn_tick.is_none() {
                            self.players.players[i].last_spawn_tick = Some(tick);
                        }
                        self.players.players[i].team = new_team;
                    }
                    assert(self@.players.players =~= old(self)@.players.players.update(
                        i as int,
                        player.with_listed_team(new_team, tick),
                    ));
                } else if str_eq(column, "m_iPlayerClass") {
                    let new_class: Class = Class::new(value);
                    proof {
                        lemma_listed_wf(player, new_class, Team::Other, tick);
                        lemma_with_player_wf(
                            old(self)@.players,
                            i as int,
                            player.with_listed_class(new_class, tick),
                            tick,
                        );
                    }
                    if self.players.players[i].class == Class::Other {
                        if self.players.players[i].last_spawn_tick.is_none() {
                            self.players.players[i].last_spawn_tick = Some(tick);
                        }
                        self.players.players[i].class = new_class;
                    }
                    assert(self@.players.players =~= old(self)@.players.players.update(
                        i as int,
                        player.with_listed_class(new_class, tick),
                    ));
                }
            }
        }
    }

    /// Reads one entry of the player list.
    pub fn apply_listing(&mut self, prop: &SendProp)
        requires
            old(self)@.wf(),
        ensures
            final(self)@ == old(self)@.with_players(
                roster_after_listing(old(self)@.players, *prop, old(self)@.demo_tick),
            ),
            final(self)@.wf(),
    {
        if let Some((column, row)) = send_prop_identifier_names(prop.identifier) {
            self.apply_listed(column.as_str(), row.as_str(), prop.value.integer_or_zero());
        }
    }

    /// Reads the player list, which tells the team and class of the players
    /// who were in the game before the recording began.
    pub fn handle_player_resource(&mut self, entity: &PacketEntity)
        requires
            old(self)@.wf(),
        ensures
            final(self)@ == old(self)@.handle_player_resource(entity.props@),
            final(self)@.wf(),
    {
        let tick: u32 = self.demo_tick;
        let ghost start = old(self)@.players;
        let ghost step = |players: PlayersView, prop: SendProp|
            roster_after_listing(players, prop, tick);
        proof {
            lemma_fold_left_ends(entity.props@, start, step);
        }
        let mut k: usize = 0;
        while k < entity.props.len()
            invariant
                k <= entity.props.len(),
                self@ == old(self)@.with_players(
                    entity.props@.take(k as int).fold_left(start, step),
                ),
                self@.wf(),
                self.demo_tick == tick,
                start == old(self)@.players,
                step == (|players: PlayersView, prop: SendProp|
                    roster_after_listing(players, prop, tick)),
            decreases entity.props.len() - k,
        {
            proof {
                lemma_fold_left_step(entity.props@, start, step, k as int);
            }
            self.apply_listing(&entity.props[k]);
            k = k + 1;
        }
    }

    /// The carrier on record for the healing device `entity_id`.
    pub fn medigun_owner(&self, entity_id: u32) -> (owner: Option<u32>)
        ensures
            owner == medigun_owner(self@.mediguns, entity_id),
    {
        broadcast use group_hash_axioms;

        match self.mediguns.get(&entity_id) {
            Some(owner) => Some(*owner),
            None => None,
        }
    }

    /// Takes in a reading of a healing device.
    pub fn apply_medigun_reading(&mut self, entity_index: u32, prop: MedigunProp, value: SendPropValue)
        requires
            old(self)@.wf(),
        ensures
            final(self)@ == old(self)@.with_medigun_reading(entity_index, prop, value),
            final(self)@.wf(),
    {
        broadcast use group_hash_axioms;

        match prop {
            MedigunProp::Charge => {
                let charge: u8 = value.hundredths_or_zero();
                if let Some(owner_id) = self.medigun_owner(entity_index) {
                    if let Some(i) = self.players.position_by_entity_id(owner_id) {
                        let ghost player = old(self)@.players.players[i as int];
                        proof {
                            lemma_with_player_wf(
                                old(self)@.players,
                                i as int,
                                PlayerView { charge, ..player },
                                self.demo_tick,
                            );
                        }
                        self.players.players[i].charge = charge;
                        assert(self@.players.players =~= old(self)@.players.players.update(
                            i as int,
                            PlayerView { charge, ..player },
                        ));
                    }
                }
            },
            MedigunProp::Owner => {
                let owner_id: u32 = (#[verifier::truncate] (value.integer_or_zero() as u8)) as u32;
                if self.medigun_owner(entity_index).is_none() {
                    self.mediguns.insert(entity_index, owner_id);
                }
            },
            MedigunProp::Other => {},
        }
    }

    /// Reads one property of a healing device.
    pub fn apply_medigun_prop(&mut self, entity_index: u32, prop: &SendProp)
        requires
            old(self)@.wf(),
        ensures
            final(self)@ == old(self)@.with_medigun_prop(entity_index, *prop),
            final(self)@.wf(),
    {
        let kind: MedigunProp = self.props.medigun_prop(prop.identifier);
        self.apply_medigun_reading(entity_index, kind, prop.value);
    }

    /// Reads the properties of a healing device: who carries it, and how far
    /// it is charged.
    pub fn handle_medigun(&mut self, entity: &PacketEntity)
        requires
            old(self)@.wf(),
        ensures
            final(self)@ == old(self)@.handle_medigun(entity.entity_index, entity.props@),
            final(self)@.wf(),
    {
        let entity_index: u32 = entity.entity_index;
        let ghost start = old(self)@;
        let ghost step = |state: AnalyserView, prop: SendProp|
            state.with_medigun_prop(entity_index, prop);
        proof {
            lemma_fold_left_ends(entity.props@, start, step);
        }
        let mut k: usize = 0;
        while k < entity.props.len()
            invariant
                k <= entity.props.len(),
                self@ == entity.props@.take(k as int).fold_left(start, step),
                self@.wf(),
                entity_index == entity.entity_index,
                step == (|state: AnalyserView, prop: SendProp|
                    state.with_medigun_prop(entity_index, prop)),
            decreases entity.props.len() - k,
        {
            proof {
                lemma_fold_left_step(entity.props@, start, step, k as int);
            }
            self.apply_medigun_prop(entity_index, &entity.props[k]);
            k = k + 1;
        }
    }

    /// Takes in a reading of a team object.
    pub fn apply_team_reading(&mut self, entity_index: u32, prop: TeamProp, value: i64)
        requires
            old(self)@.wf(),
        ensures
            final(self)@ == old(self)@.with_team_reading(entity_index, prop, value),
            final(self)@.wf(),
    {
        match prop {
            TeamProp::Number => {
                let team_num: u8 = #[verifier::truncate] (value as u8);
                if team_num == 2 {
                    self.red_team_entity_id = entity_index;
                } else if team_num == 3 {
                    self.blue_team_entity_id = entity_index;
                }
            },
            TeamProp::Score => {
                let score: u32 = #[verifier::truncate] (value as u32);
                if entity_index == self.red_team_entity_id {
                    self.red_team_score = score;
                } else if entity_index == self.blue_team_entity_id {
                    self.blue_team_score = score;
                }
            },
            TeamProp::Other => {},
        }
    }

    /// Reads one property of a team object.
    pub fn apply_team_prop(&mut self, entity_index: u32, prop: &SendProp)
        requires
            old(self)@.wf(),
        ensures
            final(self)@ == old(self)@.with_team_prop(entity_index, *prop),
            final(self)@.wf(),
    {
        let kind: TeamProp = self.props.team_prop(prop.identifier);
        self.apply_team_reading(entity_index, kind, prop.value.integer_or_zero());
    }

    /// Reads the properties of a team object.
    pub fn handle_team(&mut self, entity: &PacketEntity)
        requires
            old(self)@.wf(),
        ensures
            final(self)@ == old(self)@.handle_team(entity.entity_index, entity.props@),
            final(self)@.wf(),
    {
        let entity_index: u32 = entity.entity_index;
        let ghost start = old(self)@;
        let ghost step = |state: AnalyserView, prop: SendProp|
            state.with_team_prop(entity_index, prop);
        proof {
            lemma_fold_left_ends(entity.props@, start, step);
        }
        let mut k: usize = 0;
        while k < entity.props.len()
            invariant
                k <= entity.props.len(),
                self@ == entity.props@.take(k as int).fold_left(start, step),
                self@.wf(),
                entity_index == entity.entity_index,
                step == (|state: AnalyserView, prop: SendProp|
                    state.with_team_prop(entity_index, prop)),
            decreases entity.props.len() - k,
        {
            proof {
                lemma_fold_left_step(entity.props@, start, step, k as int);
            }
            self.apply_team_prop(entity_index, &entity.props[k]);
            k = k + 1;
        }
    }

    /// Reads the properties of the game rules: whether the teams have switched sides.
    pub fn handle_game_rules(&mut self, entity: &PacketEntity)
        requires
            old(self)@.wf(),
        ensures
            final(self)@ == old(self)@.handle_game_rules(entity.props@),
            final(self)@.wf(),
    {
        let ghost start = old(self)@;
        let ghost step = |state: AnalyserView, prop: SendProp| state.with_game_rules_prop(prop);
        proof {
            lemma_fold_left_ends(entity.props@, start, step);
        }
        let mut k: usize = 0;
        while k < entity.props.len()
            invariant
                k <= entity.props.len(),
                self@ == entity.props@.take(k as int).fold_left(start, step),
                self@.wf(),
                step == (|state: AnalyserView, prop: SendProp| state.with_game_rules_prop(prop)),
            decreases entity.props.len() - k,
        {
            proof {
                lemma_fold_left_step(entity.props@, start, step, k as int);
            }
            let prop: SendProp = entity.props[k];
            if self.props.is_teams_switched(prop.identifier) {
                self.teams_switched = prop.value.integer_or_zero() != 0;
            }
            k = k + 1;
        }
    }

    /// Reads the update of one object.
    pub fn handle_entity(&mut self, entity: &PacketEntity)
        requires
            old(self)@.wf(),
        ensures
            final(self)@ == old(self)@.handle_entity(*entity),
            final(self)@.wf(),
    {
        match self.entity_kind(entity.server_class) {
            EntityKind::Player => self.handle_player_entity(entity),
            EntityKind::PlayerResource => self.handle_player_resource(entity),
            EntityKind::Team => self.handle_team(entity),
            EntityKind::Medigun => self.handle_medigun(entity),
            EntityKind::GameRules => self.handle_game_rules(entity),
            EntityKind::Other => {},
        }
    }

    /// Whether the state can take a record that arrives at `tick`. It can
    /// take every tick from its own on, and an earlier one as long as no
    /// highlight and no life on record lies after it.
    pub fn accepts_tick(&self, tick: u32) -> (accepted: bool)
        requires
            self@.wf(),
        ensures
            accepted == self@.wf_at(tick),
            self@.demo_tick <= tick ==> accepted,
    {
        proof {
            if self@.demo_tick <= tick {
                lemma_wf_at_later(self@, tick);
            }
        }
        if self.demo_tick <= tick {
            return true;
        }
        let count: usize = self.highlights.len();
        if count > 0 && self.highlights[count - 1].tick > tick {
            assert(self@.highlights[count - 1].tick > tick);
            return false;
        }
        assert forall|i: int| 0 <= i < self@.highlights.len() implies self@.highlights[i].tick
            <= tick by {
            assert(self@.highlights[i].tick <= self@.highlights[count - 1].tick);
        }
        self.players.sound_at(self.demo_tick, tick)
    }

    /// Takes in one record of the stream, which arrives at `tick`.
    ///
    /// The records of a stream arrive in the order of their ticks. A record
    /// with an earlier tick is taken as well where the state can take it.
    pub fn handle_message(&mut self, message: &Message, tick: u32)
        requires
            old(self)@.wf(),
            old(self)@.demo_tick <= tick || old(self)@.wf_at(tick),
            message matches Message::GameEvent { event } ==> (AnalyserView::ends_round(*event)
                ==> old(self)@.current_round < u32::MAX),
        ensures
            final(self)@ == old(self)@.handle_message(*message, tick),
            final(self)@.wf(),
            timeline_ordered(final(self)@.highlights),
    {
        proof {
            if old(self)@.demo_tick <= tick {
                lemma_wf_at_later(old(self)@, tick);
            }
        }
        self.demo_tick = tick;
        match message {
            Message::NetTick { tick } => {
                self.server_tick = *tick;
            },
            Message::PacketEntities { entities } => {
                self.initial_packet_entities_parsed = true;
                let ghost start = self@;
                let ghost step = |state: AnalyserView, entity: PacketEntity|
                    state.handle_entity(entity);
                proof {
                    lemma_fold_left_ends(entities@, start, step);
                }
                let mut k: usize = 0;
                while k < entities.len()
                    invariant
                        k <= entities.len(),
                        self@ == entities@.take(k as int).fold_left(start, step),
                        self@.wf(),
                        step == (|state: AnalyserView, entity: PacketEntity|
                            state.handle_entity(entity)),
                    decreases entities.len() - k,
                {
                    proof {
                        lemma_fold_left_step(entities@, start, step, k as int);
                    }
                    self.handle_entity(&entities[k]);
                    k = k + 1;
                }
            },
            Message::GameEvent { event } => {
                if self.initial_packet_entities_parsed {
                    self.handle_game_event(event);
                }
            },
            Message::UserMessage(message) => {
                self.handle_usermessage(message);
            },
            Message::SetPause { pause } => {
                self.add_highlight(Highlight::Pause { pause: *pause });
            },
            Message::ServerInfo { player_slot, interval_per_tick } => {
                self.local_entity_id = (*player_slot as u32) + 1;
                self.interval_per_tick = *interval_per_tick;
            },
            Message::Other => {},
        }
    }

    /// Takes in a player whom the user-info table has reported.
    pub fn handle_user_info(&mut self, user_info: UserInfo)
        requires
            old(self)@.wf(),
        ensures
            final(self)@ == old(self)@.handle_user_info(
                user_info.name@,
                steam_id_of(user_info.steam_id@),
                user_info.user_id,
                user_info.entity_id,
            ),
            final(self)@.wf(),
    {
        self.players.insert_or_update_player(user_info);
    }

    /// Takes in the class table of the recording, which replaces the one on record.
    pub fn handle_data_tables(&mut self, class_names: Vec<String>)
        requires
            old(self)@.wf(),
        ensures
            final(self)@ == (AnalyserView { class_names: name_views(class_names@), ..old(self)@ }),
            final(self)@.wf(),
    {
        self.class_names = class_names;
    }

    /// Takes in the header of the recording: a recording made by a
    /// spectator names no server.
    pub fn handle_header(&mut self, server: &str)
        requires
            old(self)@.wf(),
        ensures
            final(self)@ == (AnalyserView { is_stv: server@.len() == 0, ..old(self)@ }),
            final(self)@.wf(),
    {
        self.is_stv = server.is_empty();
    }

    /// Ends the analysis: the lives in progress are counted up to the last
    /// tick, and what has been gathered becomes the summary.
    pub fn into_output(self) -> (summary: GameSummary)
        requires
            self@.wf(),
        ensures
            summary@ == self@.output(),
            timeline_ordered(summary@.highlights),
    {
        let GameDetailsAnalyser {
            highlights,
            interval_per_tick,
            players,
            red_team_score,
            blue_team_score,
            teams_switched,
            local_entity_id,
            current_round,
            demo_tick,
            ..
        } = self;
        let local_user_id: u16 = match players.get_by_entity_id(local_entity_id) {
            Some(player) => player.user_id,
            None => 0,
        };
        let (players, aliases) = players.finish(teams_switched, demo_tick);
        GameSummary {
            local_user_id,
            highlights,
            red_team_score,
            blue_team_score,
            interval_per_tick,
            players,
            num_rounds: current_round,
            aliases,
        }
    }
}

/// The wire numbers of the kinds of record that the analysis reads.
pub const MESSAGE_NET_TICK: u8 = 3;

pub const MESSAGE_SERVER_INFO: u8 = 8;

pub const MESSAGE_SET_PAUSE: u8 = 11;

pub const MESSAGE_USER_MESSAGE: u8 = 23;

pub const MESSAGE_GAME_EVENT: u8 = 25;

pub const MESSAGE_PACKET_ENTITIES: u8 = 26;

/// Whether the analysis reads records of the kind with the wire number
/// `message_type`: object updates, game events, pauses, the server's
/// introduction, messages to the players' screens, and network ticks.
pub open spec fn is_handled(message_type: u8) -> bool {
    message_type == MESSAGE_PACKET_ENTITIES || message_type == MESSAGE_GAME_EVENT || message_type
        == MESSAGE_SET_PAUSE || message_type == MESSAGE_SERVER_INFO || message_type
        == MESSAGE_USER_MESSAGE || message_type == MESSAGE_NET_TICK
}

/// Whether the analysis reads records of the kind with the wire number `message_type`.
pub fn does_handle(message_type: u8) -> (handled: bool)
    ensures
        handled == is_handled(message_type),
{
    message_type == MESSAGE_PACKET_ENTITIES || message_type == MESSAGE_GAME_EVENT || message_type
        == MESSAGE_SET_PAUSE || message_type == MESSAGE_SERVER_INFO || message_type
        == MESSAGE_USER_MESSAGE || message_type == MESSAGE_NET_TICK
}

/// The row of the user-info table that an entry of a string table stands
/// for: entries of other tables, and rows beyond the table's reach, stand for none.
pub open spec fn user_info_row(table: Seq<char>, index: usize) -> Option<u16> {
    if table == "userinfo"@ && index <= u16::MAX {
        Some(index as u16)
    } else {
        None
    }
}

/// Whether an entry of a string table tells of a player, and if so in which
/// row of the user-info table.
pub fn user_info_index(table: &str, index: usize) -> (row: Option<u16>)
    ensures
        row == user_info_row(table@, index),
{
    if str_eq(table, "userinfo") && index <= 0xffff {
        Some(index as u16)
    } else {
        None
    }
}

} // verus!
