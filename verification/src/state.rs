use crate::game::{Class, PlayerLifeState, Team, TF_COND_BLASTJUMPING};
use crate::highlight::{timeline_ordered, timeline_until, HighlightEventView, HighlightView};
use crate::kill::{boss_name, is_airshot_weapon, kill_icon_of};
use crate::message::{
    CrossbowHealEvent, EntityKind, GameEvent, HudTextLocation, Message, PacketEntity,
    PlayerConnectClientEvent, PlayerDeathEvent, PlayerDisconnectEvent, PlayerHurtEvent,
    PlayerSpawnEvent, PlayerTeamEvent, SendProp, SendPropValue, TeamPlayPointCapturedEvent,
    TeamPlayRoundWinEvent, UserMessage,
};
use crate::player::{PlayerSummaryView, PlayerView, SnapshotView};
use crate::props::{
    is_teams_switched_prop, medigun_prop_of, player_prop_of, send_prop_names, team_prop_of,
    MedigunProp, TeamProp,
};
use crate::roster::{lemma_roster_wf_later, PlayersView};
use crate::text::decimal_u32;
use vstd::prelude::*;

verus! {

/// The carrier on record for the healing device `entity_id`.
pub open spec fn medigun_owner(mediguns: Map<u32, u32>, entity_id: u32) -> Option<u32> {
    if mediguns.contains_key(entity_id) {
        Some(mediguns[entity_id])
    } else {
        None
    }
}

/// The carriers after one has been reported for a healing device: the first
/// report stays.
pub open spec fn with_medigun(mediguns: Map<u32, u32>, entity_id: u32, owner: u32) -> Map<u32, u32> {
    if mediguns.contains_key(entity_id) {
        mediguns
    } else {
        mediguns.insert(entity_id, owner)
    }
}

/// The kind of object that a class name stands for.
pub open spec fn entity_kind_of_name(name: Seq<char>) -> EntityKind {
    if name == "CTFPlayer"@ {
        EntityKind::Player
    } else if name == "CTFPlayerResource"@ {
        EntityKind::PlayerResource
    } else if name == "CTFTeam"@ {
        EntityKind::Team
    } else if name == "CWeaponMedigun"@ {
        EntityKind::Medigun
    } else if name == "CTFGameRulesProxy"@ {
        EntityKind::GameRules
    } else {
        EntityKind::Other
    }
}

/// The names of a class table.
pub open spec fn name_views(names: Seq<String>) -> Seq<Seq<char>> {
    names.map_values(|name: String| name@)
}

/// The snapshots of the players behind a list of object indices, in the
/// order of the list; an index that belongs to nobody is left out.
pub open spec fn capper_snapshots(players: PlayersView, cappers: Seq<u8>) -> Seq<SnapshotView>
    decreases cappers.len(),
{
    if cappers.len() == 0 {
        Seq::empty()
    } else {
        let before = capper_snapshots(players, cappers.drop_last());
        match players.position_by_entity_id(cappers.last() as u32) {
            Some(i) => before.push(players.players[i].snapshot()),
            None => before,
        }
    }
}

/// The record of a player after the properties of their object have been read in turn.
pub open spec fn player_after_props(
    player: PlayerView,
    props: Seq<SendProp>,
    round: u32,
    tick: u32,
) -> PlayerView {
    props.fold_left(
        player,
        |player: PlayerView, prop: SendProp|
            player.with_prop(player_prop_of(prop.identifier), prop.value.integer(), round, tick),
    )
}

/// A sound state can take every tick from its own on.
pub proof fn lemma_wf_at_later(state: AnalyserView, tick: u32)
    requires
        state.wf(),
        state.demo_tick <= tick,
    ensures
        state.wf_at(tick),
{
    lemma_roster_wf_later(state.players, state.demo_tick, tick);
}

/// The roster after the player list has reported `value` in the column
/// `column` and the row `row` at `tick`.
///
/// A row is named after the object index of a player. The columns of teams
/// and classes are read, and only for players who have none yet.
pub open spec fn roster_after_listed(
    players: PlayersView,
    column: Seq<char>,
    row: Seq<char>,
    value: i64,
    tick: u32,
) -> PlayersView {
    match decimal_u32(row) {
        Some(entity_id) => match players.position_by_entity_id(entity_id) {
            Some(i) => if column == "m_iTeam"@ {
                players.with_player(
                    i,
                    players.players[i].with_listed_team(Team::of_number(value as int), tick),
                )
            } else if column == "m_iPlayerClass"@ {
                players.with_player(
                    i,
                    players.players[i].with_listed_class(Class::of_number(value as int), tick),
                )
            } else {
                players
            },
            None => players,
        },
        None => players,
    }
}

/// The roster after one entry of the player list has been read at `tick`.
/// An entry whose names the decoder does not know is left out.
pub open spec fn roster_after_listing(players: PlayersView, prop: SendProp, tick: u32) -> PlayersView {
    match send_prop_names(prop.identifier) {
        Some((column, row)) => roster_after_listed(
            players,
            column,
            row,
            prop.value.integer(),
            tick,
        ),
        None => players,
    }
}

/// What the analysis has gathered so far, as a value.
pub struct AnalyserView {
    pub highlights: Seq<HighlightEventView>,
    /// Bit pattern of the server's seconds per tick.
    pub interval_per_tick: u32,
    pub is_stv: bool,
    pub players: PlayersView,
    pub class_names: Seq<Seq<char>>,
    /// For each healing device, the object index of the player who carries it.
    pub mediguns: Map<u32, u32>,
    pub red_team_entity_id: u32,
    pub blue_team_entity_id: u32,
    pub red_team_score: u32,
    pub blue_team_score: u32,
    pub teams_switched: bool,
    pub local_entity_id: u32,
    pub initial_packet_entities_parsed: bool,
    pub current_round: u32,
    pub server_tick: u32,
    pub demo_tick: u32,
}

/// The final summary as a value.
pub struct GameSummaryView {
    pub local_user_id: u16,
    pub highlights: Seq<HighlightEventView>,
    pub red_team_score: u32,
    pub blue_team_score: u32,
    pub interval_per_tick: u32,
    pub num_rounds: u32,
    pub players: Seq<PlayerSummaryView>,
    pub aliases: Map<u16, u16>,
}

impl AnalyserView {
    /// Nothing gathered yet.
    pub open spec fn initial() -> AnalyserView {
        AnalyserView {
            highlights: Seq::empty(),
            interval_per_tick: 0,
            is_stv: false,
            players: PlayersView::empty(),
            class_names: Seq::empty(),
            mediguns: Map::empty(),
            red_team_entity_id: 0,
            blue_team_entity_id: 0,
            red_team_score: 0,
            blue_team_score: 0,
            teams_switched: false,
            local_entity_id: 0,
            initial_packet_entities_parsed: false,
            current_round: 0,
            server_tick: 0,
            demo_tick: 0,
        }
    }

    /// The state is sound: the roster is sound at the current tick, and the
    /// timeline is in the order of its ticks and does not reach beyond the
    /// current tick.
    pub open spec fn wf(self) -> bool {
        &&& self.players.wf(self.demo_tick)
        &&& timeline_ordered(self.highlights)
        &&& timeline_until(self.highlights, self.demo_tick)
    }

    /// The state can take a record that arrives at `tick`: it is sound with
    /// `tick` as the current tick. A state that is sound can take every tick
    /// from its own on.
    pub open spec fn wf_at(self, tick: u32) -> bool {
        (AnalyserView { demo_tick: tick, ..self }).wf()
    }

    /// The state with a highlight added at the current tick.
    pub open spec fn with_highlight(self, event: HighlightView) -> AnalyserView {
        AnalyserView {
            highlights: self.highlights.push(HighlightEventView { tick: self.demo_tick, event }),
            ..self
        }
    }

    /// The state with another roster.
    pub open spec fn with_players(self, players: PlayersView) -> AnalyserView {
        AnalyserView { players, ..self }
    }

    /// The kind of an object of the class with index `server_class`. An
    /// index outside the class table stands for no kind.
    pub open spec fn entity_kind(self, server_class: u16) -> EntityKind {
        if server_class < self.class_names.len() {
            entity_kind_of_name(self.class_names[server_class as int])
        } else {
            EntityKind::Other
        }
    }

    /// Whether the recording shows what `user_id` does: a recording made by
    /// a spectator shows everybody, one made by a player only that player.
    pub open spec fn records_deeds_of(self, user_id: u16) -> bool {
        self.is_stv || match self.players.position_by_entity_id(self.local_entity_id) {
            Some(i) => self.players.players[i].user_id == user_id,
            None => false,
        }
    }

    pub open spec fn handle_player_entity(self, entity_index: u32, props: Seq<SendProp>) -> AnalyserView {
        match self.players.position_by_entity_id(entity_index) {
            Some(i) => self.with_players(
                self.players.with_player(
                    i,
                    player_after_props(
                        self.players.players[i],
                        props,
                        self.current_round,
                        self.demo_tick,
                    ),
                ),
            ),
            None => self,
        }
    }

    pub open spec fn handle_player_resource(self, props: Seq<SendProp>) -> AnalyserView {
        self.with_players(
            props.fold_left(
                self.players,
                |players: PlayersView, prop: SendProp|
                    roster_after_listing(players, prop, self.demo_tick),
            ),
        )
    }

    /// The state after a healing device has reported a reading. The charge
    /// goes to the player who carries the device, once the carrier is on
    /// record and known as a player; of the carriers reported, the first stays.
    pub open spec fn with_medigun_reading(
        self,
        entity_index: u32,
        prop: MedigunProp,
        value: SendPropValue,
    ) -> AnalyserView {
        match prop {
            MedigunProp::Charge => match medigun_owner(self.mediguns, entity_index) {
                Some(owner) => match self.players.position_by_entity_id(owner) {
                    Some(i) => self.with_players(
                        self.players.with_player(
                            i,
                            PlayerView { charge: value.hundredths(), ..self.players.players[i] },
                        ),
                    ),
                    None => self,
                },
                None => self,
            },
            MedigunProp::Owner => AnalyserView {
                mediguns: with_medigun(self.mediguns, entity_index, (value.integer() as u8) as u32),
                ..self
            },
            MedigunProp::Other => self,
        }
    }

    /// The state after one property of the healing device `entity_index`
    /// has been read.
    pub open spec fn with_medigun_prop(self, entity_index: u32, prop: SendProp) -> AnalyserView {
        self.with_medigun_reading(entity_index, medigun_prop_of(prop.identifier), prop.value)
    }

    pub open spec fn handle_medigun(self, entity_index: u32, props: Seq<SendProp>) -> AnalyserView {
        props.fold_left(
            self,
            |state: AnalyserView, prop: SendProp| state.with_medigun_prop(entity_index, prop),
        )
    }

    /// The state after a team object has reported a reading: the object's
    /// team number tells which side it stands for, and its score is the
    /// score of that side.
    pub open spec fn with_team_reading(self, entity_index: u32, prop: TeamProp, value: i64) -> AnalyserView {
        match prop {
            TeamProp::Number => {
                let number = value as u8;
                if number == 2 {
                    AnalyserView { red_team_entity_id: entity_index, ..self }
                } else if number == 3 {
                    AnalyserView { blue_team_entity_id: entity_index, ..self }
                } else {
                    self
                }
            },
            TeamProp::Score => {
                let score = value as u32;
                if entity_index == self.red_team_entity_id {
                    AnalyserView { red_team_score: score, ..self }
                } else if entity_index == self.blue_team_entity_id {
                    AnalyserView { blue_team_score: score, ..self }
                } else {
                    self
                }
            },
            TeamProp::Other => self,
        }
    }

    /// The state after one property of the team object `entity_index` has been read.
    pub open spec fn with_team_prop(self, entity_index: u32, prop: SendProp) -> AnalyserView {
        self.with_team_reading(entity_index, team_prop_of(prop.identifier), prop.value.integer())
    }

    pub open spec fn handle_team(self, entity_index: u32, props: Seq<SendProp>) -> AnalyserView {
        props.fold_left(
            self,
            |state: AnalyserView, prop: SendProp| state.with_team_prop(entity_index, prop),
        )
    }

    pub open spec fn with_game_rules_prop(self, prop: SendProp) -> AnalyserView {
        if is_teams_switched_prop(prop.identifier) {
            AnalyserView { teams_switched: prop.value.integer() != 0, ..self }
        } else {
            self
        }
    }

    pub open spec fn handle_game_rules(self, props: Seq<SendProp>) -> AnalyserView {
        props.fold_left(
            self,
            |state: AnalyserView, prop: SendProp| state.with_game_rules_prop(prop),
        )
    }

    /// The state after the update of one object has been read.
    pub open spec fn handle_entity(self, entity: PacketEntity) -> AnalyserView {
        match self.entity_kind(entity.server_class) {
            EntityKind::Player => self.handle_player_entity(entity.entity_index, entity.props@),
            EntityKind::PlayerResource => self.handle_player_resource(entity.props@),
            EntityKind::Team => self.handle_team(entity.entity_index, entity.props@),
            EntityKind::Medigun => self.handle_medigun(entity.entity_index, entity.props@),
            EntityKind::GameRules => self.handle_game_rules(entity.props@),
            EntityKind::Other => self,
        }
    }

    /// The highlight of a kill.
    ///
    /// It is a drop when the victim's healing device was fully charged, and
    /// an airshot when the victim was airborne from an explosive jump.
    pub open spec fn kill_highlight(self, event: PlayerDeathEvent) -> HighlightView {
        let killer = self.players.snapshot_or_fallback(event.attacker);
        HighlightView::Kill {
            killer: match boss_name(event.custom_kill, event.attacker) {
                Some(name) => SnapshotView { name, ..killer },
                None => killer,
            },
            assister: if event.assister == u16::MAX {
                None
            } else {
                Some(self.players.snapshot_or_fallback(event.assister))
            },
            victim: self.players.snapshot_or_fallback(event.user_id),
            weapon: event.weapon@,
            kill_icon: kill_icon_of(
                event.weapon@,
                event.custom_kill,
                event.damage_bits,
                event.player_penetrate_count,
                event.attacker,
                event.user_id,
            ),
            streak: event.kill_streak_total as usize,
            drop: match self.players.position(event.user_id) {
                Some(i) => self.players.players[i].charge == 100,
                None => false,
            },
            airshot: match self.players.position(event.user_id) {
                Some(i) => self.players.players[i].has_cond(TF_COND_BLASTJUMPING),
                None => false,
            },
        }
    }

    /// Whether the kill streak of the killer is worth a highlight: every fifth kill is.
    pub open spec fn streak_counts(streak: u16) -> bool {
        streak > 0 && streak % 5 == 0
    }

    /// The state after a death: the victim's life ends, the kill is a
    /// highlight, and so are a streak of the killer or of the assisting
    /// player that has reached a multiple of five, and the end of a streak of
    /// ten or more kills of the victim.
    pub open spec fn handle_player_death(self, event: PlayerDeathEvent) -> AnalyserView {
        let ended = self.with_players(
            self.players.player_leave(self.teams_switched, event.user_id, self.demo_tick),
        );
        let killed = ended.with_highlight(self.kill_highlight(event));
        let streak = if AnalyserView::streak_counts(event.kill_streak_total) {
            killed.with_highlight(
                HighlightView::KillStreak {
                    player: self.players.snapshot_or_fallback(event.attacker),
                    streak: event.kill_streak_total,
                },
            )
        } else {
            killed
        };
        let assist = if AnalyserView::streak_counts(event.kill_streak_assist) && event.assister
            != u16::MAX && self.players.snapshot(event.assister) is Some {
            streak.with_highlight(
                HighlightView::KillStreak {
                    player: self.players.snapshot(event.assister).unwrap(),
                    streak: event.kill_streak_assist,
                },
            )
        } else {
            streak
        };
        if event.kill_streak_victim >= 10 {
            assist.with_highlight(
                HighlightView::KillStreakEnded {
                    killer: self.players.snapshot_or_fallback(event.attacker),
                    victim: self.players.snapshot_or_fallback(event.user_id),
                    streak: event.kill_streak_victim,
                },
            )
        } else {
            assist
        }
    }

    /// Whether a hit is an airshot worth a highlight: the recording shows the
    /// attacker's deeds, the victim is known and airborne from an explosive
    /// jump, nobody hit themselves, and the weapon is one that counts.
    pub open spec fn is_airshot(self, event: PlayerHurtEvent) -> bool {
        match self.players.position(event.user_id) {
            Some(i) => self.records_deeds_of(event.attacker) && self.players.players[i].has_cond(
                TF_COND_BLASTJUMPING,
            ) && event.user_id != event.attacker && is_airshot_weapon(event.weapon_id),
            None => false,
        }
    }

    pub open spec fn handle_player_hurt(self, event: PlayerHurtEvent) -> AnalyserView {
        if self.is_airshot(event) {
            self.with_highlight(
                HighlightView::Airshot {
                    attacker: self.players.snapshot_or_fallback(event.attacker),
                    victim: self.players.snapshot_or_fallback(event.user_id),
                },
            )
        } else {
            self
        }
    }

    /// The state after a change of team: a highlight, unless the number
    /// names no team or the player has gone to no team, as happens on
    /// leaving the server.
    pub open spec fn handle_player_team(self, event: PlayerTeamEvent) -> AnalyserView {
        if Team::is_number(event.team as int) && Team::of_number(event.team as int) != Team::Other {
            let team = Team::of_number(event.team as int);
            self.with_highlight(
                HighlightView::PlayerTeamChange {
                    player: SnapshotView { user_id: event.user_id, name: event.name@, team },
                    team,
                },
            )
        } else {
            self
        }
    }

    pub open spec fn handle_crossbow_heal(self, event: CrossbowHealEvent) -> AnalyserView {
        match self.players.position(event.target as u16) {
            Some(i) => if self.players.players[i].has_cond(TF_COND_BLASTJUMPING) {
                self.with_highlight(
                    HighlightView::CrossbowAirshot {
                        healer: self.players.snapshot_or_fallback(event.healer as u16),
                        target: self.players.snapshot_or_fallback(event.target as u16),
                    },
                )
            } else {
                self
            },
            None => self,
        }
    }

    pub open spec fn handle_player_spawn(self, event: PlayerSpawnEvent) -> AnalyserView {
        match self.players.position(event.user_id) {
            Some(i) => self.with_players(
                self.players.with_player(
                    i,
                    self.players.players[i].spawned(
                        Class::of_number(event.class as int),
                        Team::of_number(event.team as int),
                        self.demo_tick,
                    ),
                ),
            ),
            None => self,
        }
    }

    /// The highlight of a round that somebody has won; a round that no
    /// playing team has won is a stalemate.
    pub open spec fn round_win_highlight(event: TeamPlayRoundWinEvent) -> HighlightView {
        if event.team == 2 {
            HighlightView::RoundWin { winner: Team::Red }
        } else if event.team == 3 {
            HighlightView::RoundWin { winner: Team::Blue }
        } else {
            HighlightView::RoundStalemate { reason: event.win_reason }
        }
    }

    /// The state after a round has ended: the next round begins, and the
    /// lives of the players who are alive are counted up to now.
    pub open spec fn handle_round_end(self) -> AnalyserView {
        AnalyserView {
            current_round: (self.current_round + 1) as u32,
            players: self.players.flush_alive(self.teams_switched, self.demo_tick),
            ..self
        }
    }

    pub open spec fn handle_point_captured(self, event: TeamPlayPointCapturedEvent) -> AnalyserView {
        self.with_highlight(
            HighlightView::PointCaptured {
                point_name: event.cp_name@,
                capturing_team: event.team,
                cappers: capper_snapshots(self.players, event.cappers@),
            },
        )
    }

    pub open spec fn handle_player_connect(self, event: PlayerConnectClientEvent) -> AnalyserView {
        self.with_highlight(
            HighlightView::PlayerConnected {
                player: SnapshotView {
                    user_id: event.user_id,
                    name: event.name@,
                    team: Team::Other,
                },
            },
        )
    }

    pub open spec fn handle_player_disconnect(self, event: PlayerDisconnectEvent) -> AnalyserView {
        let noted = self.with_highlight(
            HighlightView::PlayerDisconnected {
                player: self.players.snapshot_or_fallback(event.user_id),
                reason: event.reason@,
            },
        );
        noted.with_players(
            self.players.player_leave(self.teams_switched, event.user_id, self.demo_tick),
        )
    }

    /// Whether an event ends the round in progress.
    pub open spec fn ends_round(event: GameEvent) -> bool {
        event is TeamPlayRoundStalemate || event is TeamPlayRoundWin
    }

    /// The state after a game event.
    pub open spec fn handle_game_event(self, event: GameEvent) -> AnalyserView {
        match event {
            GameEvent::PlayerDeath(event) => self.handle_player_death(event),
            GameEvent::PlayerHurt(event) => self.handle_player_hurt(event),
            GameEvent::PlayerTeam(event) => self.handle_player_team(event),
            GameEvent::PlayerSpawn(event) => self.handle_player_spawn(event),
            GameEvent::TeamPlayRoundStalemate(event) => self.with_highlight(
                HighlightView::RoundStalemate { reason: event.reason },
            ).handle_round_end(),
            GameEvent::TeamPlayRoundStart(event) => self.with_highlight(
                HighlightView::RoundStart { full_reset: event.full_reset },
            ),
            GameEvent::TeamPlayRoundWin(event) => self.with_highlight(
                AnalyserView::round_win_highlight(event),
            ).handle_round_end(),
            GameEvent::PlayerConnectClient(event) => self.handle_player_connect(event),
            GameEvent::PlayerDisconnect(event) => self.handle_player_disconnect(event),
            GameEvent::TeamPlayPointCaptured(event) => self.handle_point_captured(event),
            GameEvent::CrossbowHeal(event) => self.handle_crossbow_heal(event),
            GameEvent::Other => self,
        }
    }

    /// The state after a message to the players' screens: a line of chat and
    /// a line that the server prints into the chat are highlights.
    pub open spec fn handle_usermessage(self, message: UserMessage) -> AnalyserView {
        match message {
            UserMessage::SayText2 { client, text } => self.with_highlight(
                HighlightView::ChatMessage {
                    sender: self.players.snapshot_by_entity_id(client),
                    text: text@,
                },
            ),
            UserMessage::Text { location, text } => if location == HudTextLocation::PrintTalk {
                self.with_highlight(HighlightView::Message { text: text@ })
            } else {
                self
            },
            UserMessage::Other => self,
        }
    }

    /// The state after the updates of a list of objects have been read in turn.
    pub open spec fn handle_entities(self, entities: Seq<PacketEntity>) -> AnalyserView {
        entities.fold_left(
            self,
            |state: AnalyserView, entity: PacketEntity| state.handle_entity(entity),
        )
    }

    /// The state after one record of the stream, which arrives at `tick`.
    ///
    /// Game events before the first object updates are left out: they carry
    /// ticks and contents of an earlier recording.
    pub open spec fn handle_message(self, message: Message, tick: u32) -> AnalyserView {
        let now = AnalyserView { demo_tick: tick, ..self };
        match message {
            Message::NetTick { tick } => AnalyserView { server_tick: tick, ..now },
            Message::PacketEntities { entities } => AnalyserView {
                initial_packet_entities_parsed: true,
                ..now
            }.handle_entities(entities@),
            Message::GameEvent { event } => if now.initial_packet_entities_parsed {
                now.handle_game_event(event)
            } else {
                now
            },
            Message::UserMessage(message) => now.handle_usermessage(message),
            Message::SetPause { pause } => now.with_highlight(HighlightView::Pause { pause }),
            Message::ServerInfo { player_slot, interval_per_tick } => AnalyserView {
                local_entity_id: (player_slot + 1) as u32,
                interval_per_tick,
                ..now
            },
            Message::Other => now,
        }
    }

    /// The state after the user-info table has reported a player.
    pub open spec fn handle_user_info(
        self,
        name: Seq<char>,
        steam_id: u64,
        user_id: u16,
        entity_id: u32,
    ) -> AnalyserView {
        self.with_players(self.players.insert_or_update(name, steam_id, user_id, entity_id))
    }

    /// The user ID of the player who made the recording; zero if that
    /// player is not on record.
    pub open spec fn local_user_id(self) -> u16 {
        match self.players.position_by_entity_id(self.local_entity_id) {
            Some(i) => self.players.players[i].user_id,
            None => 0,
        }
    }

    /// The summary of the match when the stream has ended.
    pub open spec fn output(self) -> GameSummaryView {
        GameSummaryView {
            local_user_id: self.local_user_id(),
            highlights: self.highlights,
            red_team_score: self.red_team_score,
            blue_team_score: self.blue_team_score,
            interval_per_tick: self.interval_per_tick,
            num_rounds: self.current_round,
            players: self.players.summaries(self.teams_switched, self.demo_tick),
            aliases: self.players.aliases,
        }
    }
}

} // verus!
