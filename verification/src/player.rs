use crate::game::{Class, PlayerLifeState, Team};
use crate::scoreboard::{process_score_prop, rounds_after, total_after, ScoreField, Scoreboard};
use crate::text::{decimal, u64_to_string};
use std::collections::HashMap;
use vstd::prelude::*;
use vstd::std_specs::hash::group_hash_axioms;

verus! {

/// One value for each of the nine classes, and one for "no class" in front.
#[derive(Debug)]
pub struct Classes<T>(pub [T; 10]);

impl<T: Copy> Classes<T> {
    /// The values of the nine classes, the one for "no class" left out.
    pub fn into_real_classes(self) -> (rest: [T; 9])
        ensures
            rest@ == self.0@.skip(1),
    {
        let rest: [T; 9] = [
            self.0[1],
            self.0[2],
            self.0[3],
            self.0[4],
            self.0[5],
            self.0[6],
            self.0[7],
            self.0[8],
            self.0[9],
        ];
        assert(rest@ =~= self.0@.skip(1));
        rest
    }
}

/// One value for each of the two playing teams, and two in front for the
/// players on no team and for the spectators.
#[derive(Debug)]
pub struct Teams<T>(pub [T; 4]);

impl<T: Copy> Teams<T> {
    /// The values of Red and Blue, in this order.
    pub fn into_real_teams(self) -> (rest: [T; 2])
        ensures
            rest@ == self.0@.skip(2),
    {
        let rest: [T; 2] = [self.0[2], self.0[3]];
        assert(rest@ =~= self.0@.skip(2));
        rest
    }
}

/// What a highlight keeps of a player: who it was, under which name and on
/// which team at that moment.
#[derive(Debug)]
pub struct HighlightPlayerSnapshot {
    pub user_id: u16,
    pub name: String,
    pub team: Team,
}

/// A [`HighlightPlayerSnapshot`] as a value.
pub struct SnapshotView {
    pub user_id: u16,
    pub name: Seq<char>,
    pub team: Team,
}

impl View for HighlightPlayerSnapshot {
    type V = SnapshotView;

    open spec fn view(&self) -> SnapshotView {
        SnapshotView { user_id: self.user_id, name: self.name@, team: self.team }
    }
}

impl SnapshotView {
    /// The snapshot that stands in for a player nobody knows.
    pub open spec fn unknown() -> SnapshotView {
        SnapshotView { user_id: 0, name: "<unknown>"@, team: Team::Other }
    }
}

impl Default for HighlightPlayerSnapshot {
    fn default() -> (snapshot: HighlightPlayerSnapshot)
        ensures
            snapshot@ == SnapshotView::unknown(),
    {
        HighlightPlayerSnapshot { user_id: 0, name: "<unknown>".to_string(), team: Team::Other }
    }
}

/// What is known of one participant of the match.
#[derive(Debug)]
pub struct PlayerState {
    pub name: String,
    pub steam_id: u64,
    pub user_id: u16,
    pub entity_id: u32,
    /// The scoreboard for the entire match.
    pub scoreboard: Scoreboard,
    /// The scoreboards of the rounds in which the player has scored.
    pub round_scoreboards: HashMap<u32, Scoreboard>,
    pub class: Class,
    pub team: Team,
    pub life_state: PlayerLifeState,
    pub charge: u8,
    pub player_cond: u32,
    pub player_cond_ex: u32,
    pub player_cond_ex2: u32,
    pub player_cond_ex3: u32,
    /// A second register for the conditions below 32; the game sets only the
    /// critical boost here.
    pub condition_bits: u32,
    /// The tick at which the life in progress began, until it has been counted.
    pub last_spawn_tick: Option<u32>,
    /// Ticks spent alive on each class.
    pub time_on_class: Classes<usize>,
    /// Ticks spent alive on each team.
    pub time_on_team: Teams<usize>,
}

/// A [`PlayerState`] as a value.
pub struct PlayerView {
    pub name: Seq<char>,
    pub steam_id: u64,
    pub user_id: u16,
    pub entity_id: u32,
    pub scoreboard: Scoreboard,
    pub round_scoreboards: Map<u32, Scoreboard>,
    pub class: Class,
    pub team: Team,
    pub life_state: PlayerLifeState,
    pub charge: u8,
    pub player_cond: u32,
    pub player_cond_ex: u32,
    pub player_cond_ex2: u32,
    pub player_cond_ex3: u32,
    pub condition_bits: u32,
    pub last_spawn_tick: Option<u32>,
    pub time_on_class: Seq<usize>,
    pub time_on_team: Seq<usize>,
}

impl View for PlayerState {
    type V = PlayerView;

    open spec fn view(&self) -> PlayerView {
        PlayerView {
            name: self.name@,
            steam_id: self.steam_id,
            user_id: self.user_id,
            entity_id: self.entity_id,
            scoreboard: self.scoreboard,
            round_scoreboards: self.round_scoreboards@,
            class: self.class,
            team: self.team,
            life_state: self.life_state,
            charge: self.charge,
            player_cond: self.player_cond,
            player_cond_ex: self.player_cond_ex,
            player_cond_ex2: self.player_cond_ex2,
            player_cond_ex3: self.player_cond_ex3,
            condition_bits: self.condition_bits,
            last_spawn_tick: self.last_spawn_tick,
            time_on_class: self.time_on_class.0@,
            time_on_team: self.time_on_team.0@,
        }
    }
}

/// What a property of a player object reports.
#[derive(Debug, Clone, Copy, PartialEq, Eq, Structural)]
pub enum PlayerProp {
    LifeState,
    PlayerCond,
    PlayerCondEx,
    PlayerCondEx2,
    PlayerCondEx3,
    ConditionBits,
    Score(ScoreField),
    Other,
}

/// The sum of a per-class table.
pub open spec fn class_time_total(times: Seq<usize>) -> int {
    times[0] + times[1] + times[2] + times[3] + times[4] + times[5] + times[6] + times[7]
        + times[8] + times[9]
}

/// The sum of a per-team table.
pub open spec fn team_time_total(times: Seq<usize>) -> int {
    times[0] + times[1] + times[2] + times[3]
}

impl PlayerView {
    /// A player who has just connected.
    pub open spec fn fresh(name: Seq<char>, steam_id: u64, user_id: u16, entity_id: u32) -> PlayerView {
        PlayerView {
            name,
            steam_id,
            user_id,
            entity_id,
            scoreboard: Scoreboard::zero(),
            round_scoreboards: Map::empty(),
            class: Class::Other,
            team: Team::Other,
            life_state: PlayerLifeState::Death,
            charge: 0,
            player_cond: 0,
            player_cond_ex: 0,
            player_cond_ex2: 0,
            player_cond_ex3: 0,
            condition_bits: 0,
            last_spawn_tick: None,
            time_on_class: Seq::new(10, |i: int| 0usize),
            time_on_team: Seq::new(4, |i: int| 0usize),
        }
    }

    /// The tick up to which the player's life spans have been counted: the
    /// start of the life in progress, or `clock` if none is in progress.
    pub open spec fn counted_until(self, clock: u32) -> u32 {
        match self.last_spawn_tick {
            Some(spawn) => spawn,
            None => clock,
        }
    }

    /// The record is sound at tick `clock`: its tables have their lengths,
    /// the life in progress did not begin after `clock`, and the counted
    /// playtime fits before it.
    pub open spec fn wf(self, clock: u32) -> bool {
        &&& self.time_on_class.len() == 10
        &&& self.time_on_team.len() == 4
        &&& self.counted_until(clock) <= clock
        &&& class_time_total(self.time_on_class) <= self.counted_until(clock)
        &&& team_time_total(self.time_on_team) <= self.counted_until(clock)
    }

    /// Whether the player holds the condition with index `cond`.
    ///
    /// The conditions are the bits of four words, 32 to a word. Those of the
    /// first word are also looked for in the separate condition register.
    pub open spec fn has_cond(self, cond: u32) -> bool {
        if cond < 32 {
            ((self.player_cond | self.condition_bits) & (1u32 << cond)) != 0
        } else if cond < 64 {
            (self.player_cond_ex & (1u32 << ((cond - 32) as u32))) != 0
        } else if cond < 96 {
            (self.player_cond_ex2 & (1u32 << ((cond - 64) as u32))) != 0
        } else if cond < 128 {
            (self.player_cond_ex3 & (1u32 << ((cond - 96) as u32))) != 0
        } else {
            false
        }
    }

    /// The team to which playtime is credited: the player's team, with Red
    /// and Blue exchanged if the sides have been switched.
    pub open spec fn credited_team(self, teams_switched: bool) -> Team {
        if teams_switched {
            self.team.exchanged()
        } else {
            self.team
        }
    }

    /// The record after the life in progress, if there is one, has ended at
    /// `tick`: its length is added to the playtime of the player's class and
    /// team, and no life is in progress any more.
    pub open spec fn life_end(self, teams_switched: bool, tick: u32) -> PlayerView {
        match self.last_spawn_tick {
            Some(spawn) => {
                let duration = tick - spawn;
                let class = self.class.slot();
                let team = self.credited_team(teams_switched).slot();
                PlayerView {
                    time_on_class: self.time_on_class.update(
                        class,
                        (self.time_on_class[class] + duration) as usize,
                    ),
                    time_on_team: self.time_on_team.update(
                        team,
                        (self.time_on_team[team] + duration) as usize,
                    ),
                    last_spawn_tick: None,
                    ..self
                }
            },
            None => self,
        }
    }

    /// The record after a life that is in progress has been counted, for a
    /// player who is alive; any other player's record as it is.
    pub open spec fn flushed(self, teams_switched: bool, tick: u32) -> PlayerView {
        if self.life_state == PlayerLifeState::Alive {
            self.life_end(teams_switched, tick)
        } else {
            self
        }
    }

    pub open spec fn snapshot(self) -> SnapshotView {
        SnapshotView { user_id: self.user_id, name: self.name, team: self.team }
    }

    /// The record after one reading of a counter in round `round`.
    pub open spec fn with_score(self, round: u32, field: ScoreField, value: u32) -> PlayerView {
        PlayerView {
            scoreboard: self.scoreboard.with(
                field,
                total_after(self.scoreboard.value(field), value),
            ),
            round_scoreboards: rounds_after(
                self.scoreboard.value(field),
                self.round_scoreboards,
                round,
                field,
                value,
            ),
            ..self
        }
    }

    /// The record after a new life state has been reported at `tick`: a
    /// change to `Alive` begins a life.
    pub open spec fn with_life_state(self, state: PlayerLifeState, tick: u32) -> PlayerView {
        if self.life_state == state {
            self
        } else if state == PlayerLifeState::Alive {
            PlayerView { life_state: state, last_spawn_tick: Some(tick), ..self }
        } else {
            PlayerView { life_state: state, ..self }
        }
    }

    /// The record after one property of the player's object has been read.
    /// `value` is the property's integer, zero where it carries none.
    pub open spec fn with_prop(self, prop: PlayerProp, value: i64, round: u32, tick: u32) -> PlayerView {
        match prop {
            PlayerProp::LifeState => self.with_life_state(
                PlayerLifeState::of_number(value as int),
                tick,
            ),
            PlayerProp::PlayerCond => PlayerView { player_cond: value as u32, ..self },
            PlayerProp::PlayerCondEx => PlayerView { player_cond_ex: value as u32, ..self },
            PlayerProp::PlayerCondEx2 => PlayerView { player_cond_ex2: value as u32, ..self },
            PlayerProp::PlayerCondEx3 => PlayerView { player_cond_ex3: value as u32, ..self },
            PlayerProp::ConditionBits => PlayerView { condition_bits: value as u32, ..self },
            PlayerProp::Score(field) => self.with_score(round, field, value as u32),
            PlayerProp::Other => self,
        }
    }

    /// The record after a spawn at `tick`.
    pub open spec fn spawned(self, class: Class, team: Team, tick: u32) -> PlayerView {
        PlayerView { class, team, last_spawn_tick: Some(tick), ..self }
    }

    /// The record after the player list has reported a team at `tick`: it
    /// counts only for a player who has no team yet, and begins a life if none
    /// is in progress.
    pub open spec fn with_listed_team(self, team: Team, tick: u32) -> PlayerView {
        if self.team == Team::Other {
            PlayerView {
                team,
                last_spawn_tick: if self.last_spawn_tick is None {
                    Some(tick)
                } else {
                    self.last_spawn_tick
                },
                ..self
            }
        } else {
            self
        }
    }

    /// The record after the player list has reported a class at `tick`: it
    /// counts only for a player who has no class yet, and begins a life if
    /// none is in progress.
    pub open spec fn with_listed_class(self, class: Class, tick: u32) -> PlayerView {
        if self.class == Class::Other {
            PlayerView {
                class,
                last_spawn_tick: if self.last_spawn_tick is None {
                    Some(tick)
                } else {
                    self.last_spawn_tick
                },
                ..self
            }
        } else {
            self
        }
    }

    /// What the final summary keeps of the record.
    pub open spec fn summary(self) -> PlayerSummaryView {
        PlayerSummaryView {
            name: self.name,
            steam_id: decimal(self.steam_id as nat),
            user_id: self.user_id,
            time_on_class: self.time_on_class.skip(1),
            time_on_team: self.time_on_team.skip(2),
            scoreboard: self.scoreboard,
            round_scoreboards: self.round_scoreboards,
        }
    }
}

/// Ending a life keeps a sound record sound.
pub proof fn lemma_life_end_wf(player: PlayerView, teams_switched: bool, tick: u32)
    requires
        player.wf(tick),
    ensures
        player.life_end(teams_switched, tick).wf(tick),
        player.flushed(teams_switched, tick).wf(tick),
{
}

/// Reading a property keeps a sound record sound.
pub proof fn lemma_with_prop_wf(player: PlayerView, prop: PlayerProp, value: i64, round: u32, tick: u32)
    requires
        player.wf(tick),
    ensures
        player.with_prop(prop, value, round, tick).wf(tick),
{
}

/// A spawn at the current tick keeps a sound record sound.
pub proof fn lemma_spawned_wf(player: PlayerView, class: Class, team: Team, tick: u32)
    requires
        player.wf(tick),
    ensures
        player.spawned(class, team, tick).wf(tick),
{
}

/// A report of the player list keeps a sound record sound.
pub proof fn lemma_listed_wf(player: PlayerView, class: Class, team: Team, tick: u32)
    requires
        player.wf(tick),
    ensures
        player.with_listed_class(class, tick).wf(tick),
        player.with_listed_team(team, tick).wf(tick),
{
}

impl PlayerState {
    /// The record of a player who has just connected.
    pub fn new(name: String, steam_id: u64, user_id: u16, entity_id: u32) -> (player: PlayerState)
        ensures
            player@ == PlayerView::fresh(name@, steam_id, user_id, entity_id),
    {
        broadcast use group_hash_axioms;

        let player = PlayerState {
            name,
            steam_id,
            user_id,
            entity_id,
            scoreboard: Scoreboard::new(),
            round_scoreboards: HashMap::new(),
            class: Class::Other,
            team: Team::Other,
            life_state: PlayerLifeState::Death,
            charge: 0,
            player_cond: 0,
            player_cond_ex: 0,
            player_cond_ex2: 0,
            player_cond_ex3: 0,
            condition_bits: 0,
            last_spawn_tick: None,
            time_on_class: Classes([0usize, 0, 0, 0, 0, 0, 0, 0, 0, 0]),
            time_on_team: Teams([0usize, 0, 0, 0]),
        };
        assert(player@.time_on_class =~= Seq::new(10, |i: int| 0usize));
        assert(player@.time_on_team =~= Seq::new(4, |i: int| 0usize));
        assert(player@.round_scoreboards =~= Map::empty());
        player
    }

    pub fn has_cond(&self, cond: u32) -> (held: bool)
        ensures
            held == self@.has_cond(cond),
    {
        if cond < 32 {
            ((self.player_cond | self.condition_bits) & (1u32 << cond)) != 0
        } else if cond < 64 {
            (self.player_cond_ex & (1u32 << (cond - 32))) != 0
        } else if cond < 96 {
            (self.player_cond_ex2 & (1u32 << (cond - 64))) != 0
        } else if cond < 128 {
            (self.player_cond_ex3 & (1u32 << (cond - 96))) != 0
        } else {
            false
        }
    }

    /// Counts the life in progress, if there is one, as ended at `tick`.
    pub fn handle_life_end(&mut self, teams_switched: bool, tick: u32)
        requires
            old(self)@.wf(tick),
        ensures
            final(self)@ == old(self)@.life_end(teams_switched, tick),
            final(self)@.wf(tick),
    {
        if let Some(last_spawn_tick) = self.last_spawn_tick {
            let life_duration: usize = (tick - last_spawn_tick) as usize;
            let team: Team = if teams_switched {
                self.team.swapped()
            } else {
                self.team
            };
            let class_slot: usize = self.class.index();
            let team_slot: usize = team.index();
            self.time_on_class.0[class_slot] = self.time_on_class.0[class_slot] + life_duration;
            self.time_on_team.0[team_slot] = self.time_on_team.0[team_slot] + life_duration;
            self.last_spawn_tick = None;
        }
        proof {
            lemma_life_end_wf(old(self)@, teams_switched, tick);
            assert(self@.time_on_class =~= old(self)@.life_end(teams_switched, tick).time_on_class);
            assert(self@.time_on_team =~= old(self)@.life_end(teams_switched, tick).time_on_team);
        }
    }

    /// Whether the record, which is sound at `clock`, is sound at `tick` too.
    pub fn sound_at(&self, clock: u32, tick: u32) -> (sound: bool)
        requires
            self@.wf(clock),
        ensures
            sound == self@.wf(tick),
    {
        let until: u32 = match self.last_spawn_tick {
            Some(spawn) => spawn,
            None => tick,
        };
        if until > tick {
            return false;
        }
        let classes: &[usize; 10] = &self.time_on_class.0;
        let teams: &[usize; 4] = &self.time_on_team.0;
        let on_classes: usize = classes[0] + classes[1] + classes[2] + classes[3] + classes[4]
            + classes[5] + classes[6] + classes[7] + classes[8] + classes[9];
        let on_teams: usize = teams[0] + teams[1] + teams[2] + teams[3];
        on_classes <= until as usize && on_teams <= until as usize
    }

    pub fn snapshot(&self) -> (snapshot: HighlightPlayerSnapshot)
        ensures
            snapshot@ == self@.snapshot(),
    {
        HighlightPlayerSnapshot { user_id: self.user_id, name: self.name.clone(), team: self.team }
    }

    /// Reads one property of the player's object. `value` is the property's
    /// integer, zero where it carries none.
    pub fn apply_prop(&mut self, prop: PlayerProp, value: i64, current_round: u32, tick: u32)
        requires
            old(self)@.wf(tick),
        ensures
            final(self)@ == old(self)@.with_prop(prop, value, current_round, tick),
            final(self)@.wf(tick),
    {
        proof {
            lemma_with_prop_wf(old(self)@, prop, value, current_round, tick);
        }
        match prop {
            PlayerProp::LifeState => {
                let life_state: PlayerLifeState = PlayerLifeState::from_number(value);
                if self.life_state != life_state {
                    if life_state == PlayerLifeState::Alive {
                        self.last_spawn_tick = Some(tick);
                    }
                    self.life_state = life_state;
                }
            },
            PlayerProp::PlayerCond => {
                self.player_cond = #[verifier::truncate] (value as u32);
            },
            PlayerProp::PlayerCondEx => {
                self.player_cond_ex = #[verifier::truncate] (value as u32);
            },
            PlayerProp::PlayerCondEx2 => {
                self.player_cond_ex2 = #[verifier::truncate] (value as u32);
            },
            PlayerProp::PlayerCondEx3 => {
                self.player_cond_ex3 = #[verifier::truncate] (value as u32);
            },
            PlayerProp::ConditionBits => {
                self.condition_bits = #[verifier::truncate] (value as u32);
            },
            PlayerProp::Score(field) => {
                let reading: u32 = #[verifier::truncate] (value as u32);
                process_score_prop(
                    &mut self.scoreboard,
                    &mut self.round_scoreboards,
                    current_round,
                    field,
                    reading,
                );
            },
            PlayerProp::Other => {},
        }
    }
}

/// What the final summary keeps of a player.
#[derive(Debug)]
pub struct PlayerSummary {
    pub name: String,
    /// The 64-bit Steam ID as a decimal numeral.
    pub steam_id: String,
    pub user_id: u16,
    pub time_on_class: [usize; 9],
    pub time_on_team: [usize; 2],
    /// The scoreboard for the entire match.
    pub scoreboard: Scoreboard,
    /// The scoreboards of the rounds in which the player has scored.
    pub round_scoreboards: HashMap<u32, Scoreboard>,
}

/// A [`PlayerSummary`] as a value.
pub struct PlayerSummaryView {
    pub name: Seq<char>,
    pub steam_id: Seq<char>,
    pub user_id: u16,
    pub time_on_class: Seq<usize>,
    pub time_on_team: Seq<usize>,
    pub scoreboard: Scoreboard,
    pub round_scoreboards: Map<u32, Scoreboard>,
}

impl View for PlayerSummary {
    type V = PlayerSummaryView;

    open spec fn view(&self) -> PlayerSummaryView {
        PlayerSummaryView {
            name: self.name@,
            steam_id: self.steam_id@,
            user_id: self.user_id,
            time_on_class: self.time_on_class@,
            time_on_team: self.time_on_team@,
            scoreboard: self.scoreboard,
            round_scoreboards: self.round_scoreboards@,
        }
    }
}

impl From<PlayerState> for PlayerSummary {
    /// The summary of a player's record.
    fn from(state: PlayerState) -> (summary: PlayerSummary)
        ensures
            summary@ == state@.summary(),
    {
        let PlayerState {
            name,
            steam_id,
            user_id,
            scoreboard,
            round_scoreboards,
            time_on_class,
            time_on_team,
            ..
        } = state;
        let time_on_team = time_on_team.into_real_teams();
        let time_on_class = time_on_class.into_real_classes();
        let steam_id = u64_to_string(steam_id);
        PlayerSummary {
            name,
            steam_id,
            user_id,
            time_on_class,
            time_on_team,
            scoreboard,
            round_scoreboards,
        }
    }
}

/// What `from` returns is stated over views, in its own `ensures`; nothing is
/// claimed through `from_spec`.
impl vstd::std_specs::convert::FromSpecImpl<PlayerState> for PlayerSummary {
    open spec fn obeys_from_spec() -> bool {
        false
    }

    open spec fn from_spec(state: PlayerState) -> PlayerSummary {
        arbitrary()
    }
}

} // verus!
