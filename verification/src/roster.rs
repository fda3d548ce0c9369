use crate::game::{PlayerLifeState, Team};
use crate::player::{
    lemma_life_end_wf, HighlightPlayerSnapshot, PlayerState, PlayerSummary, PlayerSummaryView,
    PlayerView, SnapshotView,
};
use crate::message::UserInfo;
use crate::search::{
    first_index, last_index, lemma_first_index, lemma_first_index_is, lemma_first_index_none,
    lemma_last_index, lemma_last_index_is, lemma_last_index_none,
};
use crate::steam::{steam_id_of, steam_id_or_zero};
use std::collections::HashMap;
use vstd::prelude::*;
use vstd::std_specs::hash::group_hash_axioms;
use vstd::std_specs::iter::IteratorSpec;

verus! {

/// The players of the match, in the order in which the user-info table last
/// reported them, and the aliases: for each user ID that a reconnection has
/// retired, the user ID that stands for the same person now.
#[derive(Debug)]
pub struct Players {
    pub players: Vec<PlayerState>,
    pub aliases: HashMap<u16, u16>,
}

/// [`Players`] as a value.
pub struct PlayersView {
    pub players: Seq<PlayerView>,
    pub aliases: Map<u16, u16>,
}

/// The values of a list of player records.
pub open spec fn player_views(players: Seq<PlayerState>) -> Seq<PlayerView> {
    players.map_values(|player: PlayerState| player@)
}

/// The values of a list of summaries.
pub open spec fn summary_views(summaries: Seq<PlayerSummary>) -> Seq<PlayerSummaryView> {
    summaries.map_values(|summary: PlayerSummary| summary@)
}

impl View for Players {
    type V = PlayersView;

    open spec fn view(&self) -> PlayersView {
        PlayersView { players: player_views(self.players@), aliases: self.aliases@ }
    }
}

/// The aliases with every one that led to `from` leading to `to`.
pub open spec fn repointed(aliases: Map<u16, u16>, from: u16, to: u16) -> Map<u16, u16> {
    Map::new(
        |retired: u16| aliases.contains_key(retired),
        |retired: u16|
            if aliases[retired] == from {
                to
            } else {
                aliases[retired]
            },
    )
}

/// The aliases after `old_user_id` has been retired in favour of
/// `new_user_id`: it leads to `new_user_id`, and so does every user ID that
/// led to `old_user_id`.
pub open spec fn with_alias(aliases: Map<u16, u16>, old_user_id: u16, new_user_id: u16) -> Map<
    u16,
    u16,
> {
    repointed(aliases.insert(old_user_id, new_user_id), old_user_id, new_user_id)
}

impl PlayersView {
    /// No players and no aliases.
    pub open spec fn empty() -> PlayersView {
        PlayersView { players: Seq::empty(), aliases: Map::empty() }
    }

    /// Whether `user_id` has a record.
    pub open spec fn on_record(self, user_id: u16) -> bool {
        exists|i: int| 0 <= i < self.players.len() && (#[trigger] self.players[i]).user_id == user_id
    }

    /// The roster is sound at tick `clock`: every record is, no user ID has
    /// two records, and every alias leads to a user ID that has a record.
    pub open spec fn wf(self, clock: u32) -> bool {
        &&& forall|i: int| 0 <= i < self.players.len() ==> (#[trigger] self.players[i]).wf(clock)
        &&& forall|i: int, j: int|
            0 <= i < j < self.players.len() ==> self.players[i].user_id != self.players[j].user_id
        &&& forall|retired: u16|
            self.aliases.contains_key(retired) ==> self.on_record(#[trigger] self.aliases[retired])
    }

    /// Where the record of `user_id` stands.
    pub open spec fn position(self, user_id: u16) -> Option<int> {
        first_index(self.players, |player: PlayerView| player.user_id == user_id)
    }

    /// Where the record with the object index `entity_id` stands. The game
    /// hands the object index of a player who has left to a later player:
    /// of the records with the index, the one reported last is meant.
    pub open spec fn position_by_entity_id(self, entity_id: u32) -> Option<int> {
        last_index(self.players, |player: PlayerView| player.entity_id == entity_id)
    }

    /// Where the record of the account `steam_id` stands, the one reported
    /// last if there are several. Bots all report the account zero, which
    /// therefore finds nobody.
    pub open spec fn position_by_steam_id(self, steam_id: u64) -> Option<int> {
        if steam_id == 0 {
            None
        } else {
            last_index(self.players, |player: PlayerView| player.steam_id == steam_id)
        }
    }

    /// The user ID to which a retired user ID leads now.
    pub open spec fn alias_of(self, old_user_id: u16) -> Option<u16> {
        if self.aliases.contains_key(old_user_id) {
            Some(self.aliases[old_user_id])
        } else {
            None
        }
    }

    pub open spec fn snapshot(self, user_id: u16) -> Option<SnapshotView> {
        match self.position(user_id) {
            Some(i) => Some(self.players[i].snapshot()),
            None => None,
        }
    }

    /// The snapshot that stands in for a user ID without a record: the ID as
    /// given, no team, and a placeholder name that tells the world (ID zero)
    /// from a player nobody knows.
    pub open spec fn fallback(user_id: u16) -> SnapshotView {
        SnapshotView {
            user_id,
            name: if user_id == 0 {
                "<world>"@
            } else {
                "<unknown>"@
            },
            team: Team::Other,
        }
    }

    pub open spec fn snapshot_or_fallback(self, user_id: u16) -> SnapshotView {
        match self.position(user_id) {
            Some(i) => self.players[i].snapshot(),
            None => PlayersView::fallback(user_id),
        }
    }

    pub open spec fn snapshot_by_entity_id(self, entity_id: u32) -> SnapshotView {
        match self.position_by_entity_id(entity_id) {
            Some(i) => self.players[i].snapshot(),
            None => SnapshotView::unknown(),
        }
    }

    /// The roster with the record at `at` brought to the end of the list as `player`.
    pub open spec fn reported(self, at: int, player: PlayerView) -> Seq<PlayerView> {
        self.players.remove(at).push(player)
    }

    /// The roster after the user-info table has reported a player.
    ///
    /// A known user ID has its record brought up to date. An unknown user ID
    /// of an account that has a record is that person reconnecting: the
    /// record goes over to the new user ID with its scoreboards and playtime,
    /// the player counts as dead, and the old user ID leads to the new one
    /// from now on, as does every user ID that led to the old one. Anyone
    /// else gets a fresh record. The record of the player who was reported
    /// stands last in the list afterwards.
    pub open spec fn insert_or_update(
        self,
        name: Seq<char>,
        steam_id: u64,
        user_id: u16,
        entity_id: u32,
    ) -> PlayersView {
        match self.position(user_id) {
            Some(i) => PlayersView {
                players: self.reported(
                    i,
                    PlayerView { name, entity_id, steam_id, ..self.players[i] },
                ),
                ..self
            },
            None => match self.position_by_steam_id(steam_id) {
                Some(i) => PlayersView {
                    players: self.reported(
                        i,
                        PlayerView {
                            name,
                            user_id,
                            entity_id,
                            life_state: PlayerLifeState::Death,
                            ..self.players[i]
                        },
                    ),
                    aliases: with_alias(self.aliases, self.players[i].user_id, user_id),
                },
                None => PlayersView {
                    players: self.players.push(
                        PlayerView::fresh(name, steam_id, user_id, entity_id),
                    ),
                    ..self
                },
            },
        }
    }

    /// The roster after the life of `user_id` has ended at `tick`.
    pub open spec fn player_leave(self, teams_switched: bool, user_id: u16, tick: u32) -> PlayersView {
        match self.position(user_id) {
            Some(i) => PlayersView {
                players: self.players.update(i, self.players[i].life_end(teams_switched, tick)),
                ..self
            },
            None => self,
        }
    }

    /// The roster after the lives of all players who are alive have been
    /// counted up to `tick`.
    pub open spec fn flush_alive(self, teams_switched: bool, tick: u32) -> PlayersView {
        PlayersView {
            players: self.players.map_values(
                |player: PlayerView| player.flushed(teams_switched, tick),
            ),
            ..self
        }
    }

    /// The roster with the record at `at` replaced.
    pub open spec fn with_player(self, at: int, player: PlayerView) -> PlayersView {
        PlayersView { players: self.players.update(at, player), ..self }
    }

    /// The summaries of all players after the last tick.
    pub open spec fn summaries(self, teams_switched: bool, tick: u32) -> Seq<PlayerSummaryView> {
        self.players.map_values(
            |player: PlayerView| player.flushed(teams_switched, tick).summary(),
        )
    }
}

/// A user ID that has a record keeps having one as long as the records keep
/// their user IDs.
pub proof fn lemma_on_record_kept(before: PlayersView, after: PlayersView, user_id: u16)
    requires
        before.on_record(user_id),
        before.players.len() <= after.players.len(),
        forall|j: int|
            0 <= j < before.players.len() ==> (#[trigger] after.players[j]).user_id
                == before.players[j].user_id,
    ensures
        after.on_record(user_id),
{
    let at = choose|i: int|
        0 <= i < before.players.len() && (#[trigger] before.players[i]).user_id == user_id;
    assert(after.players[at].user_id == user_id);
}

/// The aliases of a sound roster lead to user IDs on record after a change
/// that keeps the user IDs of the records.
pub proof fn lemma_aliases_kept(before: PlayersView, after: PlayersView, clock: u32)
    requires
        before.wf(clock),
        after.aliases == before.aliases,
        before.players.len() <= after.players.len(),
        forall|j: int|
            0 <= j < before.players.len() ==> (#[trigger] after.players[j]).user_id
                == before.players[j].user_id,
    ensures
        forall|retired: u16|
            after.aliases.contains_key(retired) ==> after.on_record(
                #[trigger] after.aliases[retired],
            ),
{
    assert forall|retired: u16| after.aliases.contains_key(retired) implies after.on_record(
        #[trigger] after.aliases[retired],
    ) by {
        assert(before.on_record(before.aliases[retired]));
        lemma_on_record_kept(before, after, before.aliases[retired]);
    }
}

/// Bringing a record to the end of the list keeps a sound roster sound, as
/// long as the record keeps its user ID or takes one that nobody has, and the
/// aliases lead to user IDs that have a record afterwards.
pub proof fn lemma_reported_wf(
    roster: PlayersView,
    at: int,
    player: PlayerView,
    aliases: Map<u16, u16>,
    clock: u32,
)
    requires
        roster.wf(clock),
        0 <= at < roster.players.len(),
        player.wf(clock),
        player.user_id == roster.players[at].user_id || !roster.on_record(player.user_id),
        forall|retired: u16|
            aliases.contains_key(retired) ==> (#[trigger] aliases[retired]) == player.user_id || (
            roster.on_record(aliases[retired]) && aliases[retired] != roster.players[at].user_id),
    ensures
        (PlayersView { players: roster.reported(at, player), aliases }).wf(clock),
{
    let before = roster.players;
    let after = roster.reported(at, player);
    let last = after.len() - 1;
    assert(after[last] == player);
    assert forall|j: int| 0 <= j < last implies #[trigger] after[j] == before[if j < at {
        j
    } else {
        j + 1
    }] by {}
    assert forall|i: int, j: int| 0 <= i < j < after.len() implies after[i].user_id
        != after[j].user_id by {
        let from = if i < at {
            i
        } else {
            i + 1
        };
        assert(after[i] == before[from]);
        if j < last {
            assert(after[j] == before[if j < at {
                j
            } else {
                j + 1
            }]);
        } else {
            assert(before[from].user_id != before[at].user_id);
        }
    }
    let result = PlayersView { players: after, aliases };
    assert forall|retired: u16| aliases.contains_key(retired) implies result.on_record(
        #[trigger] aliases[retired],
    ) by {
        let target = aliases[retired];
        if target == player.user_id {
            assert(after[last].user_id == target);
        } else {
            let from = choose|j: int|
                0 <= j < before.len() && (#[trigger] before[j]).user_id == target;
            let to = if from < at {
                from
            } else {
                from - 1
            };
            assert(after[to] == before[from]);
        }
    }
}

/// Reporting a player keeps a sound roster sound.
pub proof fn lemma_insert_or_update_wf(
    roster: PlayersView,
    name: Seq<char>,
    steam_id: u64,
    user_id: u16,
    entity_id: u32,
    clock: u32,
)
    requires
        roster.wf(clock),
    ensures
        roster.insert_or_update(name, steam_id, user_id, entity_id).wf(clock),
{
    let after = roster.insert_or_update(name, steam_id, user_id, entity_id);
    lemma_first_index(roster.players, |player: PlayerView| player.user_id == user_id);
    lemma_last_index(roster.players, |player: PlayerView| player.steam_id == steam_id);
    match roster.position(user_id) {
        Some(i) => {
            let player = PlayerView { name, entity_id, steam_id, ..roster.players[i] };
            assert(roster.players[i].wf(clock));
            assert forall|retired: u16| roster.aliases.contains_key(retired) implies (
            #[trigger] roster.aliases[retired]) == player.user_id || (roster.on_record(
                roster.aliases[retired],
            ) && roster.aliases[retired] != roster.players[i].user_id) by {
                assert(roster.on_record(roster.aliases[retired]));
            }
            lemma_reported_wf(roster, i, player, roster.aliases, clock);
        },
        None => match roster.position_by_steam_id(steam_id) {
            Some(i) => {
                let old_user_id = roster.players[i].user_id;
                let player = PlayerView {
                    name,
                    user_id,
                    entity_id,
                    life_state: PlayerLifeState::Death,
                    ..roster.players[i]
                };
                assert(roster.players[i].wf(clock));
                assert(!roster.on_record(user_id));
                assert forall|retired: u16| after.aliases.contains_key(retired) implies (
                #[trigger] after.aliases[retired]) == user_id || (roster.on_record(
                    after.aliases[retired],
                ) && after.aliases[retired] != old_user_id) by {
                    let target = after.aliases[retired];
                    if target != user_id {
                        assert(roster.aliases.contains_key(retired) && roster.aliases[retired]
                            == target);
                        assert(roster.on_record(roster.aliases[retired]));
                    }
                }
                lemma_reported_wf(roster, i, player, after.aliases, clock);
            },
            None => {
                lemma_aliases_kept(roster, after, clock);
            },
        },
    }
}

/// Ending a life keeps a sound roster sound.
pub proof fn lemma_player_leave_wf(roster: PlayersView, teams_switched: bool, user_id: u16, tick: u32)
    requires
        roster.wf(tick),
    ensures
        roster.player_leave(teams_switched, user_id, tick).wf(tick),
{
    lemma_first_index(roster.players, |player: PlayerView| player.user_id == user_id);
    match roster.position(user_id) {
        Some(i) => {
            lemma_life_end_wf(roster.players[i], teams_switched, tick);
            lemma_with_player_wf(
                roster,
                i,
                roster.players[i].life_end(teams_switched, tick),
                tick,
            );
        },
        None => {},
    }
}

/// Counting the lives in progress keeps a sound roster sound.
pub proof fn lemma_flush_alive_wf(roster: PlayersView, teams_switched: bool, tick: u32)
    requires
        roster.wf(tick),
    ensures
        roster.flush_alive(teams_switched, tick).wf(tick),
{
    let after = roster.flush_alive(teams_switched, tick);
    assert forall|i: int| 0 <= i < after.players.len() implies (#[trigger] after.players[i]).wf(
        tick,
    ) by {
        lemma_life_end_wf(roster.players[i], teams_switched, tick);
    }
    lemma_aliases_kept(roster, after, tick);
}

/// Replacing a record by a sound one with the same user ID keeps a sound
/// roster sound.
pub proof fn lemma_with_player_wf(roster: PlayersView, at: int, player: PlayerView, clock: u32)
    requires
        roster.wf(clock),
        0 <= at < roster.players.len(),
        player.wf(clock),
        player.user_id == roster.players[at].user_id,
    ensures
        roster.with_player(at, player).wf(clock),
{
    lemma_aliases_kept(roster, roster.with_player(at, player), clock);
}

/// A roster that is sound at one tick is sound at every later one.
pub proof fn lemma_roster_wf_later(roster: PlayersView, clock: u32, later: u32)
    requires
        roster.wf(clock),
        clock <= later,
    ensures
        roster.wf(later),
{
    assert forall|i: int| 0 <= i < roster.players.len() implies (#[trigger] roster.players[i]).wf(
        later,
    ) by {
        assert(roster.players[i].wf(clock));
    }
}

impl Default for Players {
    fn default() -> (roster: Players)
        ensures
            roster@ == PlayersView::empty(),
            forall|clock: u32| roster@.wf(clock),
    {
        Players::new()
    }
}

impl Players {
    pub fn new() -> (roster: Players)
        ensures
            roster@ == PlayersView::empty(),
            forall|clock: u32| roster@.wf(clock),
    {
        broadcast use group_hash_axioms;

        let roster = Players { players: Vec::new(), aliases: HashMap::new() };
        assert(roster@.players =~= Seq::empty());
        assert(roster@.aliases =~= Map::empty());
        roster
    }

    /// Whether the roster, which is sound at `clock`, is sound at `tick` too.
    pub fn sound_at(&self, clock: u32, tick: u32) -> (sound: bool)
        requires
            self@.wf(clock),
        ensures
            sound == self@.wf(tick),
    {
        let mut i: usize = 0;
        while i < self.players.len()
            invariant
                i <= self.players.len(),
                self@.wf(clock),
                forall|j: int| 0 <= j < i ==> (#[trigger] self@.players[j]).wf(tick),
            decreases self.players.len() - i,
        {
            assert(self@.players[i as int].wf(clock));
            if !self.players[i].sound_at(clock, tick) {
                return false;
            }
            i = i + 1;
        }
        true
    }

    /// Where the record of `user_id` stands.
    pub fn position(&self, user_id: u16) -> (place: Option<usize>)
        ensures
            match place {
                Some(i) => i < self.players.len() && self@.position(user_id) == Some(i as int)
                    && self@.players[i as int].user_id == user_id,
                None => self@.position(user_id) is None && !self@.on_record(user_id),
            },
    {
        let ghost pred = |player: PlayerView| player.user_id == user_id;
        let mut i: usize = 0;
        while i < self.players.len()
            invariant
                i <= self.players.len(),
                forall|j: int| 0 <= j < i ==> !pred(self@.players[j]),
                pred == (|player: PlayerView| player.user_id == user_id),
            decreases self.players.len() - i,
        {
            if self.players[i].user_id == user_id {
                proof {
                    lemma_first_index_is(self@.players, pred, i as int);
                }
                return Some(i);
            }
            i = i + 1;
        }
        proof {
            lemma_first_index_none(self@.players, pred);
        }
        None
    }

    /// Where the record with the object index `entity_id` stands: of the
    /// records with the index, the one reported last.
    pub fn position_by_entity_id(&self, entity_id: u32) -> (place: Option<usize>)
        ensures
            match place {
                Some(i) => i < self.players.len() && self@.position_by_entity_id(entity_id) == Some(
                    i as int,
                ) && self@.players[i as int].entity_id == entity_id,
                None => self@.position_by_entity_id(entity_id) is None,
            },
    {
        let ghost pred = |player: PlayerView| player.entity_id == entity_id;
        let mut i: usize = self.players.len();
        while i > 0
            invariant
                i <= self.players.len(),
                forall|j: int| i <= j < self.players.len() ==> !pred(self@.players[j]),
                pred == (|player: PlayerView| player.entity_id == entity_id),
            decreases i,
        {
            i = i - 1;
            if self.players[i].entity_id == entity_id {
                proof {
                    lemma_last_index_is(self@.players, pred, i as int);
                }
                return Some(i);
            }
        }
        proof {
            lemma_last_index_none(self@.players, pred);
        }
        None
    }

    /// Where the record of the person who has connected before from the
    /// account `steam_id` stands.
    pub fn find_previous_user_id(&self, steam_id: u64) -> (place: Option<usize>)
        ensures
            match place {
                Some(i) => i < self.players.len() && self@.position_by_steam_id(steam_id) == Some(
                    i as int,
                ) && self@.players[i as int].steam_id == steam_id,
                None => self@.position_by_steam_id(steam_id) is None,
            },
    {
        if steam_id == 0 {
            return None;
        }
        let ghost pred = |player: PlayerView| player.steam_id == steam_id;
        let mut i: usize = self.players.len();
        while i > 0
            invariant
                i <= self.players.len(),
                steam_id != 0,
                forall|j: int| i <= j < self.players.len() ==> !pred(self@.players[j]),
                pred == (|player: PlayerView| player.steam_id == steam_id),
            decreases i,
        {
            i = i - 1;
            if self.players[i].steam_id == steam_id {
                proof {
                    lemma_last_index_is(self@.players, pred, i as int);
                }
                return Some(i);
            }
        }
        proof {
            lemma_last_index_none(self@.players, pred);
        }
        None
    }

    pub fn get(&self, user_id: u16) -> (player: Option<&PlayerState>)
        ensures
            match player {
                Some(player) => self@.position(user_id) is Some && player@
                    == self@.players[self@.position(user_id).unwrap()],
                None => self@.position(user_id) is None,
            },
    {
        match self.position(user_id) {
            Some(i) => Some(&self.players[i]),
            None => None,
        }
    }

    pub fn get_by_entity_id(&self, entity_id: u32) -> (player: Option<&PlayerState>)
        ensures
            match player {
                Some(player) => self@.position_by_entity_id(entity_id) is Some && player@
                    == self@.players[self@.position_by_entity_id(entity_id).unwrap()],
                None => self@.position_by_entity_id(entity_id) is None,
            },
    {
        match self.position_by_entity_id(entity_id) {
            Some(i) => Some(&self.players[i]),
            None => None,
        }
    }

    pub fn snapshot(&self, user_id: u16) -> (snapshot: Option<HighlightPlayerSnapshot>)
        ensures
            match snapshot {
                Some(snapshot) => self@.snapshot(user_id) == Some(snapshot@),
                None => self@.snapshot(user_id) is None,
            },
    {
        match self.position(user_id) {
            Some(i) => Some(self.players[i].snapshot()),
            None => None,
        }
    }

    pub fn snapshot_or_fallback(&self, user_id: u16) -> (snapshot: HighlightPlayerSnapshot)
        ensures
            snapshot@ == self@.snapshot_or_fallback(user_id),
    {
        match self.position(user_id) {
            Some(i) => self.players[i].snapshot(),
            None => {
                let name: String = if user_id == 0 {
                    "<world>".to_string()
                } else {
                    "<unknown>".to_string()
                };
                HighlightPlayerSnapshot { user_id, name, team: Team::Other }
            },
        }
    }

    pub fn snapshot_by_entity_id(&self, entity_id: u32) -> (snapshot: HighlightPlayerSnapshot)
        ensures
            snapshot@ == self@.snapshot_by_entity_id(entity_id),
    {
        match self.position_by_entity_id(entity_id) {
            Some(i) => self.players[i].snapshot(),
            None => HighlightPlayerSnapshot::default(),
        }
    }

    /// The user ID to which the retired user ID `old_user_id` leads now.
    pub fn alias_of(&self, old_user_id: u16) -> (new_user_id: Option<u16>)
        ensures
            new_user_id == self@.alias_of(old_user_id),
    {
        broadcast use group_hash_axioms;

        match self.aliases.get(&old_user_id) {
            Some(new_user_id) => Some(*new_user_id),
            None => None,
        }
    }

    /// Retires `old_user_id` in favour of `new_user_id`, and lets every alias
    /// that led to `old_user_id` lead to `new_user_id`.
    fn add_alias(&mut self, old_user_id: u16, new_user_id: u16)
        ensures
            final(self).players == old(self).players,
            final(self).aliases@ == with_alias(old(self).aliases@, old_user_id, new_user_id),
    {
        broadcast use group_hash_axioms;

        self.aliases.insert(old_user_id, new_user_id);
        let ghost added = self.aliases@;
        let mut stale: Vec<u16> = Vec::new();
        let ghost all = self.aliases.iter().remaining();
        for entry in walk: self.aliases.iter()
            invariant
                walk.seq() == all,
                self.aliases@ == added,
                self.players == old(self).players,
                forall|j: int|
                    0 <= j < stale.len() ==> added.contains_key(#[trigger] stale@[j])
                        && added[stale@[j]] == old_user_id,
                forall|i: int|
                    0 <= i < walk.index() && *(#[trigger] all[i]).1 == old_user_id
                        ==> stale@.contains(*all[i].0),
        {
            if *entry.1 == old_user_id {
                let ghost before = stale@;
                stale.push(*entry.0);
                assert(stale@[stale.len() - 1] == *entry.0);
                assert forall|i: int|
                    0 <= i < walk.index() + 1 && *(#[trigger] all[i]).1
                        == old_user_id implies stale@.contains(*all[i].0) by {
                    if i < walk.index() {
                        let at = choose|at: int| 0 <= at < before.len() && before[at] == *all[i].0;
                        assert(stale@[at] == *all[i].0);
                    }
                }
            }
        }
        proof {
            assert forall|retired: u16|
                added.contains_key(retired) && added[retired] == old_user_id implies stale@.contains(
                retired,
            ) by {
                assert(all.contains((&retired, &added[retired])));
                let i = choose|i: int| 0 <= i < all.len() && all[i] == (&retired, &added[retired]);
                assert(*all[i].1 == old_user_id);
            }
        }
        let mut k: usize = 0;
        while k < stale.len()
            invariant
                k <= stale.len(),
                self.players == old(self).players,
                forall|j: int|
                    0 <= j < stale.len() ==> added.contains_key(#[trigger] stale@[j])
                        && added[stale@[j]] == old_user_id,
                forall|retired: u16| self.aliases@.contains_key(retired) <==> added.contains_key(retired),
                forall|retired: u16|
                    added.contains_key(retired) ==> #[trigger] self.aliases@[retired] == if added[retired]
                        == old_user_id && stale@.take(k as int).contains(retired) {
                        new_user_id
                    } else {
                        added[retired]
                    },
            decreases stale.len() - k,
        {
            let retired: u16 = stale[k];
            self.aliases.insert(retired, new_user_id);
            proof {
                let shorter = stale@.take(k as int);
                let longer = stale@.take(k + 1);
                assert(longer =~= shorter.push(retired));
                assert forall|other: u16| added.contains_key(other) implies #[trigger] self.aliases@[other]
                    == if added[other] == old_user_id && longer.contains(other) {
                    new_user_id
                } else {
                    added[other]
                } by {
                    if other == retired {
                        assert(longer[k as int] == retired);
                    } else if shorter.contains(other) {
                        let at = choose|at: int| 0 <= at < shorter.len() && shorter[at] == other;
                        assert(longer[at] == other);
                    } else if longer.contains(other) {
                        let at = choose|at: int| 0 <= at < longer.len() && longer[at] == other;
                        assert(shorter[at] == other);
                    }
                }
            }
            k = k + 1;
        }
        proof {
            assert(stale@.take(k as int) =~= stale@);
            assert(self.aliases@ =~= repointed(added, old_user_id, new_user_id));
        }
    }

    /// Takes in a player whom the user-info table has reported, the account
    /// given as a number; see [`PlayersView::insert_or_update`].
    pub fn insert_or_update(&mut self, name: String, steam_id: u64, user_id: u16, entity_id: u32)
        ensures
            final(self)@ == old(self)@.insert_or_update(name@, steam_id, user_id, entity_id),
            forall|clock: u32| #[trigger] old(self)@.wf(clock) ==> final(self)@.wf(clock),
    {
        match self.position(user_id) {
            Some(i) => {
                let mut player: PlayerState = self.players.remove(i);
                player.name = name;
                player.entity_id = entity_id;
                player.steam_id = steam_id;
                self.players.push(player);
                assert(self@.players =~= old(self)@.insert_or_update(
                    name@,
                    steam_id,
                    user_id,
                    entity_id,
                ).players);
            },
            None => match self.find_previous_user_id(steam_id) {
                Some(i) => {
                    let mut player: PlayerState = self.players.remove(i);
                    let old_user_id: u16 = player.user_id;
                    player.name = name;
                    player.user_id = user_id;
                    player.entity_id = entity_id;
                    player.life_state = PlayerLifeState::Death;
                    self.players.push(player);
                    self.add_alias(old_user_id, user_id);
                    assert(self@.players =~= old(self)@.insert_or_update(
                        name@,
                        steam_id,
                        user_id,
                        entity_id,
                    ).players);
                },
                None => {
                    self.players.push(PlayerState::new(name, steam_id, user_id, entity_id));
                    assert(self@.players =~= old(self)@.insert_or_update(
                        name@,
                        steam_id,
                        user_id,
                        entity_id,
                    ).players);
                },
            },
        }
        assert forall|clock: u32| #[trigger] old(self)@.wf(clock) implies self@.wf(clock) by {
            lemma_insert_or_update_wf(old(self)@, name@, steam_id, user_id, entity_id, clock);
        }
    }

    /// Takes in a player whom the user-info table has reported. The account
    /// is read from the textual Steam ID; a text that is no Steam ID counts
    /// as the account zero.
    pub fn insert_or_update_player(&mut self, user_info: UserInfo)
        ensures
            final(self)@ == old(self)@.insert_or_update(
                user_info.name@,
                steam_id_of(user_info.steam_id@),
                user_info.user_id,
                user_info.entity_id,
            ),
            forall|clock: u32| #[trigger] old(self)@.wf(clock) ==> final(self)@.wf(clock),
    {
        let steam_id: u64 = steam_id_or_zero(user_info.steam_id.as_str());
        self.insert_or_update(user_info.name, steam_id, user_info.user_id, user_info.entity_id);
    }

    /// Counts the life of `user_id`, if one is in progress, as ended at `tick`.
    pub fn player_leave(&mut self, teams_switched: bool, user_id: u16, tick: u32)
        requires
            old(self)@.wf(tick),
        ensures
            final(self)@ == old(self)@.player_leave(teams_switched, user_id, tick),
            final(self)@.wf(tick),
    {
        proof {
            lemma_player_leave_wf(old(self)@, teams_switched, user_id, tick);
        }
        match self.position(user_id) {
            Some(i) => {
                assert(self@.players[i as int].wf(tick));
                self.players[i].handle_life_end(teams_switched, tick);
                assert(self@.players =~= old(self)@.player_leave(
                    teams_switched,
                    user_id,
                    tick,
                ).players);
            },
            None => {},
        }
    }

    /// Counts the lives in progress of all players who are alive as ended at `tick`.
    pub fn flush_alive(&mut self, teams_switched: bool, tick: u32)
        requires
            old(self)@.wf(tick),
        ensures
            final(self)@ == old(self)@.flush_alive(teams_switched, tick),
            final(self)@.wf(tick),
    {
        proof {
            lemma_flush_alive_wf(old(self)@, teams_switched, tick);
        }
        let mut i: usize = 0;
        while i < self.players.len()
            invariant
                i <= self.players.len(),
                self.players.len() == old(self).players.len(),
                self.aliases == old(self).aliases,
                forall|j: int|
                    0 <= j < i ==> self@.players[j] == old(self)@.players[j].flushed(
                        teams_switched,
                        tick,
                    ),
                forall|j: int| i <= j < self.players.len() ==> self@.players[j] == old(self)@.players[j],
                old(self)@.wf(tick),
            decreases self.players.len() - i,
        {
            assert(old(self)@.players[i as int].wf(tick));
            let ghost before = self@;
            if self.players[i].life_state == PlayerLifeState::Alive {
                self.players[i].handle_life_end(teams_switched, tick);
            }
            assert(self@.players =~= before.players.update(
                i as int,
                before.players[i as int].flushed(teams_switched, tick),
            ));
            i = i + 1;
        }
        assert(self@.players =~= old(self)@.flush_alive(teams_switched, tick).players);
    }

    /// Ends the match at `tick`: the lives in progress are counted, and every
    /// record becomes its summary. The aliases are handed back as they are.
    pub fn finish(self, teams_switched: bool, tick: u32) -> (done: (
        Vec<PlayerSummary>,
        HashMap<u16, u16>,
    ))
        requires
            self@.wf(tick),
        ensures
            summary_views(done.0@) == self@.summaries(teams_switched, tick),
            done.1@ == self@.aliases,
    {
        let mut roster = self;
        roster.flush_alive(teams_switched, tick);
        let Players { players, aliases } = roster;
        let mut players = players;
        let ghost flushed = player_views(players@);
        let mut summaries: Vec<PlayerSummary> = Vec::new();
        while players.len() > 0
            invariant
                summaries.len() + players.len() == flushed.len(),
                forall|j: int|
                    0 <= j < summaries.len() ==> (#[trigger] summaries@[j])@ == flushed[j].summary(),
                forall|j: int|
                    0 <= j < players.len() ==> (#[trigger] players@[j])@ == flushed[summaries.len()
                        + j],
            decreases players.len(),
        {
            let player: PlayerState = players.remove(0);
            summaries.push(PlayerSummary::from(player));
        }
        assert(summary_views(summaries@) =~= self@.summaries(teams_switched, tick));
        (summaries, aliases)
    }
}

} // verus!
