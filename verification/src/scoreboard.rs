use std::collections::HashMap;
use vstd::prelude::*;
use vstd::std_specs::hash::group_hash_axioms;
use vstd::std_specs::iter::IteratorSpec;

verus! {

/// The counters kept for one player, over a whole match or over one round.
#[derive(Debug, Clone, Copy, PartialEq, Eq, Structural)]
pub struct Scoreboard {
    pub points: u32,
    pub kills: u32,
    pub assists: u32,
    pub deaths: u32,
    pub buildings_destroyed: u32,
    pub captures: u32,
    pub defenses: u32,
    pub dominations: u32,
    pub revenges: u32,
    pub ubercharges: u32,
    pub headshots: u32,
    pub teleports: u32,
    pub healing: u32,
    pub backstabs: u32,
    pub bonus_points: u32,
    pub support: u32,
    pub damage_dealt: u32,
}

/// Names one counter of a [`Scoreboard`].
#[derive(Debug, Clone, Copy, PartialEq, Eq, Structural)]
pub enum ScoreField {
    Points,
    Kills,
    Assists,
    Deaths,
    BuildingsDestroyed,
    Captures,
    Defenses,
    Dominations,
    Revenges,
    Ubercharges,
    Headshots,
    Teleports,
    Healing,
    Backstabs,
    BonusPoints,
    Support,
    DamageDealt,
}

impl Scoreboard {
    /// The scoreboard with every counter at zero.
    pub open spec fn zero() -> Scoreboard {
        Scoreboard {
            points: 0,
            kills: 0,
            assists: 0,
            deaths: 0,
            buildings_destroyed: 0,
            captures: 0,
            defenses: 0,
            dominations: 0,
            revenges: 0,
            ubercharges: 0,
            headshots: 0,
            teleports: 0,
            healing: 0,
            backstabs: 0,
            bonus_points: 0,
            support: 0,
            damage_dealt: 0,
        }
    }

    /// The counter that `field` names.
    pub open spec fn value(self, field: ScoreField) -> u32 {
        match field {
            ScoreField::Points => self.points,
            ScoreField::Kills => self.kills,
            ScoreField::Assists => self.assists,
            ScoreField::Deaths => self.deaths,
            ScoreField::BuildingsDestroyed => self.buildings_destroyed,
            ScoreField::Captures => self.captures,
            ScoreField::Defenses => self.defenses,
            ScoreField::Dominations => self.dominations,
            ScoreField::Revenges => self.revenges,
            ScoreField::Ubercharges => self.ubercharges,
            ScoreField::Headshots => self.headshots,
            ScoreField::Teleports => self.teleports,
            ScoreField::Healing => self.healing,
            ScoreField::Backstabs => self.backstabs,
            ScoreField::BonusPoints => self.bonus_points,
            ScoreField::Support => self.support,
            ScoreField::DamageDealt => self.damage_dealt,
        }
    }

    /// This scoreboard with the counter that `field` names set to `value`.
    pub open spec fn with(self, field: ScoreField, value: u32) -> Scoreboard {
        match field {
            ScoreField::Points => Scoreboard { points: value, ..self },
            ScoreField::Kills => Scoreboard { kills: value, ..self },
            ScoreField::Assists => Scoreboard { assists: value, ..self },
            ScoreField::Deaths => Scoreboard { deaths: value, ..self },
            ScoreField::BuildingsDestroyed => Scoreboard { buildings_destroyed: value, ..self },
            ScoreField::Captures => Scoreboard { captures: value, ..self },
            ScoreField::Defenses => Scoreboard { defenses: value, ..self },
            ScoreField::Dominations => Scoreboard { dominations: value, ..self },
            ScoreField::Revenges => Scoreboard { revenges: value, ..self },
            ScoreField::Ubercharges => Scoreboard { ubercharges: value, ..self },
            ScoreField::Headshots => Scoreboard { headshots: value, ..self },
            ScoreField::Teleports => Scoreboard { teleports: value, ..self },
            ScoreField::Healing => Scoreboard { healing: value, ..self },
            ScoreField::Backstabs => Scoreboard { backstabs: value, ..self },
            ScoreField::BonusPoints => Scoreboard { bonus_points: value, ..self },
            ScoreField::Support => Scoreboard { support: value, ..self },
            ScoreField::DamageDealt => Scoreboard { damage_dealt: value, ..self },
        }
    }

    pub fn new() -> (board: Scoreboard)
        ensures
            board == Scoreboard::zero(),
    {
        Scoreboard {
            points: 0,
            kills: 0,
            assists: 0,
            deaths: 0,
            buildings_destroyed: 0,
            captures: 0,
            defenses: 0,
            dominations: 0,
            revenges: 0,
            ubercharges: 0,
            headshots: 0,
            teleports: 0,
            healing: 0,
            backstabs: 0,
            bonus_points: 0,
            support: 0,
            damage_dealt: 0,
        }
    }

    pub fn get(&self, field: ScoreField) -> (value: u32)
        ensures
            value == self.value(field),
    {
        match field {
            ScoreField::Points => self.points,
            ScoreField::Kills => self.kills,
            ScoreField::Assists => self.assists,
            ScoreField::Deaths => self.deaths,
            ScoreField::BuildingsDestroyed => self.buildings_destroyed,
            ScoreField::Captures => self.captures,
            ScoreField::Defenses => self.defenses,
            ScoreField::Dominations => self.dominations,
            ScoreField::Revenges => self.revenges,
            ScoreField::Ubercharges => self.ubercharges,
            ScoreField::Headshots => self.headshots,
            ScoreField::Teleports => self.teleports,
            ScoreField::Healing => self.healing,
            ScoreField::Backstabs => self.backstabs,
            ScoreField::BonusPoints => self.bonus_points,
            ScoreField::Support => self.support,
            ScoreField::DamageDealt => self.damage_dealt,
        }
    }

    pub fn set(&mut self, field: ScoreField, value: u32)
        ensures
            *final(self) == old(self).with(field, value),
    {
        match field {
            ScoreField::Points => {
                self.points = value;
            },
            ScoreField::Kills => {
                self.kills = value;
            },
            ScoreField::Assists => {
                self.assists = value;
            },
            ScoreField::Deaths => {
                self.deaths = value;
            },
            ScoreField::BuildingsDestroyed => {
                self.buildings_destroyed = value;
            },
            ScoreField::Captures => {
                self.captures = value;
            },
            ScoreField::Defenses => {
                self.defenses = value;
            },
            ScoreField::Dominations => {
                self.dominations = value;
            },
            ScoreField::Revenges => {
                self.revenges = value;
            },
            ScoreField::Ubercharges => {
                self.ubercharges = value;
            },
            ScoreField::Headshots => {
                self.headshots = value;
            },
            ScoreField::Teleports => {
                self.teleports = value;
            },
            ScoreField::Healing => {
                self.healing = value;
            },
            ScoreField::Backstabs => {
                self.backstabs = value;
            },
            ScoreField::BonusPoints => {
                self.bonus_points = value;
            },
            ScoreField::Support => {
                self.support = value;
            },
            ScoreField::DamageDealt => {
                self.damage_dealt = value;
            },
        }
    }
}

impl Default for Scoreboard {
    fn default() -> (board: Scoreboard)
        ensures
            board == Scoreboard::zero(),
    {
        Scoreboard::new()
    }
}

/// The scoreboard on record for `round`; all zero if there is none.
pub open spec fn round_board(rounds: Map<u32, Scoreboard>, round: u32) -> Scoreboard {
    if rounds.contains_key(round) {
        rounds[round]
    } else {
        Scoreboard::zero()
    }
}

/// Some round before `round` has a value above zero for the counter.
pub open spec fn scored_before(rounds: Map<u32, Scoreboard>, round: u32, field: ScoreField) -> bool {
    exists|earlier: u32|
        rounds.contains_key(earlier) && earlier < round && #[trigger] rounds[earlier].value(field)
            > 0
}

/// The scoreboards of the rounds with the counter of `round` set to `value`;
/// a round that has no scoreboard yet gets one, its other counters at zero.
pub open spec fn with_round_value(
    rounds: Map<u32, Scoreboard>,
    round: u32,
    field: ScoreField,
    value: u32,
) -> Map<u32, Scoreboard> {
    rounds.insert(round, round_board(rounds, round).with(field, value))
}

/// Whether a reading `value` of a counter, whose match total stands at
/// `total`, is also the counter's value for the round in progress.
///
/// A reading below the total can only be the round's own count. A reading at
/// or above it is the round's count too as long as no earlier round has
/// scored: then the whole total was made in this round.
pub open spec fn counts_for_round(
    total: u32,
    rounds: Map<u32, Scoreboard>,
    round: u32,
    field: ScoreField,
    value: u32,
) -> bool {
    value < total || round == 0 || !scored_before(rounds, round, field)
}

/// The match total after a reading: totals never go down.
pub open spec fn total_after(total: u32, value: u32) -> u32 {
    if value > total {
        value
    } else {
        total
    }
}

/// The scoreboards of the rounds after a reading of one counter.
pub open spec fn rounds_after(
    total: u32,
    rounds: Map<u32, Scoreboard>,
    round: u32,
    field: ScoreField,
    value: u32,
) -> Map<u32, Scoreboard> {
    if counts_for_round(total, rounds, round, field, value) {
        with_round_value(rounds, round, field, value)
    } else {
        rounds
    }
}

/// Whether some round before `round` has scored on the counter.
pub fn has_scored_before(rounds: &HashMap<u32, Scoreboard>, round: u32, field: ScoreField) -> (found:
    bool)
    ensures
        found == scored_before(rounds@, round, field),
{
    broadcast use group_hash_axioms;

    let mut found: bool = false;
    let ghost all = rounds.iter().remaining();
    for entry in walk: rounds.iter()
        invariant
            walk.seq() == all,
            found == exists|j: int|
                0 <= j < walk.index() && *all[j].0 < round && (#[trigger] all[j]).1.value(field)
                    > 0,
    {
        if *entry.0 < round && entry.1.get(field) > 0 {
            found = true;
        }
    }
    proof {
        if found {
            let j = choose|j: int|
                0 <= j < all.len() && *all[j].0 < round && (#[trigger] all[j]).1.value(field) > 0;
            assert(rounds@.contains_key(*all[j].0) && rounds@[*all[j].0] == *all[j].1);
        }
        if scored_before(rounds@, round, field) {
            let earlier = choose|earlier: u32|
                rounds@.contains_key(earlier) && earlier < round && #[trigger] rounds@[earlier].value(
                    field,
                ) > 0;
            assert(all.contains((&earlier, &rounds@[earlier])));
            let j = choose|j: int| 0 <= j < all.len() && all[j] == (&earlier, &rounds@[earlier]);
            assert(*all[j].0 < round && all[j].1.value(field) > 0);
        }
    }
    found
}

/// The scoreboard on record for `round`; all zero if there is none.
pub fn board_of_round(rounds: &HashMap<u32, Scoreboard>, round: u32) -> (board: Scoreboard)
    ensures
        board == round_board(rounds@, round),
{
    broadcast use group_hash_axioms;

    match rounds.get(&round) {
        Some(board) => *board,
        None => Scoreboard::new(),
    }
}

/// Sets the counter of `round` to `value`; a round without a scoreboard gets one.
pub fn set_round_value(
    rounds: &mut HashMap<u32, Scoreboard>,
    round: u32,
    field: ScoreField,
    value: u32,
)
    ensures
        final(rounds)@ == with_round_value(old(rounds)@, round, field, value),
{
    broadcast use group_hash_axioms;

    let mut board: Scoreboard = board_of_round(rounds, round);
    board.set(field, value);
    rounds.insert(round, board);
}

/// Takes in one reading of a counter.
///
/// The wire carries a counter's match total and its count for the round in
/// progress under one name. The reading raises the match total if it is
/// above it, and is written to the round's scoreboard where
/// [`counts_for_round`] says so.
pub fn process_score_prop(
    scoreboard: &mut Scoreboard,
    round_scoreboards: &mut HashMap<u32, Scoreboard>,
    current_round: u32,
    field: ScoreField,
    value: u32,
)
    ensures
        *final(scoreboard) == old(scoreboard).with(
            field,
            total_after(old(scoreboard).value(field), value),
        ),
        final(round_scoreboards)@ == rounds_after(
            old(scoreboard).value(field),
            old(round_scoreboards)@,
            current_round,
            field,
            value,
        ),
        final(scoreboard).value(field) >= old(scoreboard).value(field),
{
    let total: u32 = scoreboard.get(field);
    if value < total {
        set_round_value(round_scoreboards, current_round, field, value);
    } else {
        if value > total {
            scoreboard.set(field, value);
        }
        if current_round == 0 || !has_scored_before(round_scoreboards, current_round, field) {
            set_round_value(round_scoreboards, current_round, field, value);
        }
    }
}

} // verus!
