use crate::player::PlayerProp;
use crate::scoreboard::ScoreField;
use tf_demo_parser::demo::sendprop::SendPropIdentifier;
use vstd::prelude::*;

verus! {

/// The number by which the decoder identifies the property `name` of the
/// send table `table`.
pub uninterp spec fn send_prop_id(table: Seq<char>, name: Seq<char>) -> u64;

/// The table and property name that the decoder knows for an identifier, if
/// it knows one.
pub uninterp spec fn send_prop_names(id: u64) -> Option<(Seq<char>, Seq<char>)>;

/// `SendPropIdentifier::new` of tf_demo_parser, read as a number: the
/// identifier is a fixed hash of the two names, so it depends on them alone.
#[verifier::external_body]
pub(crate) fn send_prop_identifier(table: &str, name: &str) -> (id: u64)
    ensures
        id == send_prop_id(table@, name@),
{
    u64::from(SendPropIdentifier::new(table, name))
}

/// `SendPropIdentifier::names` of tf_demo_parser: a lookup of the identifier
/// in the decoder's built-in list of properties, which depends on the
/// identifier alone.
#[verifier::external_body]
pub(crate) fn send_prop_identifier_names(id: u64) -> (names: Option<(String, String)>)
    ensures
        match names {
            Some((table, name)) => send_prop_names(id) == Some((table@, name@)),
            None => send_prop_names(id) is None,
        },
{
    SendPropIdentifier::from(id).names().map(|(table, name)| (table.to_string(), name.to_string()))
}

/// What a property of a healing device reports.
#[derive(Debug, Clone, Copy, PartialEq, Eq, Structural)]
pub enum MedigunProp {
    Charge,
    Owner,
    Other,
}

/// What a property of a team object reports.
#[derive(Debug, Clone, Copy, PartialEq, Eq, Structural)]
pub enum TeamProp {
    Number,
    Score,
    Other,
}

/// What the property `identifier` of a player object reports.
pub open spec fn player_prop_of(identifier: u64) -> PlayerProp {
    if identifier == send_prop_id("DT_BasePlayer"@, "m_lifeState"@) {
        PlayerProp::LifeState
    } else if identifier == send_prop_id("DT_TFPlayerShared"@, "m_nPlayerCond"@) {
        PlayerProp::PlayerCond
    } else if identifier == send_prop_id("DT_TFPlayerShared"@, "m_nPlayerCondEx"@) {
        PlayerProp::PlayerCondEx
    } else if identifier == send_prop_id("DT_TFPlayerShared"@, "m_nPlayerCondEx2"@) {
        PlayerProp::PlayerCondEx2
    } else if identifier == send_prop_id("DT_TFPlayerShared"@, "m_nPlayerCondEx3"@) {
        PlayerProp::PlayerCondEx3
    } else if identifier == send_prop_id("DT_TFPlayerConditionListExclusive"@, "_condition_bits"@) {
        PlayerProp::ConditionBits
    } else if identifier == send_prop_id("DT_TFPlayerScoringDataExclusive"@, "m_iCaptures"@) {
        PlayerProp::Score(ScoreField::Captures)
    } else if identifier == send_prop_id("DT_TFPlayerScoringDataExclusive"@, "m_iDefenses"@) {
        PlayerProp::Score(ScoreField::Defenses)
    } else if identifier == send_prop_id("DT_TFPlayerScoringDataExclusive"@, "m_iKills"@) {
        PlayerProp::Score(ScoreField::Kills)
    } else if identifier == send_prop_id("DT_TFPlayerScoringDataExclusive"@, "m_iDeaths"@) {
        PlayerProp::Score(ScoreField::Deaths)
    } else if identifier == send_prop_id("DT_TFPlayerScoringDataExclusive"@, "m_iDominations"@) {
        PlayerProp::Score(ScoreField::Dominations)
    } else if identifier == send_prop_id("DT_TFPlayerScoringDataExclusive"@, "m_iRevenge"@) {
        PlayerProp::Score(ScoreField::Revenges)
    } else if identifier == send_prop_id("DT_TFPlayerScoringDataExclusive"@, "m_iBuildingsDestroyed"@) {
        PlayerProp::Score(ScoreField::BuildingsDestroyed)
    } else if identifier == send_prop_id("DT_TFPlayerScoringDataExclusive"@, "m_iHeadshots"@) {
        PlayerProp::Score(ScoreField::Headshots)
    } else if identifier == send_prop_id("DT_TFPlayerScoringDataExclusive"@, "m_iBackstabs"@) {
        PlayerProp::Score(ScoreField::Backstabs)
    } else if identifier == send_prop_id("DT_TFPlayerScoringDataExclusive"@, "m_iHealPoints"@) {
        PlayerProp::Score(ScoreField::Healing)
    } else if identifier == send_prop_id("DT_TFPlayerScoringDataExclusive"@, "m_iInvulns"@) {
        PlayerProp::Score(ScoreField::Ubercharges)
    } else if identifier == send_prop_id("DT_TFPlayerScoringDataExclusive"@, "m_iTeleports"@) {
        PlayerProp::Score(ScoreField::Teleports)
    } else if identifier == send_prop_id("DT_TFPlayerScoringDataExclusive"@, "m_iDamageDone"@) {
        PlayerProp::Score(ScoreField::DamageDealt)
    } else if identifier == send_prop_id("DT_TFPlayerScoringDataExclusive"@, "m_iKillAssists"@) {
        PlayerProp::Score(ScoreField::Assists)
    } else if identifier == send_prop_id("DT_TFPlayerScoringDataExclusive"@, "m_iBonusPoints"@) {
        PlayerProp::Score(ScoreField::BonusPoints)
    } else if identifier == send_prop_id("DT_TFPlayerScoringDataExclusive"@, "m_iPoints"@) {
        PlayerProp::Score(ScoreField::Points)
    } else {
        PlayerProp::Other
    }
}

/// What the property `identifier` of a healing device reports.
pub open spec fn medigun_prop_of(identifier: u64) -> MedigunProp {
    if identifier == send_prop_id("DT_TFWeaponMedigunDataNonLocal"@, "m_flChargeLevel"@) {
        MedigunProp::Charge
    } else if identifier == send_prop_id("DT_LocalTFWeaponMedigunData"@, "m_flChargeLevel"@) {
        MedigunProp::Charge
    } else if identifier == send_prop_id("DT_BaseCombatWeapon"@, "m_hOwner"@) {
        MedigunProp::Owner
    } else {
        MedigunProp::Other
    }
}

/// What the property `identifier` of a team object reports.
pub open spec fn team_prop_of(identifier: u64) -> TeamProp {
    if identifier == send_prop_id("DT_Team"@, "m_iTeamNum"@) {
        TeamProp::Number
    } else if identifier == send_prop_id("DT_Team"@, "m_iScore"@) {
        TeamProp::Score
    } else {
        TeamProp::Other
    }
}

/// Whether `identifier` is the property of the game rules that tells that the
/// teams have switched sides.
pub open spec fn is_teams_switched_prop(identifier: u64) -> bool {
    identifier == send_prop_id("DT_TFGameRules"@, "m_bTeamsSwitched"@)
}

/// The identifiers of the properties that the analysis reads, worked out once.
#[derive(Debug)]
pub struct PropTable {
    life_state: u64,
    player_cond: u64,
    player_cond_ex: u64,
    player_cond_ex2: u64,
    player_cond_ex3: u64,
    condition_bits: u64,
    captures: u64,
    defenses: u64,
    kills: u64,
    deaths: u64,
    dominations: u64,
    revenge: u64,
    buildings_destroyed: u64,
    headshots: u64,
    backstabs: u64,
    heal_points: u64,
    invulns: u64,
    teleports: u64,
    damage_done: u64,
    kill_assists: u64,
    bonus_points: u64,
    points: u64,
    charge_level: u64,
    local_charge_level: u64,
    owner: u64,
    team_num: u64,
    team_score: u64,
    teams_switched: u64,
}

/// The entries of a [`PropTable`] as a value.
pub struct PropIdentifiers {
    pub life_state: u64,
    pub player_cond: u64,
    pub player_cond_ex: u64,
    pub player_cond_ex2: u64,
    pub player_cond_ex3: u64,
    pub condition_bits: u64,
    pub captures: u64,
    pub defenses: u64,
    pub kills: u64,
    pub deaths: u64,
    pub dominations: u64,
    pub revenge: u64,
    pub buildings_destroyed: u64,
    pub headshots: u64,
    pub backstabs: u64,
    pub heal_points: u64,
    pub invulns: u64,
    pub teleports: u64,
    pub damage_done: u64,
    pub kill_assists: u64,
    pub bonus_points: u64,
    pub points: u64,
    pub charge_level: u64,
    pub local_charge_level: u64,
    pub owner: u64,
    pub team_num: u64,
    pub team_score: u64,
    pub teams_switched: u64,
}

impl PropIdentifiers {
    /// The identifiers that the decoder gives to the properties which the
    /// analysis reads, each under the name of its entry.
    pub open spec fn of_decoder() -> PropIdentifiers {
        PropIdentifiers {
            life_state: send_prop_id("DT_BasePlayer"@, "m_lifeState"@),
            player_cond: send_prop_id("DT_TFPlayerShared"@, "m_nPlayerCond"@),
            player_cond_ex: send_prop_id("DT_TFPlayerShared"@, "m_nPlayerCondEx"@),
            player_cond_ex2: send_prop_id("DT_TFPlayerShared"@, "m_nPlayerCondEx2"@),
            player_cond_ex3: send_prop_id("DT_TFPlayerShared"@, "m_nPlayerCondEx3"@),
            condition_bits: send_prop_id("DT_TFPlayerConditionListExclusive"@, "_condition_bits"@),
            captures: send_prop_id("DT_TFPlayerScoringDataExclusive"@, "m_iCaptures"@),
            defenses: send_prop_id("DT_TFPlayerScoringDataExclusive"@, "m_iDefenses"@),
            kills: send_prop_id("DT_TFPlayerScoringDataExclusive"@, "m_iKills"@),
            deaths: send_prop_id("DT_TFPlayerScoringDataExclusive"@, "m_iDeaths"@),
            dominations: send_prop_id("DT_TFPlayerScoringDataExclusive"@, "m_iDominations"@),
            revenge: send_prop_id("DT_TFPlayerScoringDataExclusive"@, "m_iRevenge"@),
            buildings_destroyed: send_prop_id(
                "DT_TFPlayerScoringDataExclusive"@,
                "m_iBuildingsDestroyed"@,
            ),
            headshots: send_prop_id("DT_TFPlayerScoringDataExclusive"@, "m_iHeadshots"@),
            backstabs: send_prop_id("DT_TFPlayerScoringDataExclusive"@, "m_iBackstabs"@),
            heal_points: send_prop_id("DT_TFPlayerScoringDataExclusive"@, "m_iHealPoints"@),
            invulns: send_prop_id("DT_TFPlayerScoringDataExclusive"@, "m_iInvulns"@),
            teleports: send_prop_id("DT_TFPlayerScoringDataExclusive"@, "m_iTeleports"@),
            damage_done: send_prop_id("DT_TFPlayerScoringDataExclusive"@, "m_iDamageDone"@),
            kill_assists: send_prop_id("DT_TFPlayerScoringDataExclusive"@, "m_iKillAssists"@),
            bonus_points: send_prop_id("DT_TFPlayerScoringDataExclusive"@, "m_iBonusPoints"@),
            points: send_prop_id("DT_TFPlayerScoringDataExclusive"@, "m_iPoints"@),
            charge_level: send_prop_id("DT_TFWeaponMedigunDataNonLocal"@, "m_flChargeLevel"@),
            local_charge_level: send_prop_id("DT_LocalTFWeaponMedigunData"@, "m_flChargeLevel"@),
            owner: send_prop_id("DT_BaseCombatWeapon"@, "m_hOwner"@),
            team_num: send_prop_id("DT_Team"@, "m_iTeamNum"@),
            team_score: send_prop_id("DT_Team"@, "m_iScore"@),
            teams_switched: send_prop_id("DT_TFGameRules"@, "m_bTeamsSwitched"@),
        }
    }
}

impl View for PropTable {
    type V = PropIdentifiers;

    closed spec fn view(&self) -> PropIdentifiers {
        PropIdentifiers {
            life_state: self.life_state,
            player_cond: self.player_cond,
            player_cond_ex: self.player_cond_ex,
            player_cond_ex2: self.player_cond_ex2,
            player_cond_ex3: self.player_cond_ex3,
            condition_bits: self.condition_bits,
            captures: self.captures,
            defenses: self.defenses,
            kills: self.kills,
            deaths: self.deaths,
            dominations: self.dominations,
            revenge: self.revenge,
            buildings_destroyed: self.buildings_destroyed,
            headshots: self.headshots,
            backstabs: self.backstabs,
            heal_points: self.heal_points,
            invulns: self.invulns,
            teleports: self.teleports,
            damage_done: self.damage_done,
            kill_assists: self.kill_assists,
            bonus_points: self.bonus_points,
            points: self.points,
            charge_level: self.charge_level,
            local_charge_level: self.local_charge_level,
            owner: self.owner,
            team_num: self.team_num,
            team_score: self.team_score,
            teams_switched: self.teams_switched,
        }
    }
}

impl PropTable {
    /// Every entry is the identifier of the property that it is named after.
    #[verifier::type_invariant]
    spec fn holds_identifiers(self) -> bool {
        self@ == PropIdentifiers::of_decoder()
    }

    /// Works out the identifiers: every entry of the table is the identifier
    /// that the decoder gives to the property it is named after. This is also
    /// the invariant of the type, which the functions below draw on.
    pub fn new() -> (table: PropTable)
        ensures
            table@ == PropIdentifiers::of_decoder(),
    {
        PropTable {
            life_state: send_prop_identifier("DT_BasePlayer", "m_lifeState"),
            player_cond: send_prop_identifier("DT_TFPlayerShared", "m_nPlayerCond"),
            player_cond_ex: send_prop_identifier("DT_TFPlayerShared", "m_nPlayerCondEx"),
            player_cond_ex2: send_prop_identifier("DT_TFPlayerShared", "m_nPlayerCondEx2"),
            player_cond_ex3: send_prop_identifier("DT_TFPlayerShared", "m_nPlayerCondEx3"),
            condition_bits: send_prop_identifier("DT_TFPlayerConditionListExclusive", "_condition_bits"),
            captures: send_prop_identifier("DT_TFPlayerScoringDataExclusive", "m_iCaptures"),
            defenses: send_prop_identifier("DT_TFPlayerScoringDataExclusive", "m_iDefenses"),
            kills: send_prop_identifier("DT_TFPlayerScoringDataExclusive", "m_iKills"),
            deaths: send_prop_identifier("DT_TFPlayerScoringDataExclusive", "m_iDeaths"),
            dominations: send_prop_identifier("DT_TFPlayerScoringDataExclusive", "m_iDominations"),
            revenge: send_prop_identifier("DT_TFPlayerScoringDataExclusive", "m_iRevenge"),
            buildings_destroyed: send_prop_identifier("DT_TFPlayerScoringDataExclusive", "m_iBuildingsDestroyed"),
            headshots: send_prop_identifier("DT_TFPlayerScoringDataExclusive", "m_iHeadshots"),
            backstabs: send_prop_identifier("DT_TFPlayerScoringDataExclusive", "m_iBackstabs"),
            heal_points: send_prop_identifier("DT_TFPlayerScoringDataExclusive", "m_iHealPoints"),
            invulns: send_prop_identifier("DT_TFPlayerScoringDataExclusive", "m_iInvulns"),
            teleports: send_prop_identifier("DT_TFPlayerScoringDataExclusive", "m_iTeleports"),
            damage_done: send_prop_identifier("DT_TFPlayerScoringDataExclusive", "m_iDamageDone"),
            kill_assists: send_prop_identifier("DT_TFPlayerScoringDataExclusive", "m_iKillAssists"),
            bonus_points: send_prop_identifier("DT_TFPlayerScoringDataExclusive", "m_iBonusPoints"),
            points: send_prop_identifier("DT_TFPlayerScoringDataExclusive", "m_iPoints"),
            charge_level: send_prop_identifier("DT_TFWeaponMedigunDataNonLocal", "m_flChargeLevel"),
            local_charge_level: send_prop_identifier("DT_LocalTFWeaponMedigunData", "m_flChargeLevel"),
            owner: send_prop_identifier("DT_BaseCombatWeapon", "m_hOwner"),
            team_num: send_prop_identifier("DT_Team", "m_iTeamNum"),
            team_score: send_prop_identifier("DT_Team", "m_iScore"),
            teams_switched: send_prop_identifier("DT_TFGameRules", "m_bTeamsSwitched"),
        }
    }

    /// What the property `identifier` of a player object reports.
    pub fn player_prop(&self, identifier: u64) -> (prop: PlayerProp)
        ensures
            prop == player_prop_of(identifier),
    {
        proof {
            use_type_invariant(self);
        }
        if identifier == self.life_state {
            PlayerProp::LifeState
        } else if identifier == self.player_cond {
            PlayerProp::PlayerCond
        } else if identifier == self.player_cond_ex {
            PlayerProp::PlayerCondEx
        } else if identifier == self.player_cond_ex2 {
            PlayerProp::PlayerCondEx2
        } else if identifier == self.player_cond_ex3 {
            PlayerProp::PlayerCondEx3
        } else if identifier == self.condition_bits {
            PlayerProp::ConditionBits
        } else if identifier == self.captures {
            PlayerProp::Score(ScoreField::Captures)
        } else if identifier == self.defenses {
            PlayerProp::Score(ScoreField::Defenses)
        } else if identifier == self.kills {
            PlayerProp::Score(ScoreField::Kills)
        } else if identifier == self.deaths {
            PlayerProp::Score(ScoreField::Deaths)
        } else if identifier == self.dominations {
            PlayerProp::Score(ScoreField::Dominations)
        } else if identifier == self.revenge {
            PlayerProp::Score(ScoreField::Revenges)
        } else if identifier == self.buildings_destroyed {
            PlayerProp::Score(ScoreField::BuildingsDestroyed)
        } else if identifier == self.headshots {
            PlayerProp::Score(ScoreField::Headshots)
        } else if identifier == self.backstabs {
            PlayerProp::Score(ScoreField::Backstabs)
        } else if identifier == self.heal_points {
            PlayerProp::Score(ScoreField::Healing)
        } else if identifier == self.invulns {
            PlayerProp::Score(ScoreField::Ubercharges)
        } else if identifier == self.teleports {
            PlayerProp::Score(ScoreField::Teleports)
        } else if identifier == self.damage_done {
            PlayerProp::Score(ScoreField::DamageDealt)
        } else if identifier == self.kill_assists {
            PlayerProp::Score(ScoreField::Assists)
        } else if identifier == self.bonus_points {
            PlayerProp::Score(ScoreField::BonusPoints)
        } else if identifier == self.points {
            PlayerProp::Score(ScoreField::Points)
        } else {
            PlayerProp::Other
        }
    }

    /// What the property `identifier` of a healing device reports.
    pub fn medigun_prop(&self, identifier: u64) -> (prop: MedigunProp)
        ensures
            prop == medigun_prop_of(identifier),
    {
        proof {
            use_type_invariant(self);
        }
        if identifier == self.charge_level {
            MedigunProp::Charge
        } else if identifier == self.local_charge_level {
            MedigunProp::Charge
        } else if identifier == self.owner {
            MedigunProp::Owner
        } else {
            MedigunProp::Other
        }
    }

    /// What the property `identifier` of a team object reports.
    pub fn team_prop(&self, identifier: u64) -> (prop: TeamProp)
        ensures
            prop == team_prop_of(identifier),
    {
        proof {
            use_type_invariant(self);
        }
        if identifier == self.team_num {
            TeamProp::Number
        } else if identifier == self.team_score {
            TeamProp::Score
        } else {
            TeamProp::Other
        }
    }

    /// Whether `identifier` is the property that tells that the teams have switched sides.
    pub fn is_teams_switched(&self, identifier: u64) -> (found: bool)
        ensures
            found == is_teams_switched_prop(identifier),
    {
        proof {
            use_type_invariant(self);
        }
        identifier == self.teams_switched
    }
}

} // verus!
