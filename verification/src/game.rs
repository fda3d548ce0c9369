use vstd::prelude::*;

verus! {

/// The side a player is on.
#[derive(Debug, Clone, Copy, PartialEq, Eq, Structural, Hash)]
pub enum Team {
    Other,
    Spectator,
    Red,
    Blue,
}

impl Team {
    /// The team that a wire number stands for; numbers without a team give `Other`.
    pub open spec fn of_number(number: int) -> Team {
        if number == 1 {
            Team::Spectator
        } else if number == 2 {
            Team::Red
        } else if number == 3 {
            Team::Blue
        } else {
            Team::Other
        }
    }

    /// Whether a wire number names one of the four teams.
    pub open spec fn is_number(number: int) -> bool {
        0 <= number <= 3
    }

    /// Slot of the team in a per-team table.
    pub open spec fn slot(self) -> int {
        match self {
            Team::Other => 0,
            Team::Spectator => 1,
            Team::Red => 2,
            Team::Blue => 3,
        }
    }

    /// Red and Blue exchanged, every other team kept.
    pub open spec fn exchanged(self) -> Team {
        match self {
            Team::Red => Team::Blue,
            Team::Blue => Team::Red,
            other => other,
        }
    }

    pub fn new(number: i64) -> (team: Team)
        ensures
            team == Team::of_number(number as int),
    {
        if number == 1 {
            Team::Spectator
        } else if number == 2 {
            Team::Red
        } else if number == 3 {
            Team::Blue
        } else {
            Team::Other
        }
    }

    /// The team with exactly this number, if there is one.
    pub fn from_number(number: u8) -> (team: Option<Team>)
        ensures
            team == if Team::is_number(number as int) {
                Some(Team::of_number(number as int))
            } else {
                None
            },
    {
        if number <= 3 {
            Some(Team::new(number as i64))
        } else {
            None
        }
    }

    pub fn index(self) -> (slot: usize)
        ensures
            slot == self.slot(),
    {
        match self {
            Team::Other => 0,
            Team::Spectator => 1,
            Team::Red => 2,
            Team::Blue => 3,
        }
    }

    pub fn swapped(self) -> (team: Team)
        ensures
            team == self.exchanged(),
    {
        match self {
            Team::Red => Team::Blue,
            Team::Blue => Team::Red,
            other => other,
        }
    }
}

/// The class a player has picked.
#[derive(Debug, Clone, Copy, PartialEq, Eq, Structural, Hash)]
pub enum Class {
    Other,
    Scout,
    Sniper,
    Soldier,
    Demoman,
    Medic,
    Heavy,
    Pyro,
    Spy,
    Engineer,
}

impl Class {
    /// The class that a wire number stands for; numbers without a class give `Other`.
    pub open spec fn of_number(number: int) -> Class {
        if number == 1 {
            Class::Scout
        } else if number == 2 {
            Class::Sniper
        } else if number == 3 {
            Class::Soldier
        } else if number == 4 {
            Class::Demoman
        } else if number == 5 {
            Class::Medic
        } else if number == 6 {
            Class::Heavy
        } else if number == 7 {
            Class::Pyro
        } else if number == 8 {
            Class::Spy
        } else if number == 9 {
            Class::Engineer
        } else {
            Class::Other
        }
    }

    /// Slot of the class in a per-class table.
    pub open spec fn slot(self) -> int {
        match self {
            Class::Other => 0,
            Class::Scout => 1,
            Class::Sniper => 2,
            Class::Soldier => 3,
            Class::Demoman => 4,
            Class::Medic => 5,
            Class::Heavy => 6,
            Class::Pyro => 7,
            Class::Spy => 8,
            Class::Engineer => 9,
        }
    }

    pub fn new(number: i64) -> (class: Class)
        ensures
            class == Class::of_number(number as int),
    {
        if number == 1 {
            Class::Scout
        } else if number == 2 {
            Class::Sniper
        } else if number == 3 {
            Class::Soldier
        } else if number == 4 {
            Class::Demoman
        } else if number == 5 {
            Class::Medic
        } else if number == 6 {
            Class::Heavy
        } else if number == 7 {
            Class::Pyro
        } else if number == 8 {
            Class::Spy
        } else if number == 9 {
            Class::Engineer
        } else {
            Class::Other
        }
    }

    pub fn index(self) -> (slot: usize)
        ensures
            slot == self.slot(),
    {
        match self {
            Class::Other => 0,
            Class::Scout => 1,
            Class::Sniper => 2,
            Class::Soldier => 3,
            Class::Demoman => 4,
            Class::Medic => 5,
            Class::Heavy => 6,
            Class::Pyro => 7,
            Class::Spy => 8,
            Class::Engineer => 9,
        }
    }
}

/// Where a player stands between spawning and respawning.
#[derive(Debug, Clone, Copy, PartialEq, Eq, Structural)]
pub enum PlayerLifeState {
    Alive,
    Dying,
    Death,
    Respawnable,
}

impl PlayerLifeState {
    /// The state that a wire number stands for; any other number reads as `Alive`.
    pub open spec fn of_number(number: int) -> PlayerLifeState {
        if number == 1 {
            PlayerLifeState::Dying
        } else if number == 2 {
            PlayerLifeState::Death
        } else if number == 3 {
            PlayerLifeState::Respawnable
        } else {
            PlayerLifeState::Alive
        }
    }

    pub fn from_number(number: i64) -> (state: PlayerLifeState)
        ensures
            state == PlayerLifeState::of_number(number as int),
    {
        if number == 1 {
            PlayerLifeState::Dying
        } else if number == 2 {
            PlayerLifeState::Death
        } else if number == 3 {
            PlayerLifeState::Respawnable
        } else {
            PlayerLifeState::Alive
        }
    }
}

/// Condition index of the critical boost, the one condition that is also
/// reported through the separate condition register.
pub const TF_COND_CRITBOOSTED: u32 = 11;

/// Condition index of a player who is airborne from an explosive jump.
pub const TF_COND_BLASTJUMPING: u32 = 81;

// Custom damage codes that change how a kill is shown.
pub const TF_DMG_CUSTOM_HEADSHOT: u16 = 1;
pub const TF_DMG_CUSTOM_BACKSTAB: u16 = 2;
pub const TF_DMG_CUSTOM_BURNING: u16 = 3;
pub const TF_DMG_CUSTOM_SUICIDE: u16 = 6;
pub const TF_DMG_CUSTOM_BURNING_ARROW: u16 = 17;
pub const TF_DMG_CUSTOM_FLYINGBURN: u16 = 18;
pub const TF_DMG_CUSTOM_PUMPKIN_BOMB: u16 = 19;
pub const TF_DMG_CUSTOM_EYEBALL_ROCKET: u16 = 50;
pub const TF_DMG_CUSTOM_HEADSHOT_DECAPITATION: u16 = 51;
pub const TF_DMG_CUSTOM_MERASMUS_GRENADE: u16 = 58;
pub const TF_DMG_CUSTOM_MERASMUS_ZAP: u16 = 59;
pub const TF_DMG_CUSTOM_MERASMUS_DECAPITATION: u16 = 60;
pub const TF_DMG_CUSTOM_SPELL_SKELETON: u16 = 66;
pub const TF_DMG_CUSTOM_KART: u16 = 75;
pub const TF_DMG_CUSTOM_GIANT_HAMMER: u16 = 76;

// Weapon classes whose hits can knock a player about.
pub const TF_WEAPON_ROCKETLAUNCHER: u16 = 22;
pub const TF_WEAPON_GRENADELAUNCHER: u16 = 23;
pub const TF_WEAPON_ROCKETLAUNCHER_DIRECTHIT: u16 = 65;
pub const TF_WEAPON_CROSSBOW: u16 = 73;
pub const TF_WEAPON_PARTICLE_CANNON: u16 = 79;
pub const TF_WEAPON_CANNON: u16 = 91;

} // verus!
