use vstd::prelude::*;

verus! {

/// Damage type flags carried by a death event, by bit position.
#[derive(Debug, Clone, Copy, PartialEq, Eq, Structural)]
#[allow(non_camel_case_types)]
pub enum DamageFlag {
    DMG_CRUSH,
    DMG_BULLET,
    DMG_SLASH,
    DMG_BURN,
    DMG_VEHICLE,
    DMG_FALL,
    DMG_BLAST,
    DMG_CLUB,
    DMG_SHOCK,
    DMG_SONIC,
    DMG_RADIUS_MAX,
    DMG_PREVENT_PHYSICS_FORCE,
    DMG_NEVERGIB,
    DMG_ALWAYSGIB,
    DMG_DROWN,
    DMG_PARALYZE,
    DMG_NERVEGAS,
    DMG_NOCLOSEDISTANCEMOD,
    DMG_HALF_FALLOFF,
    DMG_DROWNRECOVER,
    DMG_CRITICAL,
    DMG_USEDISTANCEMOD,
    DMG_REMOVENORAGDOLL,
    DMG_PHYSGUN,
    DMG_IGNITE,
    DMG_USE_HITLOCATIONS,
    DMG_DONT_COUNT_DAMAGE_TOWARDS_CRIT_RATE,
    DMG_MELEE,
    DMG_DIRECT,
    DMG_BUCKSHOT,
}

impl DamageFlag {
    /// Position of the flag's bit in a damage word.
    pub open spec fn bit(self) -> nat {
        match self {
            DamageFlag::DMG_CRUSH => 0,
            DamageFlag::DMG_BULLET => 1,
            DamageFlag::DMG_SLASH => 2,
            DamageFlag::DMG_BURN => 3,
            DamageFlag::DMG_VEHICLE => 4,
            DamageFlag::DMG_FALL => 5,
            DamageFlag::DMG_BLAST => 6,
            DamageFlag::DMG_CLUB => 7,
            DamageFlag::DMG_SHOCK => 8,
            DamageFlag::DMG_SONIC => 9,
            DamageFlag::DMG_RADIUS_MAX => 10,
            DamageFlag::DMG_PREVENT_PHYSICS_FORCE => 11,
            DamageFlag::DMG_NEVERGIB => 12,
            DamageFlag::DMG_ALWAYSGIB => 13,
            DamageFlag::DMG_DROWN => 14,
            DamageFlag::DMG_PARALYZE => 15,
            DamageFlag::DMG_NERVEGAS => 16,
            DamageFlag::DMG_NOCLOSEDISTANCEMOD => 17,
            DamageFlag::DMG_HALF_FALLOFF => 18,
            DamageFlag::DMG_DROWNRECOVER => 19,
            DamageFlag::DMG_CRITICAL => 20,
            DamageFlag::DMG_USEDISTANCEMOD => 21,
            DamageFlag::DMG_REMOVENORAGDOLL => 22,
            DamageFlag::DMG_PHYSGUN => 23,
            DamageFlag::DMG_IGNITE => 24,
            DamageFlag::DMG_USE_HITLOCATIONS => 25,
            DamageFlag::DMG_DONT_COUNT_DAMAGE_TOWARDS_CRIT_RATE => 26,
            DamageFlag::DMG_MELEE => 27,
            DamageFlag::DMG_DIRECT => 28,
            DamageFlag::DMG_BUCKSHOT => 29,
        }
    }

    /// The word with only this flag's bit set.
    pub fn bitmask(&self) -> (mask: u32)
        ensures
            mask == 1u32 << (self.bit() as u32),
            self.bit() < 30,
    {
        let shift: u32 = match self {
            DamageFlag::DMG_CRUSH => 0,
            DamageFlag::DMG_BULLET => 1,
            DamageFlag::DMG_SLASH => 2,
            DamageFlag::DMG_BURN => 3,
            DamageFlag::DMG_VEHICLE => 4,
            DamageFlag::DMG_FALL => 5,
            DamageFlag::DMG_BLAST => 6,
            DamageFlag::DMG_CLUB => 7,
            DamageFlag::DMG_SHOCK => 8,
            DamageFlag::DMG_SONIC => 9,
            DamageFlag::DMG_RADIUS_MAX => 10,
            DamageFlag::DMG_PREVENT_PHYSICS_FORCE => 11,
            DamageFlag::DMG_NEVERGIB => 12,
            DamageFlag::DMG_ALWAYSGIB => 13,
            DamageFlag::DMG_DROWN => 14,
            DamageFlag::DMG_PARALYZE => 15,
            DamageFlag::DMG_NERVEGAS => 16,
            DamageFlag::DMG_NOCLOSEDISTANCEMOD => 17,
            DamageFlag::DMG_HALF_FALLOFF => 18,
            DamageFlag::DMG_DROWNRECOVER => 19,
            DamageFlag::DMG_CRITICAL => 20,
            DamageFlag::DMG_USEDISTANCEMOD => 21,
            DamageFlag::DMG_REMOVENORAGDOLL => 22,
            DamageFlag::DMG_PHYSGUN => 23,
            DamageFlag::DMG_IGNITE => 24,
            DamageFlag::DMG_USE_HITLOCATIONS => 25,
            DamageFlag::DMG_DONT_COUNT_DAMAGE_TOWARDS_CRIT_RATE => 26,
            DamageFlag::DMG_MELEE => 27,
            DamageFlag::DMG_DIRECT => 28,
            DamageFlag::DMG_BUCKSHOT => 29,
        };
        1u32 << shift
    }
}

} // verus!
