use crate::damage_flag::DamageFlag;
use crate::game::{
    TF_DMG_CUSTOM_BACKSTAB, TF_DMG_CUSTOM_BURNING, TF_DMG_CUSTOM_BURNING_ARROW,
    TF_DMG_CUSTOM_EYEBALL_ROCKET, TF_DMG_CUSTOM_FLYINGBURN, TF_DMG_CUSTOM_GIANT_HAMMER,
    TF_DMG_CUSTOM_HEADSHOT, TF_DMG_CUSTOM_HEADSHOT_DECAPITATION, TF_DMG_CUSTOM_KART,
    TF_DMG_CUSTOM_MERASMUS_DECAPITATION, TF_DMG_CUSTOM_MERASMUS_GRENADE,
    TF_DMG_CUSTOM_MERASMUS_ZAP, TF_DMG_CUSTOM_PUMPKIN_BOMB, TF_DMG_CUSTOM_SPELL_SKELETON,
    TF_DMG_CUSTOM_SUICIDE, TF_WEAPON_CANNON, TF_WEAPON_CROSSBOW, TF_WEAPON_GRENADELAUNCHER,
    TF_WEAPON_PARTICLE_CANNON, TF_WEAPON_ROCKETLAUNCHER, TF_WEAPON_ROCKETLAUNCHER_DIRECTHIT,
};
use crate::message::PlayerDeathEvent;
use crate::text::str_eq;
use vstd::prelude::*;

verus! {

/// Whether the damage word `bits` has the bit of `flag` set.
pub open spec fn has_damage_flag(bits: u32, flag: DamageFlag) -> bool {
    (bits & (1u32 << (flag.bit() as u32))) != 0
}

/// The icon of a kill after the custom damage code has had its say.
///
/// The icon starts out as the weapon's name. A backstab, a headshot, a
/// burning arrow, a pumpkin bomb, a kart or the giant hammer replace it; a
/// burning death does when the players set themselves on fire; a suicide
/// tells whether somebody else is credited for it.
pub open spec fn custom_kill_icon(
    weapon: Seq<char>,
    custom_kill: u16,
    self_inflicted: bool,
    player_penetrate_count: u16,
) -> Seq<char> {
    if custom_kill == TF_DMG_CUSTOM_BACKSTAB {
        if weapon == "sharp_dresser"@ {
            "sharp_dresser_backstab"@
        } else {
            "backstab"@
        }
    } else if custom_kill == TF_DMG_CUSTOM_HEADSHOT || custom_kill
        == TF_DMG_CUSTOM_HEADSHOT_DECAPITATION {
        if weapon == "ambassador"@ {
            "ambassador_headshot"@
        } else if weapon == "huntsman"@ {
            "huntsman_headshot"@
        } else if player_penetrate_count > 0 {
            "headshot_player_penetration"@
        } else {
            "headshot"@
        }
    } else if custom_kill == TF_DMG_CUSTOM_BURNING {
        if self_inflicted {
            "firedeath"@
        } else {
            weapon
        }
    } else if custom_kill == TF_DMG_CUSTOM_BURNING_ARROW {
        "huntsman_burning"@
    } else if custom_kill == TF_DMG_CUSTOM_FLYINGBURN {
        "huntsman_flyingburn"@
    } else if custom_kill == TF_DMG_CUSTOM_PUMPKIN_BOMB {
        "pumpkindeath"@
    } else if custom_kill == TF_DMG_CUSTOM_SUICIDE {
        if self_inflicted {
            "#suicide"@
        } else {
            "#assisted_suicide"@
        }
    } else if custom_kill == TF_DMG_CUSTOM_KART {
        "bumper_kart"@
    } else if custom_kill == TF_DMG_CUSTOM_GIANT_HAMMER {
        "necro_smasher"@
    } else {
        weapon
    }
}

/// The icon of a death without a foreign killer, after the damage word has
/// had its say: a vehicle beats the saw blade, which beats a fall, and a
/// death by none of them keeps `icon`.
pub open spec fn damage_kill_icon(icon: Seq<char>, damage_bits: u32) -> Seq<char> {
    if has_damage_flag(damage_bits, DamageFlag::DMG_VEHICLE) {
        "vehicle"@
    } else if has_damage_flag(damage_bits, DamageFlag::DMG_NERVEGAS) {
        "saw_kill"@
    } else if has_damage_flag(damage_bits, DamageFlag::DMG_FALL) {
        "#fall"@
    } else {
        icon
    }
}

/// The icon under which a death is shown.
pub open spec fn kill_icon_of(
    weapon: Seq<char>,
    custom_kill: u16,
    damage_bits: u32,
    player_penetrate_count: u16,
    killer: u16,
    victim: u16,
) -> Seq<char> {
    let icon = custom_kill_icon(weapon, custom_kill, killer == victim, player_penetrate_count);
    if killer == 0 || killer == victim {
        damage_kill_icon(icon, damage_bits)
    } else {
        icon
    }
}

/// The name under which a killer without a user ID is shown, where the
/// custom damage code names one of the bosses.
pub open spec fn boss_name(custom_kill: u16, killer: u16) -> Option<Seq<char>> {
    if killer != 0 {
        None
    } else if custom_kill == TF_DMG_CUSTOM_EYEBALL_ROCKET {
        Some("MONOCULUS!"@)
    } else if custom_kill == TF_DMG_CUSTOM_MERASMUS_ZAP || custom_kill
        == TF_DMG_CUSTOM_MERASMUS_GRENADE || custom_kill == TF_DMG_CUSTOM_MERASMUS_DECAPITATION {
        Some("MERASMUS!"@)
    } else if custom_kill == TF_DMG_CUSTOM_SPELL_SKELETON {
        Some("SKELETON"@)
    } else {
        None
    }
}

/// Whether a hit with the weapon class `weapon_id` can count as an airshot.
pub open spec fn is_airshot_weapon(weapon_id: u16) -> bool {
    weapon_id == TF_WEAPON_ROCKETLAUNCHER || weapon_id == TF_WEAPON_ROCKETLAUNCHER_DIRECTHIT
        || weapon_id == TF_WEAPON_PARTICLE_CANNON || weapon_id == TF_WEAPON_GRENADELAUNCHER
        || weapon_id == TF_WEAPON_CANNON || weapon_id == TF_WEAPON_CROSSBOW
}

pub fn airshot_weapon(weapon_id: u16) -> (counts: bool)
    ensures
        counts == is_airshot_weapon(weapon_id),
{
    weapon_id == TF_WEAPON_ROCKETLAUNCHER || weapon_id == TF_WEAPON_ROCKETLAUNCHER_DIRECTHIT
        || weapon_id == TF_WEAPON_PARTICLE_CANNON || weapon_id == TF_WEAPON_GRENADELAUNCHER
        || weapon_id == TF_WEAPON_CANNON || weapon_id == TF_WEAPON_CROSSBOW
}

/// The icon under which the death `event` is shown.
pub fn kill_icon(event: &PlayerDeathEvent) -> (icon: String)
    ensures
        icon@ == kill_icon_of(
            event.weapon@,
            event.custom_kill,
            event.damage_bits,
            event.player_penetrate_count,
            event.attacker,
            event.user_id,
        ),
{
    let killer_id: u16 = event.attacker;
    let victim_id: u16 = event.user_id;
    let custom_kill: u16 = event.custom_kill;
    let mut kill_icon: &str = event.weapon.as_str();
    if custom_kill == TF_DMG_CUSTOM_BACKSTAB {
        if str_eq(kill_icon, "sharp_dresser") {
            kill_icon = "sharp_dresser_backstab";
        } else {
            kill_icon = "backstab";
        }
    } else if custom_kill == TF_DMG_CUSTOM_HEADSHOT || custom_kill
        == TF_DMG_CUSTOM_HEADSHOT_DECAPITATION {
        if str_eq(kill_icon, "ambassador") {
            kill_icon = "ambassador_headshot";
        } else if str_eq(kill_icon, "huntsman") {
            kill_icon = "huntsman_headshot";
        } else if event.player_penetrate_count > 0 {
            kill_icon = "headshot_player_penetration";
        } else {
            kill_icon = "headshot";
        }
    } else if custom_kill == TF_DMG_CUSTOM_BURNING {
        if killer_id == victim_id {
            kill_icon = "firedeath";
        }
    } else if custom_kill == TF_DMG_CUSTOM_BURNING_ARROW {
        kill_icon = "huntsman_burning";
    } else if custom_kill == TF_DMG_CUSTOM_FLYINGBURN {
        kill_icon = "huntsman_flyingburn";
    } else if custom_kill == TF_DMG_CUSTOM_PUMPKIN_BOMB {
        kill_icon = "pumpkindeath";
    } else if custom_kill == TF_DMG_CUSTOM_SUICIDE {
        if killer_id == victim_id {
            kill_icon = "#suicide";
        } else {
            kill_icon = "#assisted_suicide";
        }
    } else if custom_kill == TF_DMG_CUSTOM_KART {
        kill_icon = "bumper_kart";
    } else if custom_kill == TF_DMG_CUSTOM_GIANT_HAMMER {
        kill_icon = "necro_smasher";
    }
    if killer_id == 0 || killer_id == victim_id {
        if (event.damage_bits & DamageFlag::DMG_FALL.bitmask()) != 0 {
            kill_icon = "#fall";
        }
        if (event.damage_bits & DamageFlag::DMG_NERVEGAS.bitmask()) != 0 {
            kill_icon = "saw_kill";
        }
        if (event.damage_bits & DamageFlag::DMG_VEHICLE.bitmask()) != 0 {
            kill_icon = "vehicle";
        }
    }
    kill_icon.to_string()
}

/// The name under which the killer of `event` is shown instead of their own, if any.
pub fn killer_name_override(event: &PlayerDeathEvent) -> (name: Option<String>)
    ensures
        match name {
            Some(name) => boss_name(event.custom_kill, event.attacker) == Some(name@),
            None => boss_name(event.custom_kill, event.attacker) is None,
        },
{
    let custom_kill: u16 = event.custom_kill;
    if event.attacker != 0 {
        None
    } else if custom_kill == TF_DMG_CUSTOM_EYEBALL_ROCKET {
        Some("MONOCULUS!".to_string())
    } else if custom_kill == TF_DMG_CUSTOM_MERASMUS_ZAP || custom_kill
        == TF_DMG_CUSTOM_MERASMUS_GRENADE || custom_kill == TF_DMG_CUSTOM_MERASMUS_DECAPITATION {
        Some("MERASMUS!".to_string())
    } else if custom_kill == TF_DMG_CUSTOM_SPELL_SKELETON {
        Some("SKELETON".to_string())
    } else {
        None
    }
}

} // verus!
