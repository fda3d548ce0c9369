use vstd::prelude::*;

verus! {

/// What a property update carries.
#[derive(Debug, Clone, Copy, PartialEq, Eq, Structural)]
pub enum SendPropValue {
    Integer(i64),
    /// A fraction, as the nearest whole number of hundredths, kept within `0..=255`.
    Hundredths(u8),
    /// Any other kind of value.
    Other,
}

impl SendPropValue {
    /// The integer of the value, zero where it carries none.
    pub open spec fn integer(self) -> i64 {
        match self {
            SendPropValue::Integer(value) => value,
            _ => 0,
        }
    }

    /// The hundredths of the value, zero where it carries no fraction.
    pub open spec fn hundredths(self) -> u8 {
        match self {
            SendPropValue::Hundredths(value) => value,
            _ => 0,
        }
    }

    pub fn integer_or_zero(&self) -> (value: i64)
        ensures
            value == self.integer(),
    {
        match self {
            SendPropValue::Integer(value) => *value,
            _ => 0,
        }
    }

    pub fn hundredths_or_zero(&self) -> (value: u8)
        ensures
            value == self.hundredths(),
    {
        match self {
            SendPropValue::Hundredths(value) => *value,
            _ => 0,
        }
    }
}

/// One property update of an object.
#[derive(Debug, Clone, Copy, PartialEq, Eq, Structural)]
pub struct SendProp {
    /// The number by which the decoder identifies the property.
    pub identifier: u64,
    pub value: SendPropValue,
}

/// The state of one object in a tick, as far as it was sent.
#[derive(Debug)]
pub struct PacketEntity {
    /// Index of the object's class in the class table of the recording.
    pub server_class: u16,
    pub entity_index: u32,
    pub props: Vec<SendProp>,
}

/// The kinds of object that the analysis reads.
#[derive(Debug, Clone, Copy, PartialEq, Eq, Structural)]
pub enum EntityKind {
    Player,
    PlayerResource,
    Team,
    Medigun,
    GameRules,
    Other,
}

#[derive(Debug)]
pub struct PlayerDeathEvent {
    pub user_id: u16,
    pub attacker: u16,
    pub assister: u16,
    pub weapon: String,
    pub damage_bits: u32,
    pub custom_kill: u16,
    pub player_penetrate_count: u16,
    pub kill_streak_total: u16,
    pub kill_streak_assist: u16,
    pub kill_streak_victim: u16,
}

#[derive(Debug, Clone, Copy)]
pub struct PlayerHurtEvent {
    pub user_id: u16,
    pub attacker: u16,
    pub weapon_id: u16,
}

#[derive(Debug)]
pub struct PlayerTeamEvent {
    pub user_id: u16,
    pub team: u8,
    pub name: String,
}

#[derive(Debug, Clone, Copy)]
pub struct PlayerSpawnEvent {
    pub user_id: u16,
    pub team: u16,
    pub class: u16,
}

#[derive(Debug, Clone, Copy)]
pub struct TeamPlayRoundStalemateEvent {
    pub reason: u8,
}

#[derive(Debug, Clone, Copy)]
pub struct TeamPlayRoundStartEvent {
    pub full_reset: bool,
}

#[derive(Debug, Clone, Copy)]
pub struct TeamPlayRoundWinEvent {
    pub team: u8,
    pub win_reason: u8,
}

#[derive(Debug)]
pub struct PlayerConnectClientEvent {
    pub name: String,
    pub user_id: u16,
}

#[derive(Debug)]
pub struct PlayerDisconnectEvent {
    pub user_id: u16,
    pub reason: String,
}

#[derive(Debug)]
pub struct TeamPlayPointCapturedEvent {
    pub cp_name: String,
    pub team: u8,
    /// The object indices of the capturing players, one byte each.
    pub cappers: Vec<u8>,
}

#[derive(Debug, Clone, Copy)]
pub struct CrossbowHealEvent {
    pub healer: u8,
    pub target: u8,
}

/// A discrete event of the game.
#[derive(Debug)]
pub enum GameEvent {
    PlayerDeath(PlayerDeathEvent),
    PlayerHurt(PlayerHurtEvent),
    PlayerTeam(PlayerTeamEvent),
    PlayerSpawn(PlayerSpawnEvent),
    TeamPlayRoundStalemate(TeamPlayRoundStalemateEvent),
    TeamPlayRoundStart(TeamPlayRoundStartEvent),
    TeamPlayRoundWin(TeamPlayRoundWinEvent),
    PlayerConnectClient(PlayerConnectClientEvent),
    PlayerDisconnect(PlayerDisconnectEvent),
    TeamPlayPointCaptured(TeamPlayPointCapturedEvent),
    CrossbowHeal(CrossbowHealEvent),
    /// Any other event.
    Other,
}

/// Where on the screen a text message is shown.
#[derive(Debug, Clone, Copy, PartialEq, Eq, Structural)]
pub enum HudTextLocation {
    PrintNotify,
    PrintConsole,
    PrintTalk,
    PrintCenter,
}

/// A message addressed to the players' screens, its text without markup.
#[derive(Debug)]
pub enum UserMessage {
    /// A line of chat; `client` is the object index of the sender.
    SayText2 { client: u32, text: String },
    /// A line of text from the server.
    Text { location: HudTextLocation, text: String },
    /// Any other message.
    Other,
}

/// One record of the stream.
#[derive(Debug)]
pub enum Message {
    NetTick { tick: u32 },
    PacketEntities { entities: Vec<PacketEntity> },
    GameEvent { event: GameEvent },
    UserMessage(UserMessage),
    SetPause { pause: bool },
    /// `interval_per_tick` is the bit pattern of the server's seconds per tick.
    ServerInfo { player_slot: u8, interval_per_tick: u32 },
    /// Any other record.
    Other,
}

/// What the user-info table tells of one connected player.
#[derive(Debug)]
pub struct UserInfo {
    pub entity_id: u32,
    pub name: String,
    pub user_id: u16,
    /// The player's Steam ID in its bracketed textual form.
    pub steam_id: String,
}

} // verus!
