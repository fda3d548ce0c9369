use crate::game::Team;
use crate::player::{HighlightPlayerSnapshot, SnapshotView};
use vstd::prelude::*;

verus! {

/// A notable moment of the match.
#[derive(Debug)]
#[allow(inconsistent_fields)]
pub enum Highlight {
    Kill {
        killer: HighlightPlayerSnapshot,
        assister: Option<HighlightPlayerSnapshot>,
        victim: HighlightPlayerSnapshot,
        weapon: String,
        kill_icon: String,
        streak: usize,
        drop: bool,
        airshot: bool,
    },
    KillStreak { player: HighlightPlayerSnapshot, streak: u16 },
    KillStreakEnded { killer: HighlightPlayerSnapshot, victim: HighlightPlayerSnapshot, streak: u16 },
    ChatMessage { sender: HighlightPlayerSnapshot, text: String },
    Message { text: String },
    Airshot { attacker: HighlightPlayerSnapshot, victim: HighlightPlayerSnapshot },
    CrossbowAirshot { healer: HighlightPlayerSnapshot, target: HighlightPlayerSnapshot },
    PointCaptured { point_name: String, capturing_team: u8, cappers: Vec<HighlightPlayerSnapshot> },
    RoundStalemate { reason: u8 },
    RoundStart { full_reset: bool },
    RoundWin { winner: Team },
    PlayerConnected { player: HighlightPlayerSnapshot },
    PlayerDisconnected { player: HighlightPlayerSnapshot, reason: String },
    PlayerTeamChange { player: HighlightPlayerSnapshot, team: Team },
    Pause { pause: bool },
}

/// A [`Highlight`] as a value.
#[allow(inconsistent_fields)]
pub enum HighlightView {
    Kill {
        killer: SnapshotView,
        assister: Option<SnapshotView>,
        victim: SnapshotView,
        weapon: Seq<char>,
        kill_icon: Seq<char>,
        streak: usize,
        drop: bool,
        airshot: bool,
    },
    KillStreak { player: SnapshotView, streak: u16 },
    KillStreakEnded { killer: SnapshotView, victim: SnapshotView, streak: u16 },
    ChatMessage { sender: SnapshotView, text: Seq<char> },
    Message { text: Seq<char> },
    Airshot { attacker: SnapshotView, victim: SnapshotView },
    CrossbowAirshot { healer: SnapshotView, target: SnapshotView },
    PointCaptured { point_name: Seq<char>, capturing_team: u8, cappers: Seq<SnapshotView> },
    RoundStalemate { reason: u8 },
    RoundStart { full_reset: bool },
    RoundWin { winner: Team },
    PlayerConnected { player: SnapshotView },
    PlayerDisconnected { player: SnapshotView, reason: Seq<char> },
    PlayerTeamChange { player: SnapshotView, team: Team },
    Pause { pause: bool },
}

/// The values of a list of snapshots.
pub open spec fn snapshot_views(snapshots: Seq<HighlightPlayerSnapshot>) -> Seq<SnapshotView> {
    snapshots.map_values(|snapshot: HighlightPlayerSnapshot| snapshot@)
}

/// The value of a snapshot that may be absent.
pub open spec fn optional_snapshot_view(snapshot: Option<HighlightPlayerSnapshot>) -> Option<
    SnapshotView,
> {
    match snapshot {
        Some(snapshot) => Some(snapshot@),
        None => None,
    }
}

impl View for Highlight {
    type V = HighlightView;

    open spec fn view(&self) -> HighlightView {
        match *self {
            Highlight::Kill { killer, assister, victim, weapon, kill_icon, streak, drop, airshot } => {
                HighlightView::Kill {
                    killer: killer@,
                    assister: optional_snapshot_view(assister),
                    victim: victim@,
                    weapon: weapon@,
                    kill_icon: kill_icon@,
                    streak,
                    drop,
                    airshot,
                }
            },
            Highlight::KillStreak { player, streak } => HighlightView::KillStreak {
                player: player@,
                streak,
            },
            Highlight::KillStreakEnded { killer, victim, streak } => HighlightView::KillStreakEnded {
                killer: killer@,
                victim: victim@,
                streak,
            },
            Highlight::ChatMessage { sender, text } => HighlightView::ChatMessage {
                sender: sender@,
                text: text@,
            },
            Highlight::Message { text } => HighlightView::Message { text: text@ },
            Highlight::Airshot { attacker, victim } => HighlightView::Airshot {
                attacker: attacker@,
                victim: victim@,
            },
            Highlight::CrossbowAirshot { healer, target } => HighlightView::CrossbowAirshot {
                healer: healer@,
                target: target@,
            },
            Highlight::PointCaptured { point_name, capturing_team, cappers } => {
                HighlightView::PointCaptured {
                    point_name: point_name@,
                    capturing_team,
                    cappers: snapshot_views(cappers@),
                }
            },
            Highlight::RoundStalemate { reason } => HighlightView::RoundStalemate { reason },
            Highlight::RoundStart { full_reset } => HighlightView::RoundStart { full_reset },
            Highlight::RoundWin { winner } => HighlightView::RoundWin { winner },
            Highlight::PlayerConnected { player } => HighlightView::PlayerConnected {
                player: player@,
            },
            Highlight::PlayerDisconnected { player, reason } => HighlightView::PlayerDisconnected {
                player: player@,
                reason: reason@,
            },
            Highlight::PlayerTeamChange { player, team } => HighlightView::PlayerTeamChange {
                player: player@,
                team,
            },
            Highlight::Pause { pause } => HighlightView::Pause { pause },
        }
    }
}

/// A highlight and the tick at which it happened.
#[derive(Debug)]
pub struct HighlightEvent {
    pub tick: u32,
    pub event: Highlight,
}

/// A [`HighlightEvent`] as a value.
pub struct HighlightEventView {
    pub tick: u32,
    pub event: HighlightView,
}

impl View for HighlightEvent {
    type V = HighlightEventView;

    open spec fn view(&self) -> HighlightEventView {
        HighlightEventView { tick: self.tick, event: self.event@ }
    }
}

/// The values of a timeline.
pub open spec fn timeline_view(timeline: Seq<HighlightEvent>) -> Seq<HighlightEventView> {
    timeline.map_values(|event: HighlightEvent| event@)
}

/// The ticks of a timeline never go down.
pub open spec fn timeline_ordered(timeline: Seq<HighlightEventView>) -> bool {
    forall|i: int, j: int| 0 <= i <= j < timeline.len() ==> timeline[i].tick <= timeline[j].tick
}

/// No highlight of the timeline lies after `clock`.
pub open spec fn timeline_until(timeline: Seq<HighlightEventView>, clock: u32) -> bool {
    forall|i: int| 0 <= i < timeline.len() ==> timeline[i].tick <= clock
}

} // verus!
