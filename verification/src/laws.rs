use crate::game::{PlayerLifeState, TF_COND_CRITBOOSTED};
use crate::highlight::{timeline_ordered, timeline_until, HighlightEventView};
use crate::message::{
    EntityKind, GameEvent, Message, PacketEntity, PlayerDeathEvent, SendProp,
    TeamPlayRoundWinEvent,
};
use crate::player::{PlayerProp, PlayerView};
use crate::props::{player_prop_of, send_prop_names};
use crate::roster::PlayersView;
use crate::scoreboard::ScoreField;
use crate::search::{lemma_first_index, lemma_first_index_is, lemma_last_index};
use crate::state::{medigun_owner, player_after_props, roster_after_listing, AnalyserView};
use crate::text::decimal_u32;
use vstd::prelude::*;

verus! {

/// No record has gone, and no match total has fallen.
pub open spec fn totals_kept(before: Seq<PlayerView>, after: Seq<PlayerView>) -> bool {
    &&& before.len() <= after.len()
    &&& forall|i: int, field: ScoreField|
        0 <= i < before.len() ==> #[trigger] after[i].scoreboard.value(field)
            >= before[i].scoreboard.value(field)
}

/// The timeline has only grown, and by highlights at `tick` alone.
pub open spec fn timeline_extended(
    before: Seq<HighlightEventView>,
    after: Seq<HighlightEventView>,
    tick: u32,
) -> bool {
    &&& before.len() <= after.len()
    &&& forall|i: int| 0 <= i < before.len() ==> #[trigger] after[i] == before[i]
    &&& forall|i: int| before.len() <= i < after.len() ==> (#[trigger] after[i]).tick == tick
}

/// The analysis has gone on within one tick: the tick is the same, the
/// timeline has grown by highlights at that tick alone, and no match total has
/// fallen.
pub open spec fn proceeds(before: AnalyserView, after: AnalyserView) -> bool {
    &&& after.demo_tick == before.demo_tick
    &&& timeline_extended(before.highlights, after.highlights, before.demo_tick)
    &&& totals_kept(before.players.players, after.players.players)
}

proof fn lemma_proceeds_chain(first: AnalyserView, second: AnalyserView, third: AnalyserView)
    requires
        proceeds(first, second),
        proceeds(second, third),
    ensures
        proceeds(first, third),
{
    assert forall|i: int, field: ScoreField| 0 <= i < first.players.players.len() implies (
    #[trigger] third.players.players[i].scoreboard.value(field))
        >= first.players.players[i].scoreboard.value(field) by {
        assert(second.players.players[i].scoreboard.value(field)
            >= first.players.players[i].scoreboard.value(field));
    }
}

/// A fold goes on within one tick if each of its steps does.
proof fn lemma_fold_proceeds<A>(
    items: Seq<A>,
    start: AnalyserView,
    step: spec_fn(AnalyserView, A) -> AnalyserView,
)
    requires
        forall|state: AnalyserView, item: A| #[trigger] proceeds(state, step(state, item)),
    ensures
        proceeds(start, items.fold_left(start, step)),
    decreases items.len(),
{
    if items.len() > 0 {
        lemma_fold_proceeds(items.drop_last(), start, step);
        let before = items.drop_last().fold_left(start, step);
        assert(proceeds(before, step(before, items.last())));
        lemma_proceeds_chain(start, before, step(before, items.last()));
    }
}

/// Reading a property lets no match total fall.
pub proof fn lemma_with_prop_keeps_totals(
    player: PlayerView,
    prop: PlayerProp,
    value: i64,
    round: u32,
    tick: u32,
    field: ScoreField,
)
    ensures
        player.with_prop(prop, value, round, tick).scoreboard.value(field)
            >= player.scoreboard.value(field),
{
}

proof fn lemma_player_after_props_keeps_totals(
    player: PlayerView,
    props: Seq<SendProp>,
    round: u32,
    tick: u32,
    field: ScoreField,
)
    ensures
        player_after_props(player, props, round, tick).scoreboard.value(field)
            >= player.scoreboard.value(field),
    decreases props.len(),
{
    if props.len() > 0 {
        lemma_player_after_props_keeps_totals(player, props.drop_last(), round, tick, field);
        let before = player_after_props(player, props.drop_last(), round, tick);
        let kind = player_prop_of(props.last().identifier);
        let value = props.last().value.integer();
        assert(player_after_props(player, props, round, tick) == before.with_prop(
            kind,
            value,
            round,
            tick,
        ));
        lemma_with_prop_keeps_totals(before, kind, value, round, tick, field);
    }
}

proof fn lemma_listing_keeps_totals(players: PlayersView, prop: SendProp, tick: u32)
    ensures
        totals_kept(players.players, roster_after_listing(players, prop, tick).players),
{
    let after = roster_after_listing(players, prop, tick);
    if after != players {
        let entity_id = decimal_u32(send_prop_names(prop.identifier).unwrap().1).unwrap();
        lemma_last_index(players.players, |player: PlayerView| player.entity_id == entity_id);
    }
}

proof fn lemma_listings_keep_totals(players: PlayersView, props: Seq<SendProp>, tick: u32)
    ensures
        totals_kept(
            players.players,
            props.fold_left(
                players,
                |players: PlayersView, prop: SendProp| roster_after_listing(players, prop, tick),
            ).players,
        ),
    decreases props.len(),
{
    let step = |players: PlayersView, prop: SendProp| roster_after_listing(players, prop, tick);
    if props.len() > 0 {
        lemma_listings_keep_totals(players, props.drop_last(), tick);
        let before = props.drop_last().fold_left(players, step);
        lemma_listing_keeps_totals(before, props.last(), tick);
        let after = step(before, props.last());
        assert forall|i: int, field: ScoreField| 0 <= i < players.players.len() implies (
        #[trigger] after.players[i].scoreboard.value(field)) >= players.players[i].scoreboard.value(
            field,
        ) by {
            assert(before.players[i].scoreboard.value(field) >= players.players[i].scoreboard.value(
                field,
            ));
        }
    }
}

proof fn lemma_player_leave_keeps_totals(
    players: PlayersView,
    teams_switched: bool,
    user_id: u16,
    tick: u32,
)
    ensures
        totals_kept(players.players, players.player_leave(teams_switched, user_id, tick).players),
{
    lemma_first_index(players.players, |player: PlayerView| player.user_id == user_id);
}

/// Taking in the update of one object goes on within the tick.
pub proof fn lemma_handle_entity_proceeds(state: AnalyserView, entity: PacketEntity)
    ensures
        proceeds(state, state.handle_entity(entity)),
{
    let props = entity.props@;
    let entity_index = entity.entity_index;
    match state.entity_kind(entity.server_class) {
        EntityKind::Player => {
            lemma_last_index(
                state.players.players,
                |player: PlayerView| player.entity_id == entity_index,
            );
            match state.players.position_by_entity_id(entity_index) {
                Some(i) => {
                    assert forall|field: ScoreField|
                        player_after_props(
                            state.players.players[i],
                            props,
                            state.current_round,
                            state.demo_tick,
                        ).scoreboard.value(field) >= (
                        #[trigger] state.players.players[i].scoreboard.value(field)) by {
                        lemma_player_after_props_keeps_totals(
                            state.players.players[i],
                            props,
                            state.current_round,
                            state.demo_tick,
                            field,
                        );
                    }
                },
                None => {},
            }
        },
        EntityKind::PlayerResource => {
            lemma_listings_keep_totals(state.players, props, state.demo_tick);
        },
        EntityKind::Team => {
            let step = |state: AnalyserView, prop: SendProp|
                state.with_team_prop(entity_index, prop);
            assert forall|state: AnalyserView, prop: SendProp| #[trigger]
                proceeds(state, step(state, prop)) by {}
            lemma_fold_proceeds(props, state, step);
        },
        EntityKind::Medigun => {
            let step = |state: AnalyserView, prop: SendProp|
                state.with_medigun_prop(entity_index, prop);
            assert forall|state: AnalyserView, prop: SendProp| #[trigger]
                proceeds(state, step(state, prop)) by {
                let after = state.with_medigun_prop(entity_index, prop);
                if after.players != state.players {
                    let owner = medigun_owner(state.mediguns, entity_index).unwrap();
                    lemma_last_index(
                        state.players.players,
                        |player: PlayerView| player.entity_id == owner,
                    );
                }
            }
            lemma_fold_proceeds(props, state, step);
        },
        EntityKind::GameRules => {
            let step = |state: AnalyserView, prop: SendProp| state.with_game_rules_prop(prop);
            assert forall|state: AnalyserView, prop: SendProp| #[trigger]
                proceeds(state, step(state, prop)) by {}
            lemma_fold_proceeds(props, state, step);
        },
        EntityKind::Other => {},
    }
}

/// Taking in a game event goes on within the tick.
pub proof fn lemma_handle_game_event_proceeds(state: AnalyserView, event: GameEvent)
    ensures
        proceeds(state, state.handle_game_event(event)),
{
    match event {
        GameEvent::PlayerDeath(event) => {
            lemma_player_leave_keeps_totals(
                state.players,
                state.teams_switched,
                event.user_id,
                state.demo_tick,
            );
        },
        GameEvent::PlayerSpawn(event) => {
            lemma_first_index(
                state.players.players,
                |player: PlayerView| player.user_id == event.user_id,
            );
        },
        GameEvent::PlayerDisconnect(event) => {
            lemma_player_leave_keeps_totals(
                state.players,
                state.teams_switched,
                event.user_id,
                state.demo_tick,
            );
        },
        _ => {},
    }
}

/// Within one record of the stream, the timeline only grows, by highlights
/// at the record's tick, and no match total of any player falls.
pub proof fn lemma_handle_message_proceeds(state: AnalyserView, message: Message, tick: u32)
    ensures
        proceeds(
            AnalyserView { demo_tick: tick, ..state },
            state.handle_message(message, tick),
        ),
{
    let now = AnalyserView { demo_tick: tick, ..state };
    match message {
        Message::PacketEntities { entities } => {
            let begun = AnalyserView { initial_packet_entities_parsed: true, ..now };
            let step = |state: AnalyserView, entity: PacketEntity| state.handle_entity(entity);
            assert forall|state: AnalyserView, entity: PacketEntity| #[trigger]
                proceeds(state, step(state, entity)) by {
                lemma_handle_entity_proceeds(state, entity);
            }
            lemma_fold_proceeds(entities@, begun, step);
        },
        Message::GameEvent { event } => {
            lemma_handle_game_event_proceeds(now, event);
        },
        _ => {},
    }
}

/// The match total of a counter never falls: whatever record of the stream
/// is taken in, every player on record keeps their place in the roster, and
/// each of their match totals stays or rises.
pub proof fn law_match_totals_never_fall(
    state: AnalyserView,
    message: Message,
    tick: u32,
    player: int,
    field: ScoreField,
)
    requires
        0 <= player < state.players.players.len(),
    ensures
        player < state.handle_message(message, tick).players.players.len(),
        state.handle_message(message, tick).players.players[player].scoreboard.value(field)
            >= state.players.players[player].scoreboard.value(field),
{
    lemma_handle_message_proceeds(state, message, tick);
}

/// What a record has earned: its scoreboards and its playtime.
pub open spec fn same_earnings(before: PlayerView, after: PlayerView) -> bool {
    &&& after.scoreboard == before.scoreboard
    &&& after.round_scoreboards == before.round_scoreboards
    &&& after.time_on_class == before.time_on_class
    &&& after.time_on_team == before.time_on_team
}

/// A report of the user-info table takes nothing from anybody: every record
/// is still there afterwards with what it has earned, under its user ID or,
/// after a reconnection, under the new one. Only its place may have changed.
pub proof fn law_user_info_keeps_earnings(
    roster: PlayersView,
    name: Seq<char>,
    steam_id: u64,
    user_id: u16,
    entity_id: u32,
    player: int,
)
    requires
        0 <= player < roster.players.len(),
    ensures
        exists|place: int|
            0 <= place < roster.insert_or_update(name, steam_id, user_id, entity_id).players.len()
                && same_earnings(
                roster.players[player],
                #[trigger] roster.insert_or_update(
                    name,
                    steam_id,
                    user_id,
                    entity_id,
                ).players[place],
            ) && (roster.insert_or_update(name, steam_id, user_id, entity_id).players[place].user_id
                == roster.players[player].user_id || roster.insert_or_update(
                name,
                steam_id,
                user_id,
                entity_id,
            ).players[place].user_id == user_id),
{
    let after = roster.insert_or_update(name, steam_id, user_id, entity_id).players;
    lemma_first_index(roster.players, |record: PlayerView| record.user_id == user_id);
    lemma_last_index(roster.players, |record: PlayerView| record.steam_id == steam_id);
    let moved = match roster.position(user_id) {
        Some(i) => Some(i),
        None => roster.position_by_steam_id(steam_id),
    };
    match moved {
        Some(i) => {
            let place = if player == i {
                after.len() - 1
            } else if player < i {
                player
            } else {
                player - 1
            };
            assert(same_earnings(roster.players[player], after[place]));
        },
        None => {
            assert(same_earnings(roster.players[player], after[player]));
        },
    }
}

/// The timeline is in the order of its ticks: as long as no record of the
/// stream arrives with a tick before a highlight on the timeline, a highlight
/// that was added earlier never has a later tick than one that was added after
/// it. What is on the timeline stays there unchanged.
pub proof fn law_timeline_in_tick_order(state: AnalyserView, message: Message, tick: u32)
    requires
        timeline_ordered(state.highlights),
        timeline_until(state.highlights, tick),
    ensures
        timeline_extended(state.highlights, state.handle_message(message, tick).highlights, tick),
        timeline_ordered(state.handle_message(message, tick).highlights),
        timeline_until(state.handle_message(message, tick).highlights, tick),
        state.handle_message(message, tick).demo_tick == tick,
{
    lemma_handle_message_proceeds(state, message, tick);
    let after = state.handle_message(message, tick).highlights;
    assert forall|i: int, j: int| 0 <= i <= j < after.len() implies after[i].tick
        <= after[j].tick by {
        if j < state.highlights.len() {
            assert(after[i] == state.highlights[i]);
            assert(after[j] == state.highlights[j]);
        } else if i < state.highlights.len() {
            assert(after[i] == state.highlights[i]);
        }
    }
    assert forall|i: int| 0 <= i < after.len() implies after[i].tick <= tick by {
        if i < state.highlights.len() {
            assert(after[i] == state.highlights[i]);
        }
    }
}

/// A life is counted once. When a round is won, the life in progress of a
/// player who is alive is added to the playtime of their class and of the
/// team that counts for them; a death of that player right after the win
/// adds nothing more.
pub proof fn law_round_end_counts_life_once(
    state: AnalyserView,
    win: TeamPlayRoundWinEvent,
    death: PlayerDeathEvent,
    player: int,
)
    requires
        state.wf(),
        0 <= player < state.players.players.len(),
        state.players.players[player].life_state == PlayerLifeState::Alive,
        state.players.players[player].last_spawn_tick is Some,
        death.user_id == state.players.players[player].user_id,
    ensures
        ({
            let before = state.players.players[player];
            let won = state.handle_game_event(GameEvent::TeamPlayRoundWin(win));
            let died = won.handle_game_event(GameEvent::PlayerDeath(death));
            let life = state.demo_tick - before.last_spawn_tick.unwrap();
            let class = before.class.slot();
            let team = before.credited_team(state.teams_switched).slot();
            &&& won.players.players[player].time_on_class == before.time_on_class.update(
                class,
                (before.time_on_class[class] + life) as usize,
            )
            &&& won.players.players[player].time_on_class[class] == before.time_on_class[class]
                + life
            &&& won.players.players[player].time_on_team == before.time_on_team.update(
                team,
                (before.time_on_team[team] + life) as usize,
            )
            &&& won.players.players[player].time_on_team[team] == before.time_on_team[team] + life
            &&& died.players.players[player].time_on_class
                == won.players.players[player].time_on_class
            &&& died.players.players[player].time_on_team
                == won.players.players[player].time_on_team
        }),
{
    let before = state.players.players[player];
    assert(before.wf(state.demo_tick));
    let won = state.handle_game_event(GameEvent::TeamPlayRoundWin(win));
    assert(won.players.players[player] == before.life_end(state.teams_switched, state.demo_tick));
    assert(won.players.players.len() == state.players.players.len());
    assert forall|j: int| 0 <= j < player implies !(won.players.players[j].user_id
        == death.user_id) by {
        assert(won.players.players[j].user_id == state.players.players[j].user_id);
    }
    lemma_first_index_is(
        won.players.players,
        |record: PlayerView| record.user_id == death.user_id,
        player,
    );
}

/// Ending a life twice is ending it once.
pub proof fn law_life_end_once(player: PlayerView, teams_switched: bool, tick: u32, again: bool, later: u32)
    ensures
        player.life_end(teams_switched, tick).life_end(again, later) == player.life_end(
            teams_switched,
            tick,
        ),
{
}

/// The critical boost is held exactly when its bit is set in the condition
/// word or in the separate register; with the bit of the word clear, the
/// register alone decides.
pub proof fn law_critical_boost_register(player: PlayerView)
    ensures
        player.has_cond(TF_COND_CRITBOOSTED) <==> ((player.player_cond & (1u32 << 11)) != 0 || (
        player.condition_bits & (1u32 << 11)) != 0),
{
    let word = player.player_cond;
    let register = player.condition_bits;
    assert((((word | register) & (1u32 << 11)) != 0) <==> ((word & (1u32 << 11)) != 0 || (register
        & (1u32 << 11)) != 0)) by (bit_vector);
}

/// A reconnection keeps what the player has earned. When an account that has
/// a record comes back under a user ID that is new, the record goes to the
/// end of the list with its scoreboards and its playtime, the player counts
/// as dead, the old user ID leads to the new one, and no alias leads to the
/// old user ID any more.
pub proof fn law_reconnection_keeps_record(
    roster: PlayersView,
    name: Seq<char>,
    steam_id: u64,
    user_id: u16,
    entity_id: u32,
    player: int,
)
    requires
        roster.position(user_id) is None,
        roster.position_by_steam_id(steam_id) == Some(player),
    ensures
        ({
            let after = roster.insert_or_update(name, steam_id, user_id, entity_id);
            let old_user_id = roster.players[player].user_id;
            &&& after.players.len() == roster.players.len()
            &&& after.players.last().user_id == user_id
            &&& same_earnings(roster.players[player], after.players.last())
            &&& after.players.last().life_state == PlayerLifeState::Death
            &&& after.alias_of(old_user_id) == Some(user_id)
            &&& forall|retired: u16|
                after.aliases.contains_key(retired) ==> #[trigger] after.aliases[retired]
                    != old_user_id
        }),
{
    lemma_first_index(roster.players, |record: PlayerView| record.user_id == user_id);
    lemma_last_index(roster.players, |record: PlayerView| record.steam_id == steam_id);
}

} // verus!
