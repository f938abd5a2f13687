//! Fires the triggers that the player walks into.

use vstd::prelude::*;

use crate::entities::entity::Direction;
use crate::entities::entity::EntityData;
use crate::entities::game_event::chebyshev;
use crate::entities::game_event::EventKind;
use crate::entities::game_event::GameEvent;
use crate::entities::player::Player;
use crate::utils::collision_checker::probe_area;
use crate::utils::game_state_handler::GameState;
use crate::utils::game_state_handler::GameStateHandler;
use crate::utils::key_handler::KeyHandler;
use crate::utils::ui::UIHandler;
use crate::TILE_SIZE;

verus! {

/// The triggers of the world and the request to bring the monsters back.
#[derive(Debug)]
pub struct GameEventHandler {
    pub game_events: Vec<GameEvent>,
    pub respawn_monsters: bool,
}

/// Whether the player touches the trigger: one step ahead its hit-box
/// overlaps the trigger's rectangle, the trigger is not used up, and the
/// player faces the way the trigger asks for, if it asks for one.
pub open spec fn spec_hit(player: EntityData, event: GameEvent) -> bool {
    &&& player.probe_span().overlaps(event.span())
    &&& !event.event_done
    &&& match event.direction {
        Some(direction) => player.direction == direction,
        None => true,
    }
}

/// Whether the trigger fires: it is armed, the player touches it, and a
/// healing pool also needs confirm to be held.
pub open spec fn spec_fires(event: GameEvent, player: EntityData, confirm: bool) -> bool {
    &&& event.can_touch
    &&& spec_hit(player, event)
    &&& (event.kind == EventKind::HealingPool ==> confirm)
}

/// The trigger as the check sees it: armed again if the player has moved
/// more than a tile away from where it last fired.
pub open spec fn spec_seen(event: GameEvent, player: EntityData) -> GameEvent {
    event.spec_rearmed(player.world_x as int, player.world_y as int)
}

/// The triggers as the check sees them.
pub open spec fn spec_seen_all(events: Seq<GameEvent>, player: EntityData) -> Seq<GameEvent> {
    Seq::new(events.len(), |j: int| spec_seen(events[j], player))
}

/// The player after a trigger of this kind fired: a pit takes one life but
/// never the life below zero, a pool restores all life, a teleport moves the
/// player. Every trigger ends an attack.
pub open spec fn spec_player_after(kind: EventKind, player: Player) -> Player {
    let entity = player.entity;
    let after = match kind {
        EventKind::DamagePit => EntityData {
            life: if entity.life > 1 { (entity.life - 1) as i32 } else { 0 },
            attacking: false,
            ..entity
        },
        EventKind::HealingPool => EntityData {
            life: entity.max_life,
            attacking: false,
            ..entity
        },
        EventKind::Teleport { world_x, world_y } => EntityData {
            world_x,
            world_y,
            attacking: false,
            ..entity
        },
    };
    Player { entity: after, ..player }
}

/// The text shown after a trigger of this kind fired.
pub open spec fn spec_event_text(kind: EventKind) -> Seq<char> {
    match kind {
        EventKind::DamagePit => "You fall into a pit!"@,
        EventKind::HealingPool => "You drank the the water.\nYour life has been recovered."@,
        EventKind::Teleport { .. } => "Teleport!"@,
    }
}

/// The mode after a trigger of this kind fired: a pit and a pool open a
/// dialogue.
pub open spec fn spec_mode_after_event(kind: EventKind, state: GameState) -> GameState {
    match kind {
        EventKind::Teleport { .. } => state,
        _ => GameState::Dialogue,
    }
}

/// The first trigger at or after place `from` that fires.
pub open spec fn spec_first_firing(
    events: Seq<GameEvent>,
    player: EntityData,
    confirm: bool,
    from: int,
) -> Option<usize>
    decreases events.len() - from,
{
    if from < 0 || from >= events.len() {
        None
    } else if spec_fires(events[from], player, confirm) {
        Some(from as usize)
    } else {
        spec_first_firing(events, player, confirm, from + 1)
    }
}

/// What one check of the triggers leads to.
pub struct EventOutcome {
    /// The place of the trigger that fired, if one did.
    pub fired: Option<usize>,
    /// The triggers afterwards.
    pub events: Seq<GameEvent>,
    /// Whether the monsters are asked back.
    pub respawn_monsters: bool,
    /// The player afterwards.
    pub player: Player,
    /// The mode afterwards.
    pub game_state: GameStateHandler,
    /// The new dialogue text, if there is one.
    pub text: Option<Seq<char>>,
}

/// What one check of the triggers leads to: every trigger is seen by the
/// player first, then the first one that fires is applied, is disarmed and
/// remembers where the player stood.
#[verifier::opaque]
pub open spec fn spec_check_event(
    events: Seq<GameEvent>,
    respawn_monsters: bool,
    game_state: GameStateHandler,
    player: Player,
    confirm: bool,
) -> EventOutcome {
    let seen = spec_seen_all(events, player.entity);
    match spec_first_firing(seen, player.entity, confirm, 0) {
        None => EventOutcome {
            fired: None,
            events: seen,
            respawn_monsters,
            player,
            game_state,
            text: None,
        },
        Some(index) => {
            let event = seen[index as int];
            EventOutcome {
                fired: Some(index),
                events: seen.update(
                    index as int,
                    event.spec_fired(player.entity.world_x, player.entity.world_y),
                ),
                respawn_monsters: respawn_monsters || event.kind == EventKind::HealingPool,
                player: spec_player_after(event.kind, player),
                game_state: GameStateHandler {
                    game_state: spec_mode_after_event(event.kind, game_state.game_state),
                    ..game_state
                },
                text: Some(spec_event_text(event.kind)),
            }
        },
    }
}

/// Whether the interface `after` is the interface `before` with the dialogue
/// text replaced by `text`, if there is one.
pub open spec fn spec_shows(before: UIHandler, after: UIHandler, text: Option<Seq<char>>) -> bool {
    match text {
        Some(line) => {
            &&& after.current_dialogue@ == line
            &&& after == (UIHandler { current_dialogue: after.current_dialogue, ..before })
        },
        None => after == before,
    }
}

/// A check of the triggers leaves the player's hit-box where it was: the
/// probe works on a copy, so there is nothing to put back.
pub proof fn lemma_event_check_keeps_hit_box(
    events: Seq<GameEvent>,
    respawn_monsters: bool,
    game_state: GameStateHandler,
    player: Player,
    confirm: bool,
)
    ensures
        ({
            let after = spec_check_event(
                events,
                respawn_monsters,
                game_state,
                player,
                confirm,
            ).player.entity;
            &&& after.solid_area == player.entity.solid_area
            &&& after.solid_area_default_x == player.entity.solid_area_default_x
            &&& after.solid_area_default_y == player.entity.solid_area_default_y
        }),
{
    reveal(spec_check_event);
}

/// The first trigger that fires, if there is one, is a trigger that fires
/// and none before it does.
pub proof fn lemma_first_firing(
    events: Seq<GameEvent>,
    player: EntityData,
    confirm: bool,
    from: int,
)
    requires
        0 <= from,
        events.len() <= usize::MAX,
    ensures
        match spec_first_firing(events, player, confirm, from) {
            Some(index) => {
                &&& from <= index < events.len()
                &&& spec_fires(events[index as int], player, confirm)
                &&& forall|j: int| from <= j < index ==> !spec_fires(events[j], player, confirm)
            },
            None => forall|j: int|
                from <= j < events.len() ==> !spec_fires(events[j], player, confirm),
        },
    decreases events.len() - from,
{
    if from < events.len() && !spec_fires(events[from], player, confirm) {
        lemma_first_firing(events, player, confirm, from + 1);
    }
}

/// A disarmed trigger stays silent while the player is near: if the player
/// is no more than a tile away from where the trigger last fired, the
/// trigger does not fire and stays disarmed, however often it is checked.
pub proof fn lemma_disarmed_trigger_stays_silent(
    events: Seq<GameEvent>,
    respawn_monsters: bool,
    game_state: GameStateHandler,
    player: Player,
    confirm: bool,
    index: int,
)
    requires
        0 <= index < events.len() <= usize::MAX,
        !events[index].can_touch,
        events[index].distance_from_last(
            player.entity.world_x as int,
            player.entity.world_y as int,
        ) <= TILE_SIZE,
    ensures
        ({
            let outcome = spec_check_event(events, respawn_monsters, game_state, player, confirm);
            &&& outcome.fired != Some(index as usize)
            &&& outcome.events.len() == events.len()
            &&& outcome.events[index] == events[index]
        }),
{
    reveal(spec_check_event);
    let seen = spec_seen_all(events, player.entity);
    lemma_first_firing(seen, player.entity, confirm, 0);
    assert(seen[index] == events[index]);
}

/// A trigger that fired is disarmed and remembers where the player stood.
pub proof fn lemma_fired_trigger_is_disarmed(
    events: Seq<GameEvent>,
    respawn_monsters: bool,
    game_state: GameStateHandler,
    player: Player,
    confirm: bool,
)
    requires
        events.len() <= usize::MAX,
    ensures
        ({
            let outcome = spec_check_event(events, respawn_monsters, game_state, player, confirm);
            outcome.fired matches Some(index) ==> {
                &&& index < events.len()
                &&& outcome.events.len() == events.len()
                &&& !outcome.events[index as int].can_touch
                &&& outcome.events[index as int].previous_x == player.entity.world_x
                &&& outcome.events[index as int].previous_y == player.entity.world_y
            }
        }),
{
    reveal(spec_check_event);
    let seen = spec_seen_all(events, player.entity);
    lemma_first_firing(seen, player.entity, confirm, 0);
}

/// A trigger does not fire twice in a row: after it fired, it does not fire
/// again while the player is no more than a tile away from where it stood
/// when the trigger fired, however often the triggers are checked there.
pub proof fn lemma_no_refire_nearby(
    events: Seq<GameEvent>,
    respawn_monsters: bool,
    game_state: GameStateHandler,
    player: Player,
    confirm: bool,
    later: Player,
    later_confirm: bool,
)
    requires
        events.len() <= usize::MAX,
        chebyshev(
            later.entity.world_x as int,
            later.entity.world_y as int,
            player.entity.world_x as int,
            player.entity.world_y as int,
        ) <= TILE_SIZE,
    ensures
        ({
            let outcome = spec_check_event(events, respawn_monsters, game_state, player, confirm);
            let next = spec_check_event(
                outcome.events,
                outcome.respawn_monsters,
                outcome.game_state,
                later,
                later_confirm,
            );
            outcome.fired is Some ==> {
                &&& next.fired != outcome.fired
                &&& next.events[outcome.fired.unwrap() as int]
                    == outcome.events[outcome.fired.unwrap() as int]
            }
        }),
{
    let outcome = spec_check_event(events, respawn_monsters, game_state, player, confirm);
    lemma_fired_trigger_is_disarmed(events, respawn_monsters, game_state, player, confirm);
    if outcome.fired is Some {
        lemma_disarmed_trigger_stays_silent(
            outcome.events,
            outcome.respawn_monsters,
            outcome.game_state,
            later,
            later_confirm,
            outcome.fired.unwrap() as int,
        );
    }
}

impl GameEventHandler {
    /// The triggers of the world: a pit on tile (27, 16) for a player facing
    /// right, and a healing pool on tile (23, 12) for a player facing up.
    pub open spec fn spec_initial_events() -> Seq<GameEvent> {
        seq![
            GameEvent { direction: Some(Direction::Right), ..GameEvent::spec_at(27, 16) },
            GameEvent {
                kind: EventKind::HealingPool,
                direction: Some(Direction::Up),
                ..GameEvent::spec_at(23, 12)
            },
        ]
    }

    /// The handler with the triggers of the world, all armed, and no request
    /// to bring the monsters back.
    pub fn new() -> (handler: GameEventHandler)
        ensures
            handler.game_events@ == Self::spec_initial_events(),
            !handler.respawn_monsters,
    {
        let mut pit = GameEvent::from((27, 16));
        pit.direction = Some(Direction::Right);
        let mut pool = GameEvent::from((23, 12));
        pool.kind = EventKind::HealingPool;
        pool.direction = Some(Direction::Up);
        let mut game_events: Vec<GameEvent> = Vec::new();
        game_events.push(pit);
        game_events.push(pool);
        proof {
            assert(game_events@ =~= Self::spec_initial_events());
        }
        GameEventHandler { game_events, respawn_monsters: false }
    }

    /// Looks for the first trigger that fires and applies it. Before that
    /// every trigger is armed again if the player is more than a tile away
    /// from where it last fired. A trigger that fires is disarmed and
    /// remembers where the player stood. Returns the place of the trigger
    /// that fired, if one did.
    pub fn check_event(
        &mut self,
        game_state_handler: &mut GameStateHandler,
        ui_handler: &mut UIHandler,
        key_handler: &KeyHandler,
        player: &mut Player,
    ) -> (fired: Option<usize>)
        ensures
            ({
                let outcome = spec_check_event(
                    old(self).game_events@,
                    old(self).respawn_monsters,
                    *old(game_state_handler),
                    *old(player),
                    key_handler.enter_pressed,
                );
                &&& fired == outcome.fired
                &&& final(self).game_events@ == outcome.events
                &&& final(self).respawn_monsters == outcome.respawn_monsters
                &&& *final(player) == outcome.player
                &&& *final(game_state_handler) == outcome.game_state
                &&& spec_shows(*old(ui_handler), *final(ui_handler), outcome.text)
            }),
            old(player).entity.wf() ==> final(player).entity.wf(),
    {
        let count: usize = self.game_events.len();
        let mut i: usize = 0;
        while i < count
            invariant
                i <= count,
                count == self.game_events@.len(),
                count == old(self).game_events@.len(),
                self.respawn_monsters == old(self).respawn_monsters,
                *player == *old(player),
                forall|j: int|
                    0 <= j < i ==> #[trigger] self.game_events@[j] == spec_seen(
                        old(self).game_events@[j],
                        old(player).entity,
                    ),
                forall|j: int|
                    i <= j < count ==> #[trigger] self.game_events@[j] == old(self).game_events@[j],
            decreases count - i,
        {
            self.game_events[i].rearm(player.entity.world_x, player.entity.world_y);
            i = i + 1;
        }
        let ghost seen = spec_seen_all(old(self).game_events@, old(player).entity);
        proof {
            assert(self.game_events@ =~= seen);
        }
        let mut k: usize = 0;
        while k < count
            invariant
                k <= count,
                count == self.game_events@.len(),
                self.game_events@ == seen,
                seen == spec_seen_all(old(self).game_events@, old(player).entity),
                self.respawn_monsters == old(self).respawn_monsters,
                *player == *old(player),
                *ui_handler == *old(ui_handler),
                *game_state_handler == *old(game_state_handler),
                spec_first_firing(seen, player.entity, key_handler.enter_pressed, 0)
                    == spec_first_firing(seen, player.entity, key_handler.enter_pressed, k as int),
            decreases count - k,
        {
            let event: GameEvent = self.game_events[k];
            let confirmed: bool = match event.kind {
                EventKind::HealingPool => key_handler.enter_pressed,
                _ => true,
            };
            if event.can_touch && confirmed && Self::hit(player, &event).is_some() {
                self.fire(k, game_state_handler, ui_handler, player);
                proof {
                    reveal(spec_check_event);
                    assert(spec_fires(seen[k as int], old(player).entity, key_handler.enter_pressed));
                }
                return Some(k);
            }
            k = k + 1;
        }
        proof {
            reveal(spec_check_event);
        }
        None
    }

    /// Applies the trigger at place `index`: it is disarmed, remembers where
    /// the player stands, and takes effect.
    fn fire(
        &mut self,
        index: usize,
        game_state_handler: &mut GameStateHandler,
        ui_handler: &mut UIHandler,
        player: &mut Player,
    )
        requires
            index < old(self).game_events@.len(),
        ensures
            ({
                let event = old(self).game_events@[index as int];
                &&& final(self).game_events@ == old(self).game_events@.update(
                    index as int,
                    event.spec_fired(old(player).entity.world_x, old(player).entity.world_y),
                )
                &&& final(self).respawn_monsters == (old(self).respawn_monsters || event.kind
                    == EventKind::HealingPool)
                &&& *final(player) == spec_player_after(event.kind, *old(player))
                &&& *final(game_state_handler) == (GameStateHandler {
                    game_state: spec_mode_after_event(
                        event.kind,
                        old(game_state_handler).game_state,
                    ),
                    ..*old(game_state_handler)
                })
                &&& spec_shows(
                    *old(ui_handler),
                    *final(ui_handler),
                    Some(spec_event_text(event.kind)),
                )
            }),
    {
        let event: GameEvent = self.game_events[index];
        let mut fired_event = event;
        fired_event.can_touch = false;
        fired_event.previous_x = player.entity.world_x;
        fired_event.previous_y = player.entity.world_y;
        self.game_events[index] = fired_event;
        match event.kind {
            EventKind::DamagePit => {
                Self::damage_pit(game_state_handler, ui_handler, player, GameState::Dialogue);
            },
            EventKind::HealingPool => {
                self.healing_pool(game_state_handler, ui_handler, GameState::Dialogue, player);
            },
            EventKind::Teleport { world_x, world_y } => {
                Self::teleport(ui_handler, player, world_x, world_y);
            },
        }
        player.entity.attacking = false;
    }

    /// Where the player stands, if the player touches the trigger.
    fn hit(player: &Player, game_event: &GameEvent) -> (position: Option<(i32, i32)>)
        ensures
            position.is_some() == spec_hit(player.entity, *game_event),
            position.is_some() ==> position.unwrap() == (
                player.entity.world_x,
                player.entity.world_y,
            ),
    {
        let probe = probe_area(&player.entity);
        let area = game_event.area();
        if probe.overlaps(&area) && !game_event.event_done {
            match game_event.direction {
                Some(direction) => {
                    if player.entity.direction == direction {
                        Some((player.entity.world_x, player.entity.world_y))
                    } else {
                        None
                    }
                },
                None => Some((player.entity.world_x, player.entity.world_y)),
            }
        } else {
            None
        }
    }

    /// The pit: the player loses one life, but not below zero, and a dialogue
    /// tells of the fall.
    fn damage_pit(
        game_state_handler: &mut GameStateHandler,
        ui_handler: &mut UIHandler,
        player: &mut Player,
        game_state: GameState,
    )
        ensures
            *final(game_state_handler) == (GameStateHandler {
                game_state,
                ..*old(game_state_handler)
            }),
            final(ui_handler).current_dialogue@ == spec_event_text(EventKind::DamagePit),
            *final(ui_handler) == (UIHandler {
                current_dialogue: final(ui_handler).current_dialogue,
                ..*old(ui_handler)
            }),
            *final(player) == (Player {
                entity: EntityData {
                    life: if old(player).entity.life > 1 {
                        (old(player).entity.life - 1) as i32
                    } else {
                        0
                    },
                    ..old(player).entity
                },
                ..*old(player)
            }),
    {
        game_state_handler.game_state = game_state;
        ui_handler.current_dialogue = "You fall into a pit!".to_owned();
        if player.entity.life > 1 {
            player.entity.life = player.entity.life - 1;
        } else {
            player.entity.life = 0;
        }
    }

    /// The pool: the player recovers all life, a dialogue tells of it, and
    /// the monsters are asked back.
    fn healing_pool(
        &mut self,
        game_state_handler: &mut GameStateHandler,
        ui_handler: &mut UIHandler,
        game_state: GameState,
        player: &mut Player,
    )
        ensures
            *final(self) == (GameEventHandler { respawn_monsters: true, ..*old(self) }),
            *final(game_state_handler) == (GameStateHandler {
                game_state,
                ..*old(game_state_handler)
            }),
            final(ui_handler).current_dialogue@ == spec_event_text(EventKind::HealingPool),
            *final(ui_handler) == (UIHandler {
                current_dialogue: final(ui_handler).current_dialogue,
                ..*old(ui_handler)
            }),
            *final(player) == (Player {
                entity: EntityData {
                    life: old(player).entity.max_life,
                    ..old(player).entity
                },
                ..*old(player)
            }),
    {
        game_state_handler.game_state = game_state;
        ui_handler.current_dialogue =
        "You drank the the water.\nYour life has been recovered.".to_owned();
        player.entity.life = player.entity.max_life;
        self.respawn_monsters = true;
    }

    /// The teleport: the player is moved to (`world_x`, `world_y`) and a
    /// dialogue text tells of it.
    fn teleport(ui_handler: &mut UIHandler, player: &mut Player, world_x: i32, world_y: i32)
        ensures
            final(ui_handler).current_dialogue@ == spec_event_text(
                EventKind::Teleport { world_x, world_y },
            ),
            *final(ui_handler) == (UIHandler {
                current_dialogue: final(ui_handler).current_dialogue,
                ..*old(ui_handler)
            }),
            *final(player) == (Player {
                entity: EntityData { world_x, world_y, ..old(player).entity },
                ..*old(player)
            }),
    {
        ui_handler.current_dialogue = "Teleport!".to_owned();
        player.entity.world_x = world_x;
        player.entity.world_y = world_y;
    }
}

} // verus!
