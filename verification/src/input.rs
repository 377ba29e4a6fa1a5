//! Discrete input events and their effect on the ship's controls.
//!
//! A key-down with the repeat flag set is ignored for turning and thrust, so
//! one physical press acts exactly once however the host repeats it; a
//! key-up always returns the control to neutral. The quit signal comes from
//! the host's quit event or from the escape key, repeated or not.

use vstd::prelude::*;
use crate::config::SimConfig;
use crate::config::cfg_valid;
use crate::entity::Entity;
use crate::entity::entity_in;
use crate::fp::FP_BOUND;
use crate::shot::Shot;
use crate::shot::add_shot;
use crate::shot::shot_matches;

verus! {

#[derive(Clone, Copy, Debug, PartialEq, Eq, Structural)]
pub enum GameKey {
    Left,
    Right,
    Up,
    Down,
    Space,
    Escape,
}

#[derive(Clone, Copy, Debug, PartialEq, Eq, Structural)]
pub enum InputEvent {
    Quit,
    KeyDown { key: GameKey, repeat: bool },
    KeyUp { key: GameKey },
}

/// The full effect of one event on the ship's controls and the shot list.
pub open spec fn event_effect(
    e: InputEvent,
    s0: Entity,
    s1: Entity,
    sh0: Seq<Shot>,
    sh1: Seq<Shot>,
    cfg: SimConfig,
    quit: bool,
) -> bool {
    match e {
        InputEvent::Quit => quit && s1 == s0 && sh1 == sh0,
        InputEvent::KeyDown { key: GameKey::Escape, repeat: _ } => quit && s1 == s0 && sh1 == sh0,
        InputEvent::KeyDown { key: _, repeat: true } => !quit && s1 == s0 && sh1 == sh0,
        InputEvent::KeyDown { key: GameKey::Left, repeat: false } => !quit && sh1 == sh0 && s1
            == Entity { angle_speed: (s0.angle_speed + cfg.turn_speed) as i64, ..s0 },
        InputEvent::KeyDown { key: GameKey::Right, repeat: false } => !quit && sh1 == sh0 && s1
            == Entity { angle_speed: (s0.angle_speed - cfg.turn_speed) as i64, ..s0 },
        InputEvent::KeyDown { key: GameKey::Up, repeat: false } => !quit && sh1 == sh0 && s1
            == Entity { acceleration: (s0.acceleration + cfg.thrust_step) as i64, ..s0 },
        InputEvent::KeyDown { key: GameKey::Down, repeat: false } => !quit && sh1 == sh0 && s1
            == Entity { acceleration: (s0.acceleration - cfg.thrust_step) as i64, ..s0 },
        InputEvent::KeyDown { key: GameKey::Space, repeat: false } => {
            &&& !quit
            &&& s1 == s0
            &&& sh1.len() == sh0.len() + 1
            &&& forall|i: int| 0 <= i < sh0.len() ==> sh1[i] == sh0[i]
            &&& shot_matches(s0, cfg, sh1.last())
        },
        InputEvent::KeyUp { key: GameKey::Left } => !quit && sh1 == sh0 && s1 == Entity {
            angle_speed: 0,
            ..s0
        },
        InputEvent::KeyUp { key: GameKey::Right } => !quit && sh1 == sh0 && s1 == Entity {
            angle_speed: 0,
            ..s0
        },
        InputEvent::KeyUp { key: GameKey::Up } => !quit && sh1 == sh0 && s1 == Entity {
            acceleration: 0,
            ..s0
        },
        InputEvent::KeyUp { key: GameKey::Down } => !quit && sh1 == sh0 && s1 == Entity {
            acceleration: 0,
            ..s0
        },
        InputEvent::KeyUp { key: GameKey::Space } => !quit && s1 == s0 && sh1 == sh0,
        InputEvent::KeyUp { key: GameKey::Escape } => !quit && s1 == s0 && sh1 == sh0,
    }
}

/// Apply one input event: turn and thrust toggles, firing, and the quit
/// signal, exactly as `event_effect` lays it out.
pub fn handle_event(event: &InputEvent, ship: &mut Entity, shots: &mut Vec<Shot>, cfg: &SimConfig) -> (quit:
    bool)
    requires
        cfg_valid(*cfg),
        entity_in(*old(ship), FP_BOUND as int),
    ensures
        event_effect(*event, *old(ship), *final(ship), old(shots)@, final(shots)@, *cfg, quit),
{
    let mut quit: bool = false;
    match event {
        InputEvent::Quit => {
            quit = true;
        },
        InputEvent::KeyDown { key: GameKey::Escape, repeat: _ } => {
            quit = true;
        },
        InputEvent::KeyDown { key: GameKey::Left, repeat: false } => {
            ship.angle_speed = ship.angle_speed + cfg.turn_speed;
        },
        InputEvent::KeyDown { key: GameKey::Right, repeat: false } => {
            ship.angle_speed = ship.angle_speed - cfg.turn_speed;
        },
        InputEvent::KeyDown { key: GameKey::Up, repeat: false } => {
            ship.acceleration = ship.acceleration + cfg.thrust_step;
        },
        InputEvent::KeyDown { key: GameKey::Down, repeat: false } => {
            ship.acceleration = ship.acceleration - cfg.thrust_step;
        },
        InputEvent::KeyDown { key: GameKey::Space, repeat: false } => {
            add_shot(ship, shots, cfg);
        },
        InputEvent::KeyUp { key: GameKey::Left } => {
            ship.angle_speed = 0;
        },
        InputEvent::KeyUp { key: GameKey::Right } => {
            ship.angle_speed = 0;
        },
        InputEvent::KeyUp { key: GameKey::Up } => {
            ship.acceleration = 0;
        },
        InputEvent::KeyUp { key: GameKey::Down } => {
            ship.acceleration = 0;
        },
        _ => {},
    }
    quit
}

} // verus!
