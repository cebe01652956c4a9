//! Player motion for one tick: horizontal movement from held input,
//! optional gravity, jumping and the ground clamp (or direct vertical
//! movement when physics is off), and the creation of a player
//! projectile on a fire intent.

use vstd::prelude::*;

use crate::config::{wf_config, Config};
use crate::entities::{PlayerV, Player, Projectile};
use crate::geom::{Vec2i, CFG_MAX, COORD_LIMIT, COORD_ROOM};
use crate::input::InputSnapshot;

verus! {

/// The player after one motion step. Horizontal deltas are applied in a
/// fixed order (left, then right), so contradictory input resolves
/// deterministically. With physics on: a jump fires only on a freshly
/// pressed intent while grounded, gravity adds to the vertical velocity
/// every tick, and the position is clamped to the ground line, which
/// zeroes the vertical velocity and restores the grounded flag. With
/// physics off, the up/down intents move the player directly.
pub open spec fn integrate_model(p: PlayerV, input: InputSnapshot, c: Config) -> PlayerV {
    let x1 = (p.pos.x + (if input.left {
        -c.move_speed
    } else {
        0
    }) + (if input.right {
        c.move_speed
    } else {
        0
    })) as i64;
    if c.physics {
        let jumps = p.on_ground && input.jump_pressed;
        let vy0 = if jumps {
            c.jump_impulse
        } else {
            p.vel.y
        };
        let ground0 = if jumps {
            false
        } else {
            p.on_ground
        };
        let vy1 = (vy0 + c.gravity) as i64;
        let y1 = (p.pos.y + vy1) as i64;
        if y1 >= c.ground_y - c.player_h {
            PlayerV {
                pos: Vec2i { x: x1, y: (c.ground_y - c.player_h) as i64 },
                vel: Vec2i { x: p.vel.x, y: 0 },
                on_ground: true,
                ..p
            }
        } else {
            PlayerV { pos: Vec2i { x: x1, y: y1 }, vel: Vec2i { x: p.vel.x, y: vy1 }, on_ground: ground0, ..p }
        }
    } else {
        let y1 = (p.pos.y + (if input.up {
            -c.move_speed
        } else {
            0
        }) + (if input.down {
            c.move_speed
        } else {
            0
        })) as i64;
        PlayerV { pos: Vec2i { x: x1, y: y1 }, ..p }
    }
}

/// The player after the fire intent: a freshly pressed fire appends one
/// player-owned projectile at the configured offset from the player.
pub open spec fn fire_model(p: PlayerV, input: InputSnapshot, c: Config) -> PlayerV {
    if input.fire_pressed {
        PlayerV {
            shots: p.shots.push(
                Projectile {
                    pos: Vec2i {
                        x: (p.pos.x + c.player_shot_off.x) as i64,
                        y: (p.pos.y + c.player_shot_off.y) as i64,
                    },
                    from_adversary: false,
                },
            ),
            ..p
        }
    } else {
        p
    }
}

/// Applies `integrate_model` to the player.
pub fn integrate_player(p: &mut Player, input: &InputSnapshot, c: &Config)
    requires
        wf_config(*c),
        -COORD_ROOM <= old(p).pos.x <= COORD_ROOM,
        -COORD_ROOM <= old(p).pos.y <= COORD_ROOM,
        -COORD_ROOM <= old(p).vel.y <= COORD_ROOM,
    ensures
        final(p)@ == integrate_model(old(p)@, *input, *c),
        -COORD_ROOM - 2 * CFG_MAX <= final(p).pos.x <= COORD_ROOM + 2 * CFG_MAX,
        -2 * COORD_ROOM - 2 * CFG_MAX <= final(p).pos.y <= 2 * COORD_ROOM + 2 * CFG_MAX,
        -COORD_ROOM - CFG_MAX <= final(p).vel.y <= COORD_ROOM + CFG_MAX,
        final(p).vel.x == old(p).vel.x,
{
    if input.left {
        p.pos.x = p.pos.x - c.move_speed;
    }
    if input.right {
        p.pos.x = p.pos.x + c.move_speed;
    }
    if c.physics {
        if p.on_ground && input.jump_pressed {
            p.vel.y = c.jump_impulse;
            p.on_ground = false;
        }
        p.vel.y = p.vel.y + c.gravity;
        p.pos.y = p.pos.y + p.vel.y;
        if p.pos.y >= c.ground_y - c.player_h {
            p.pos.y = c.ground_y - c.player_h;
            p.vel.y = 0;
            p.on_ground = true;
        }
    } else {
        if input.up {
            p.pos.y = p.pos.y - c.move_speed;
        }
        if input.down {
            p.pos.y = p.pos.y + c.move_speed;
        }
    }
    proof {
        assert(p@ =~~= integrate_model(old(p)@, *input, *c));
    }
}

/// Applies `fire_model` to the player.
pub fn fire_player(p: &mut Player, input: &InputSnapshot, c: &Config)
    requires
        wf_config(*c),
        -COORD_LIMIT + CFG_MAX <= old(p).pos.x <= COORD_LIMIT - CFG_MAX,
        -COORD_LIMIT + CFG_MAX <= old(p).pos.y <= COORD_LIMIT - CFG_MAX,
    ensures
        final(p)@ == fire_model(old(p)@, *input, *c),
{
    if input.fire_pressed {
        let shot = Projectile {
            pos: Vec2i { x: p.pos.x + c.player_shot_off.x, y: p.pos.y + c.player_shot_off.y },
            from_adversary: false,
        };
        p.shots.push(shot);
    }
    proof {
        assert(p@ =~~= fire_model(old(p)@, *input, *c));
    }
}

} // verus!
