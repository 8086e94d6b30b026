//! The player avatar: a horizontally moving entity at a fixed height near
//! the bottom of the field.

use vstd::prelude::*;
use crate::grid::MILLI;
use crate::sim::Simulation;
use crate::DELTA_LIMIT;

verus! {

/// Player movement speed, in render units per second (equivalently,
/// thousandths of a unit per millisecond).
pub const PLAYER_SPEED: i64 = 100;

/// Height of the player above the bottom border of the field, in render
/// units.
pub const BOTTOM_OFFSET: i64 = 30;

/// How close to a side border the player may still start a move, in render
/// units.
pub const PLAYER_EDGE_MARGIN: i64 = 10;

/// The player avatar. Positions are in thousandths of a render unit; the
/// vertical position is fixed at spawn.
#[derive(Clone, Copy, PartialEq, Eq, Structural, Debug)]
pub struct Player {
    pub x_milli: i64,
    pub y_milli: i64,
}

/// Where the player's horizontal position ends up after one input tick: a
/// held left key moves it left by its speed times the elapsed time, a held
/// right key moves it right, and each move is taken only when the player
/// starts it inside the playable margin. The left move is applied first and
/// the right key reads the already-moved position, so holding both keys
/// cancels out only away from the borders.
pub open spec fn player_x_after(x: int, left: bool, right: bool, delta: u64, hw: int) -> int {
    let step = PLAYER_SPEED * delta;
    let x1 = if left && x >= (-hw + PLAYER_EDGE_MARGIN) * MILLI {
        x - step
    } else {
        x
    };
    if right && x1 <= (hw - PLAYER_EDGE_MARGIN) * MILLI {
        x1 + step
    } else {
        x1
    }
}

/// The player after the input pass, for a field of half width `hw`: moved
/// by the held keys, absent if it never spawned.
pub open spec fn player_after_input(
    p: Option<Player>,
    left: bool,
    right: bool,
    delta: u64,
    hw: int,
) -> Option<Player> {
    match p {
        Some(p) => Some(
            Player {
                x_milli: player_x_after(p.x_milli as int, left, right, delta, hw) as i64,
                y_milli: p.y_milli,
            },
        ),
        None => None,
    }
}

impl Simulation {
    /// Put the player avatar on the field, centered horizontally, a fixed
    /// offset above the bottom border. Entering the spawning phase brings
    /// the player in; spawning again re-centers it.
    pub fn spawn_player(&mut self)
        requires
            old(self).wf(),
        ensures
            final(self).wf(),
            *final(self) == (Simulation {
                player: Some(
                    Player {
                        x_milli: 0,
                        y_milli: ((-old(self).half_height() + BOTTOM_OFFSET) * MILLI) as i64,
                    },
                ),
                ..*old(self)
            }),
    {
        let y = (-(self.height / 2) + BOTTOM_OFFSET) * MILLI;
        self.player = Some(Player { x_milli: 0, y_milli: y });
    }

    /// The player-movement pass: apply the held move keys for this tick,
    /// each only while the player is inside the playable margin of the
    /// field. With no player on the field this is a no-op.
    pub fn move_player(&mut self, left: bool, right: bool, delta: u64)
        requires
            old(self).wf(),
            delta <= DELTA_LIMIT,
        ensures
            final(self).wf(),
            old(self).player is None ==> *final(self) == *old(self),
            old(self).player matches Some(p) ==> *final(self) == (Simulation {
                player: Some(
                    Player {
                        x_milli: player_x_after(
                            p.x_milli as int,
                            left,
                            right,
                            delta,
                            old(self).half_width(),
                        ) as i64,
                        y_milli: p.y_milli,
                    },
                ),
                ..*old(self)
            }),
            final(self).player == player_after_input(
                old(self).player,
                left,
                right,
                delta,
                old(self).half_width(),
            ),
    {
        if let Some(p) = self.player {
            let hw = self.width / 2;
            let step = PLAYER_SPEED * delta as i64;
            let mut x = p.x_milli;
            if left && x >= (-hw + PLAYER_EDGE_MARGIN) * MILLI {
                x = x - step;
            }
            if right && x <= (hw - PLAYER_EDGE_MARGIN) * MILLI {
                x = x + step;
            }
            self.player = Some(Player { x_milli: x, y_milli: p.y_milli });
        }
    }
}

} // verus!
