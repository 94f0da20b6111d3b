//! A playable level: a handle to its scene and the player it owns.
//!
//! Level assembly itself — loading resources, instantiating models, running
//! the extraction step — happens outside the library and hands the finished
//! pieces to [`Level::new`].  Per-frame updating is in scope: the level
//! resolves its scene and updates its player against it.

use vstd::prelude::*;

use crate::pool::{Handle, Pool};
use crate::scene::Scene;

verus! {

/// Frame timing, in integer milliseconds.
#[derive(Clone, Copy, Debug, PartialEq, Eq, Structural)]
pub struct GameTime {
    /// Milliseconds since the game started.
    pub elapsed_ms: u64,
    /// Milliseconds covered by this frame.
    pub delta_ms: u64,
}

/// The player entity a level owns.  Control logic is out of scope for this
/// crate; the player tracks its scene node and the time it has lived.
#[derive(Clone, Copy, Debug)]
pub struct Player {
    node: Handle,
    time_alive_ms: u64,
    in_scene: bool,
}

impl Player {
    /// The handle of the player's scene node.
    pub closed spec fn spec_node(self) -> Handle {
        self.node
    }

    /// Milliseconds of updates this player has seen, saturating.
    pub closed spec fn spec_time_alive_ms(self) -> u64 {
        self.time_alive_ms
    }

    /// Whether the last update found the player's node in the scene.
    pub closed spec fn spec_in_scene(self) -> bool {
        self.in_scene
    }

    /// A new player bound to a node in its scene.
    pub fn new(node: Handle) -> (r: Player)
        ensures
            r.spec_node() == node,
            r.spec_time_alive_ms() == 0,
            r.spec_in_scene(),
    {
        Player { node, time_alive_ms: 0, in_scene: true }
    }

    /// The handle of the player's scene node.
    pub fn node_handle(&self) -> (r: Handle)
        ensures
            r == self.spec_node(),
    {
        self.node
    }

    /// Milliseconds of updates this player has seen.
    pub fn time_alive_ms(&self) -> (r: u64)
        ensures
            r == self.spec_time_alive_ms(),
    {
        self.time_alive_ms
    }

    /// Whether the last update found the player's node in the scene.
    pub fn is_in_scene(&self) -> (r: bool)
        ensures
            r == self.spec_in_scene(),
    {
        self.in_scene
    }

    /// Per-frame update: accumulates lived time (saturating at the
    /// representable maximum) and records whether the player's node still
    /// resolves in the scene.
    pub fn update(&mut self, scene: &Scene, time: &GameTime)
        ensures
            final(self).spec_node() == old(self).spec_node(),
            final(self).spec_time_alive_ms() == if old(self).spec_time_alive_ms() + time.delta_ms
                <= u64::MAX {
                old(self).spec_time_alive_ms() + time.delta_ms
            } else {
                u64::MAX as int
            },
            final(self).spec_in_scene() == scene.nodes.valid(old(self).spec_node()),
    {
        if self.time_alive_ms <= u64::MAX - time.delta_ms {
            self.time_alive_ms = self.time_alive_ms + time.delta_ms;
        } else {
            self.time_alive_ms = u64::MAX;
        }
        self.in_scene = match scene.get_node(&self.node) {
            Some(_) => true,
            None => false,
        };
    }
}

/// A loaded level: the handle of its scene in the engine's scene pool, and
/// the player it owns.
#[derive(Debug)]
pub struct Level {
    scene: Handle,
    player: Player,
}

impl Level {
    /// The handle of the level's scene.
    pub closed spec fn spec_scene(self) -> Handle {
        self.scene
    }

    /// The level's player.
    pub closed spec fn spec_player(self) -> Player {
        self.player
    }

    /// Wraps an assembled scene and player into a level.  Assembly itself —
    /// resource loading, model instantiation, collision extraction — is the
    /// caller's business.
    pub fn new(scene: Handle, player: Player) -> (r: Level)
        ensures
            r.spec_scene() == scene,
            r.spec_player() == player,
    {
        Level { scene, player }
    }

    /// Read access to the player.
    pub fn get_player(&self) -> (r: &Player)
        ensures
            *r == self.spec_player(),
    {
        &self.player
    }

    /// Mutable access to the player.
    pub fn get_player_mut(&mut self) -> (r: &mut Player)
        ensures
            *r == old(self).spec_player(),
            final(self).spec_scene() == old(self).spec_scene(),
            final(self).spec_player() == *final(r),
    {
        &mut self.player
    }

    /// Per-frame update: resolves the level's scene and updates the player
    /// against it; with a stale scene handle the frame changes nothing.
    pub fn update(&mut self, scenes: &Pool<Scene>, time: &GameTime)
        ensures
            final(self).spec_scene() == old(self).spec_scene(),
            scenes.valid(old(self).spec_scene()) ==> {
                &&& final(self).spec_player().spec_node() == old(
                    self,
                ).spec_player().spec_node()
                &&& final(self).spec_player().spec_time_alive_ms() == if old(
                    self,
                ).spec_player().spec_time_alive_ms() + time.delta_ms <= u64::MAX {
                    old(self).spec_player().spec_time_alive_ms() + time.delta_ms
                } else {
                    u64::MAX as int
                }
                &&& final(self).spec_player().spec_in_scene() == scenes.at(
                    old(self).spec_scene(),
                ).nodes.valid(old(self).spec_player().spec_node())
            },
            !scenes.valid(old(self).spec_scene()) ==> *final(self) == *old(self),
    {
        match scenes.borrow(&self.scene) {
            Some(scene) => {
                self.player.update(scene, time);
            },
            None => {},
        }
    }
}

} // verus!
