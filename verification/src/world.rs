//! The entity registry, the spawner, the attack scheduler's spawning side,
//! and the per-tick systems of the simulation.
//!
//! The world owns plain data: the one player, the monsters, the obstacles,
//! the projectiles in flight, and the attack countdown. The physics bridge
//! that integrates velocity commands and resolves collisions is an external
//! service: it receives each entity's current [`VelocityIntent`] and hands
//! resolved positions back through the `sync_*` methods, once per tick.
//! A projectile's flight is not physics-driven: its place in the world is
//! its spawn point plus its travelled distance along its fixed heading, so
//! travel is exact integer arithmetic and a zero heading (spawned when the
//! target sat exactly on the player) leaves it at its spawn point.

use vstd::prelude::*;

use crate::geom::Vec2;
use crate::motion::{
    pursuit_intent, pursuit_intent_spec, player_intent, player_intent_spec, KeyState,
    VelocityIntent,
};
use crate::timer::{
    acc_after_tick, acc_after_window, elapses_in_tick, elapses_over_window, AttackTimer,
};
use vstd::arithmetic::div_mod::lemma_div_pos_is_pos;
use crate::{ATTACK_PERIOD_MS, PROJECTILE_STEP_TENTHS, SPAWN_CLEARANCE_TENTHS};

verus! {

/// How the physics bridge is told to simulate a body at creation time.
#[derive(Clone, Copy, PartialEq, Eq, Structural, Debug)]
pub enum BodyKind {
    /// The body's velocity is imposed each tick; collisions do not push it.
    KinematicVelocityBased,
    /// The body is simulated dynamically, with rotation under collision
    /// torque locked.
    DynamicRotationLocked,
}

/// Creation-time collider surface handed to the physics bridge, in tenths:
/// both coefficients combine with a colliding surface by the minimum rule.
#[derive(Clone, Copy, PartialEq, Eq, Structural, Debug)]
pub struct SurfaceTenths {
    pub friction: u32,
    pub restitution: u32,
}

/// The player: the one kinematic, input-driven entity.
#[derive(Clone, Copy, PartialEq, Eq, Structural, Debug)]
pub struct PlayerState {
    /// Position last synced from the physics bridge.
    pub pos: Vec2,
    /// The velocity command handed to the bridge for the coming step.
    pub vel: VelocityIntent,
    /// Stored health, in tenths; never decremented here.
    pub health_tenths: u32,
    pub body: BodyKind,
    pub surface: SurfaceTenths,
}

/// A monster: dynamic, rotation-locked, pursuing the player.
#[derive(Clone, Copy, PartialEq, Eq, Structural, Debug)]
pub struct MonsterState {
    /// Position last synced from the physics bridge.
    pub pos: Vec2,
    /// The velocity command handed to the bridge for the coming step.
    pub vel: VelocityIntent,
    /// Stored health, in tenths; never decremented here.
    pub health_tenths: u32,
    pub body: BodyKind,
    pub surface: SurfaceTenths,
}

/// An obstacle: static and purely visual, with no collider.
#[derive(Clone, Copy, PartialEq, Eq, Structural, Debug)]
pub struct ObstacleState {
    pub pos: Vec2,
}

/// A projectile in straight-line flight: it sits `dist_tenths` along the
/// unit vector of `heading` from `origin`, or at `origin` itself when the
/// heading is zero.
#[derive(Clone, Copy, PartialEq, Eq, Structural, Debug)]
pub struct Projectile {
    /// The player position it was fired from.
    pub origin: Vec2,
    /// The displacement from the player to the chosen target at spawn time;
    /// fixed for the projectile's whole flight, never re-normalized.
    pub heading: Vec2,
    /// Distance travelled from the origin along the heading, in tenths.
    pub dist_tenths: u64,
    /// Remaining-collision counter; initialized to one and never read here.
    pub lives: usize,
}

/// The whole simulation state for one session.
pub struct World {
    /// Global gravity the physics bridge is configured with; zero for this
    /// top-down arena.
    pub gravity: Vec2,
    /// The one player; exactly one exists for the session's lifetime.
    pub player: PlayerState,
    pub monsters: Vec<MonsterState>,
    pub obstacles: Vec<ObstacleState>,
    pub projectiles: Vec<Projectile>,
    /// The repeating attack countdown.
    pub attack_timer: AttackTimer,
}

/// The projectile an elapse fires from `player_pos` at a target seen at
/// `target_pos`: spawned one clearance along the heading, one life, aimed
/// by the raw displacement (the zero displacement, from a coincident
/// target, is kept as-is: the projectile then stands still).
pub open spec fn spawned_projectile_spec(player_pos: Vec2, target_pos: Vec2) -> Projectile {
    Projectile {
        origin: player_pos,
        heading: Vec2::displacement_spec(player_pos, target_pos),
        dist_tenths: SPAWN_CLEARANCE_TENTHS,
        lives: 1,
    }
}

/// A projectile after one tick of flight: one step further out.
pub open spec fn advanced_projectile_spec(p: Projectile) -> Projectile {
    Projectile { dist_tenths: (p.dist_tenths + PROJECTILE_STEP_TENTHS) as u64, ..p }
}

/// Whether `p` is a projectile that an elapse could fire in world `w`:
/// aimed from the player's position at some monster present in `w`.
pub open spec fn is_spawn_from(w: World, p: Projectile) -> bool {
    exists|i: int|
        0 <= i < w.monsters@.len() && p == spawned_projectile_spec(
            w.player.pos,
            w.monsters@[i].pos,
        )
}

/// Whether `p` is a projectile fired in world `w` this tick and already
/// advanced by its first step of flight.
pub open spec fn is_advanced_spawn_from(w: World, p: Projectile) -> bool {
    exists|i: int|
        0 <= i < w.monsters@.len() && p == advanced_projectile_spec(
            spawned_projectile_spec(w.player.pos, w.monsters@[i].pos),
        )
}

/// The attack scheduler's effect on one tick, as a relation between the
/// worlds before and after it: what one `player_attack` call guarantees of
/// the countdown and the projectile count, whatever its random choices.
pub open spec fn attack_tick_rel(pre: World, dt_ms: u64, post: World) -> bool {
    &&& World::same_scene(pre, post)
    &&& post.attack_timer.acc_ms == acc_after_tick(pre.attack_timer.acc_ms as int, dt_ms as int)
    &&& pre.projectiles@.len() <= post.projectiles@.len()
    &&& (pre.monsters@.len() == 0 ==> post.projectiles@.len() == pre.projectiles@.len())
    &&& (pre.monsters@.len() > 0 ==> post.projectiles@.len() == pre.projectiles@.len()
        + elapses_in_tick(pre.attack_timer.acc_ms as int, dt_ms as int))
}

/// Whether `ws` is a run of the attack scheduler over the tick times
/// `dts`: one world more than ticks, consecutive worlds related tick by
/// tick.
pub open spec fn attack_run(ws: Seq<World>, dts: Seq<u64>) -> bool {
    &&& ws.len() == dts.len() + 1
    &&& forall|k: int| 0 <= k < dts.len() ==> attack_tick_rel(ws[k], #[trigger] dts[k], ws[k + 1])
}

/// Scheduler law over a time window: along any run of attack ticks, the
/// countdown elapses exactly once per whole period the window covers (the
/// spawn attempts; see `lemma_elapses_over_window` for the floor form),
/// the projectiles created number at most that many, and exactly that many
/// when monsters are present — none at all when none are.
pub proof fn lemma_attack_window_creations(ws: Seq<World>, dts: Seq<u64>)
    requires
        attack_run(ws, dts),
        ws[0].attack_timer.wf(),
    ensures
        ws.last().attack_timer.acc_ms == acc_after_window(ws[0].attack_timer.acc_ms as int, dts),
        World::same_scene(ws[0], ws.last()),
        ws.last().projectiles@.len() <= ws[0].projectiles@.len() + elapses_over_window(
            ws[0].attack_timer.acc_ms as int,
            dts,
        ),
        ws[0].monsters@.len() > 0 ==> ws.last().projectiles@.len() == ws[0].projectiles@.len()
            + elapses_over_window(ws[0].attack_timer.acc_ms as int, dts),
        ws[0].monsters@.len() == 0 ==> ws.last().projectiles@.len() == ws[0].projectiles@.len(),
    decreases dts.len(),
{
    if dts.len() == 0 {
        assert(ws.last() == ws[0]);
    } else {
        let n = dts.len() as int;
        let prefix_ws = ws.drop_last();
        let prefix = dts.drop_last();
        assert(attack_run(prefix_ws, prefix)) by {
            assert forall|k: int| 0 <= k < prefix.len() implies attack_tick_rel(
                prefix_ws[k],
                #[trigger] prefix[k],
                prefix_ws[k + 1],
            ) by {
                assert(attack_tick_rel(ws[k], dts[k], ws[k + 1]));
            }
        }
        lemma_attack_window_creations(prefix_ws, prefix);
        assert(prefix_ws.last() == ws[n - 1]);
        assert(attack_tick_rel(ws[n - 1], dts[n - 1], ws[n]));
        assert(ws.last() == ws[n]);
        let acc_before_last = acc_after_window(ws[0].attack_timer.acc_ms as int, prefix);
        assert(elapses_in_tick(acc_before_last, dts[n - 1] as int) >= 0) by {
            lemma_div_pos_is_pos(
                acc_before_last + dts[n - 1] as int,
                crate::ATTACK_PERIOD_MS as int,
            );
        }
    }
}

/// Degenerate-target law, targeting side: a projectile fired at a target
/// standing exactly on the player gets the zero heading — not an undefined
/// normalization — and keeps it through flight, so it never leaves its
/// spawn point.
pub proof fn lemma_coincident_spawn_stays_put(pos: Vec2)
    ensures
        spawned_projectile_spec(pos, pos).heading == Vec2::zero(),
        spawned_projectile_spec(pos, pos).origin == pos,
        advanced_projectile_spec(spawned_projectile_spec(pos, pos)).heading == Vec2::zero(),
{
}

/// The player as the spawner creates it: at the origin, standing still, at
/// full health (100.0), kinematic, with a frictionless, non-bouncing
/// collider surface.
pub open spec fn initial_player_spec() -> PlayerState {
    PlayerState {
        pos: Vec2::zero(),
        vel: VelocityIntent::standstill(),
        health_tenths: 1000,
        body: BodyKind::KinematicVelocityBased,
        surface: SurfaceTenths { friction: 0, restitution: 0 },
    }
}

/// A monster as the spawner creates it at `(x, y)`: standing still, at
/// health 20.0, dynamic with rotation locked, with a frictionless, fully
/// bouncy collider surface (restitution 1.0: it bounces off collisions
/// rather than absorbing them).
pub open spec fn initial_monster_spec(x: i64, y: i64) -> MonsterState {
    MonsterState {
        pos: Vec2 { x, y },
        vel: VelocityIntent::standstill(),
        health_tenths: 200,
        body: BodyKind::DynamicRotationLocked,
        surface: SurfaceTenths { friction: 0, restitution: 10 },
    }
}

impl World {
    /// The registry's invariant: the countdown carries less than a period,
    /// and every physics-backed position is inside the coordinate bound.
    pub open spec fn wf(self) -> bool {
        &&& self.attack_timer.wf()
        &&& self.player.pos.in_range()
        &&& forall|i: int| 0 <= i < self.monsters@.len() ==> (#[trigger] self.monsters@[i]).pos.in_range()
    }

    /// The scene the attack and flight systems leave alone: gravity, the
    /// player, the monsters and the obstacles — all but the countdown and
    /// the projectiles.
    pub open spec fn same_scene(pre: World, post: World) -> bool {
        &&& post.gravity == pre.gravity
        &&& post.player == pre.player
        &&& post.monsters@ == pre.monsters@
        &&& post.obstacles@ == pre.obstacles@
    }

    /// The spawner: builds the world as one session starts. The physics
    /// bridge is configured with zero gravity (a top-down arena); one
    /// player spawns at the origin; two monsters spawn at the fixed offsets
    /// `(±100, 215)`; four purely visual obstacles sit at the corners of a
    /// `±250` square; no projectile exists and the countdown is fresh.
    pub fn setup() -> (w: World)
        ensures
            w.wf(),
            w.gravity == Vec2::zero(),
            w.player == initial_player_spec(),
            w.monsters@.len() == 2,
            w.monsters@[0] == initial_monster_spec(1000, 2150),
            w.monsters@[1] == initial_monster_spec(-1000i64, 2150),
            w.obstacles@.len() == 4,
            w.obstacles@[0] == (ObstacleState { pos: Vec2 { x: -2500i64, y: -2500i64 } }),
            w.obstacles@[1] == (ObstacleState { pos: Vec2 { x: -2500i64, y: 2500 } }),
            w.obstacles@[2] == (ObstacleState { pos: Vec2 { x: 2500, y: -2500i64 } }),
            w.obstacles@[3] == (ObstacleState { pos: Vec2 { x: 2500, y: 2500 } }),
            w.projectiles@.len() == 0,
            w.attack_timer.acc_ms == 0,
    {
        let player = PlayerState {
            pos: Vec2 { x: 0, y: 0 },
            vel: VelocityIntent { heading: Vec2 { x: 0, y: 0 }, speed_tenths: 0 },
            health_tenths: 1000,
            body: BodyKind::KinematicVelocityBased,
            surface: SurfaceTenths { friction: 0, restitution: 0 },
        };
        let mut monsters: Vec<MonsterState> = Vec::new();
        monsters.push(
            MonsterState {
                pos: Vec2 { x: 1000, y: 2150 },
                vel: VelocityIntent { heading: Vec2 { x: 0, y: 0 }, speed_tenths: 0 },
                health_tenths: 200,
                body: BodyKind::DynamicRotationLocked,
                surface: SurfaceTenths { friction: 0, restitution: 10 },
            },
        );
        monsters.push(
            MonsterState {
                pos: Vec2 { x: -1000, y: 2150 },
                vel: VelocityIntent { heading: Vec2 { x: 0, y: 0 }, speed_tenths: 0 },
                health_tenths: 200,
                body: BodyKind::DynamicRotationLocked,
                surface: SurfaceTenths { friction: 0, restitution: 10 },
            },
        );
        let mut obstacles: Vec<ObstacleState> = Vec::new();
        obstacles.push(ObstacleState { pos: Vec2 { x: -2500, y: -2500 } });
        obstacles.push(ObstacleState { pos: Vec2 { x: -2500, y: 2500 } });
        obstacles.push(ObstacleState { pos: Vec2 { x: 2500, y: -2500 } });
        obstacles.push(ObstacleState { pos: Vec2 { x: 2500, y: 2500 } });
        World {
            gravity: Vec2 { x: 0, y: 0 },
            player,
            monsters,
            obstacles,
            projectiles: Vec::new(),
            attack_timer: AttackTimer::new(),
        }
    }

    /// Records the physics bridge's resolved player position for this tick.
    pub fn sync_player_position(&mut self, pos: Vec2)
        requires
            old(self).wf(),
            pos.in_range(),
        ensures
            final(self).wf(),
            final(self).player == (PlayerState { pos, ..old(self).player }),
            final(self).gravity == old(self).gravity,
            final(self).monsters@ == old(self).monsters@,
            final(self).obstacles@ == old(self).obstacles@,
            final(self).projectiles@ == old(self).projectiles@,
            final(self).attack_timer == old(self).attack_timer,
    {
        self.player.pos = pos;
    }

    /// Records the physics bridge's resolved position of one monster.
    pub fn sync_monster_position(&mut self, index: usize, pos: Vec2)
        requires
            old(self).wf(),
            index < old(self).monsters@.len(),
            pos.in_range(),
        ensures
            final(self).wf(),
            final(self).monsters@ == old(self).monsters@.update(
                index as int,
                MonsterState { pos, ..old(self).monsters@[index as int] },
            ),
            final(self).gravity == old(self).gravity,
            final(self).player == old(self).player,
            final(self).obstacles@ == old(self).obstacles@,
            final(self).projectiles@ == old(self).projectiles@,
            final(self).attack_timer == old(self).attack_timer,
    {
        let m = self.monsters[index];
        self.monsters[index] = MonsterState { pos, ..m };
    }

    /// The player's movement integrator: commands full player speed along
    /// the key-axis heading, a standstill when no net direction is pressed.
    /// The command is handed to the physics bridge; the entity itself is
    /// not moved here.
    pub fn player_movement(&mut self, keys: KeyState)
        requires
            old(self).wf(),
        ensures
            final(self).wf(),
            final(self).player == (PlayerState {
                vel: player_intent_spec(keys),
                ..old(self).player
            }),
            final(self).gravity == old(self).gravity,
            final(self).monsters@ == old(self).monsters@,
            final(self).obstacles@ == old(self).obstacles@,
            final(self).projectiles@ == old(self).projectiles@,
            final(self).attack_timer == old(self).attack_timer,
    {
        self.player.vel = player_intent(keys);
    }

    /// The monsters' movement integrator: every monster is commanded toward
    /// the player's last synced position at monster speed — greedy pursuit,
    /// with no pathfinding and no separation between monsters.
    pub fn monster_movement(&mut self)
        requires
            old(self).wf(),
        ensures
            final(self).wf(),
            final(self).monsters@.len() == old(self).monsters@.len(),
            forall|i: int|
                0 <= i < old(self).monsters@.len() ==> final(self).monsters@[i] == (MonsterState {
                    vel: pursuit_intent_spec(old(self).player.pos, old(self).monsters@[i].pos),
                    ..old(self).monsters@[i]
                }),
            final(self).gravity == old(self).gravity,
            final(self).player == old(self).player,
            final(self).obstacles@ == old(self).obstacles@,
            final(self).projectiles@ == old(self).projectiles@,
            final(self).attack_timer == old(self).attack_timer,
    {
        let player_pos = self.player.pos;
        let n = self.monsters.len();
        let mut i: usize = 0;
        while i < n
            invariant
                self.wf(),
                i <= n,
                n == self.monsters@.len(),
                self.monsters@.len() == old(self).monsters@.len(),
                self.player == old(self).player,
                player_pos == old(self).player.pos,
                forall|j: int|
                    0 <= j < i ==> self.monsters@[j] == (MonsterState {
                        vel: pursuit_intent_spec(old(self).player.pos, old(self).monsters@[j].pos),
                        ..old(self).monsters@[j]
                    }),
                forall|j: int| i <= j < n ==> self.monsters@[j] == old(self).monsters@[j],
                self.gravity == old(self).gravity,
                self.obstacles@ == old(self).obstacles@,
                self.projectiles@ == old(self).projectiles@,
                self.attack_timer == old(self).attack_timer,
            decreases n - i,
        {
            let m = self.monsters[i];
            let vel = pursuit_intent(player_pos, m.pos);
            self.monsters[i] = MonsterState { vel, ..m };
            i = i + 1;
        }
    }

    /// Fires one projectile from the player at the monster at `target`:
    /// what an elapse of the attack countdown does once its random choice
    /// of target is fixed.
    pub fn attack_with_target(&mut self, target: usize)
        requires
            old(self).wf(),
            target < old(self).monsters@.len(),
            old(self).projectiles@.len() < usize::MAX,
        ensures
            final(self).wf(),
            final(self).projectiles@ == old(self).projectiles@.push(
                spawned_projectile_spec(
                    old(self).player.pos,
                    old(self).monsters@[target as int].pos,
                ),
            ),
            World::same_scene(*old(self), *final(self)),
            final(self).attack_timer == old(self).attack_timer,
    {
        let target_pos = self.monsters[target].pos;
        let heading = Vec2::displacement(self.player.pos, target_pos);
        self.projectiles.push(
            Projectile {
                origin: self.player.pos,
                heading,
                dist_tenths: SPAWN_CLEARANCE_TENTHS,
                lives: 1,
            },
        );
    }

    /// One elapse of the attack countdown: picks a monster uniformly at
    /// random and fires at it; when no monster is present this is a normal
    /// empty case and nothing is spawned. Whatever the random choice, any
    /// projectile added is aimed at a monster present in the old world.
    fn attack_once(&mut self)
        requires
            old(self).wf(),
            old(self).projectiles@.len() < usize::MAX,
        ensures
            final(self).wf(),
            World::same_scene(*old(self), *final(self)),
            final(self).attack_timer == old(self).attack_timer,
            old(self).monsters@.len() == 0 ==> final(self).projectiles@ == old(
                self,
            ).projectiles@,
            old(self).monsters@.len() > 0 ==> exists|i: int|
                0 <= i < old(self).monsters@.len() && final(self).projectiles@ == old(
                    self,
                ).projectiles@.push(
                    spawned_projectile_spec(old(self).player.pos, old(self).monsters@[i].pos),
                ),
    {
        match choose_index(self.monsters.len()) {
            Some(target) => {
                self.attack_with_target(target);
            },
            None => {},
        }
    }

    /// The attack scheduler for one tick: advances the countdown by the
    /// tick's elapsed time and, for each whole period that elapsed, fires
    /// one projectile at a randomly chosen monster — one spawn attempt per
    /// elapse, each skipped exactly when no monster is present at that
    /// moment, while the countdown resets either way.
    pub fn player_attack(&mut self, dt_ms: u64)
        requires
            old(self).wf(),
            dt_ms <= u64::MAX - ATTACK_PERIOD_MS,
            old(self).projectiles@.len() + elapses_in_tick(
                old(self).attack_timer.acc_ms as int,
                dt_ms as int,
            ) <= usize::MAX,
        ensures
            final(self).wf(),
            World::same_scene(*old(self), *final(self)),
            final(self).attack_timer.acc_ms == acc_after_tick(
                old(self).attack_timer.acc_ms as int,
                dt_ms as int,
            ),
            old(self).projectiles@.len() <= final(self).projectiles@.len(),
            forall|j: int|
                0 <= j < old(self).projectiles@.len() ==> final(self).projectiles@[j] == old(
                    self,
                ).projectiles@[j],
            old(self).monsters@.len() == 0 ==> final(self).projectiles@.len() == old(
                self,
            ).projectiles@.len(),
            old(self).monsters@.len() > 0 ==> final(self).projectiles@.len() == old(
                self,
            ).projectiles@.len() + elapses_in_tick(
                old(self).attack_timer.acc_ms as int,
                dt_ms as int,
            ),
            forall|j: int|
                old(self).projectiles@.len() <= j < final(self).projectiles@.len()
                    ==> is_spawn_from(*old(self), #[trigger] final(self).projectiles@[j]),
            attack_tick_rel(*old(self), dt_ms, *final(self)),
    {
        let elapses = self.attack_timer.tick(dt_ms);
        let ghost ticked = *self;
        let mut k: u64 = 0;
        while k < elapses
            invariant
                self.wf(),
                k <= elapses,
                World::same_scene(*old(self), *self),
                self.attack_timer == ticked.attack_timer,
                old(self).projectiles@.len() + elapses <= usize::MAX,
                old(self).monsters@.len() == 0 ==> self.projectiles@ == old(self).projectiles@,
                old(self).monsters@.len() > 0 ==> self.projectiles@.len() == old(
                    self,
                ).projectiles@.len() + k,
                forall|j: int|
                    0 <= j < old(self).projectiles@.len() ==> self.projectiles@[j] == old(
                        self,
                    ).projectiles@[j],
                forall|j: int|
                    old(self).projectiles@.len() <= j < self.projectiles@.len() ==> is_spawn_from(
                        *old(self),
                        #[trigger] self.projectiles@[j],
                    ),
            decreases elapses - k,
        {
            self.attack_once();
            k = k + 1;
        }
    }

    /// The projectiles' movement integrator: every projectile advances one
    /// step further along its fixed heading — straight-line travel,
    /// independent of the physics bridge, with `lives` never touched and no
    /// despawn: projectiles persist for the session.
    pub fn projectile_movement(&mut self)
        requires
            old(self).wf(),
            forall|i: int|
                0 <= i < old(self).projectiles@.len() ==> (#[trigger] old(
                    self,
                ).projectiles@[i]).dist_tenths + PROJECTILE_STEP_TENTHS <= u64::MAX,
        ensures
            final(self).wf(),
            World::same_scene(*old(self), *final(self)),
            final(self).attack_timer == old(self).attack_timer,
            final(self).projectiles@.len() == old(self).projectiles@.len(),
            forall|i: int|
                0 <= i < old(self).projectiles@.len() ==> final(self).projectiles@[i]
                    == advanced_projectile_spec(old(self).projectiles@[i]),
    {
        let n = self.projectiles.len();
        let mut i: usize = 0;
        while i < n
            invariant
                self.wf(),
                i <= n,
                n == self.projectiles@.len(),
                self.projectiles@.len() == old(self).projectiles@.len(),
                World::same_scene(*old(self), *self),
                self.attack_timer == old(self).attack_timer,
                forall|j: int|
                    0 <= j < i ==> self.projectiles@[j] == advanced_projectile_spec(
                        old(self).projectiles@[j],
                    ),
                forall|j: int| i <= j < n ==> self.projectiles@[j] == old(self).projectiles@[j],
                forall|j: int|
                    0 <= j < old(self).projectiles@.len() ==> (#[trigger] old(
                        self,
                    ).projectiles@[j]).dist_tenths + PROJECTILE_STEP_TENTHS <= u64::MAX,
            decreases n - i,
        {
            let p = self.projectiles[i];
            self.projectiles[i] = Projectile {
                dist_tenths: p.dist_tenths + PROJECTILE_STEP_TENTHS,
                ..p
            };
            i = i + 1;
        }
    }

    /// The tick's first phase, before the physics bridge advances: samples
    /// the directional keys into the player's velocity command, then points
    /// every monster's command at the player — in that fixed order. The
    /// commands are then for the bridge to integrate.
    pub fn pre_physics_update(&mut self, keys: KeyState)
        requires
            old(self).wf(),
        ensures
            final(self).wf(),
            final(self).player == (PlayerState {
                vel: player_intent_spec(keys),
                ..old(self).player
            }),
            final(self).monsters@.len() == old(self).monsters@.len(),
            forall|i: int|
                0 <= i < old(self).monsters@.len() ==> final(self).monsters@[i] == (MonsterState {
                    vel: pursuit_intent_spec(old(self).player.pos, old(self).monsters@[i].pos),
                    ..old(self).monsters@[i]
                }),
            final(self).gravity == old(self).gravity,
            final(self).obstacles@ == old(self).obstacles@,
            final(self).projectiles@ == old(self).projectiles@,
            final(self).attack_timer == old(self).attack_timer,
    {
        self.player_movement(keys);
        self.monster_movement();
    }

    /// The tick's second phase, after the bridge has resynchronized
    /// positions: runs the attack scheduler on the tick's elapsed time,
    /// then advances every projectile one step — in that fixed order, so a
    /// projectile fired this tick also takes its first step this tick.
    pub fn post_physics_update(&mut self, dt_ms: u64)
        requires
            old(self).wf(),
            dt_ms <= u64::MAX - ATTACK_PERIOD_MS,
            old(self).projectiles@.len() + elapses_in_tick(
                old(self).attack_timer.acc_ms as int,
                dt_ms as int,
            ) <= usize::MAX,
            forall|i: int|
                0 <= i < old(self).projectiles@.len() ==> (#[trigger] old(
                    self,
                ).projectiles@[i]).dist_tenths + PROJECTILE_STEP_TENTHS <= u64::MAX,
        ensures
            final(self).wf(),
            World::same_scene(*old(self), *final(self)),
            final(self).attack_timer.acc_ms == acc_after_tick(
                old(self).attack_timer.acc_ms as int,
                dt_ms as int,
            ),
            old(self).projectiles@.len() <= final(self).projectiles@.len(),
            forall|j: int|
                0 <= j < old(self).projectiles@.len() ==> final(self).projectiles@[j]
                    == advanced_projectile_spec(old(self).projectiles@[j]),
            old(self).monsters@.len() == 0 ==> final(self).projectiles@.len() == old(
                self,
            ).projectiles@.len(),
            old(self).monsters@.len() > 0 ==> final(self).projectiles@.len() == old(
                self,
            ).projectiles@.len() + elapses_in_tick(
                old(self).attack_timer.acc_ms as int,
                dt_ms as int,
            ),
            forall|j: int|
                old(self).projectiles@.len() <= j < final(self).projectiles@.len()
                    ==> is_advanced_spawn_from(*old(self), #[trigger] final(self).projectiles@[j]),
    {
        self.player_attack(dt_ms);
        let ghost mid = *self;
        assert(forall|i: int|
            0 <= i < mid.projectiles@.len() ==> (#[trigger] mid.projectiles@[i]).dist_tenths
                + PROJECTILE_STEP_TENTHS <= u64::MAX) by {
            assert forall|i: int|
                old(self).projectiles@.len() <= i < mid.projectiles@.len() implies (
            #[trigger] mid.projectiles@[i]).dist_tenths + PROJECTILE_STEP_TENTHS <= u64::MAX by {
                assert(is_spawn_from(*old(self), mid.projectiles@[i]));
            }
        }
        self.projectile_movement();
        assert forall|j: int|
            old(self).projectiles@.len() <= j < self.projectiles@.len() implies
        is_advanced_spawn_from(*old(self), #[trigger] self.projectiles@[j]) by {
            assert(is_spawn_from(*old(self), mid.projectiles@[j]));
            let i = choose|i: int|
                0 <= i < old(self).monsters@.len() && mid.projectiles@[j]
                    == spawned_projectile_spec(old(self).player.pos, old(self).monsters@[i].pos);
            assert(self.projectiles@[j] == advanced_projectile_spec(mid.projectiles@[j]));
            assert(self.projectiles@[j] == advanced_projectile_spec(
                spawned_projectile_spec(old(self).player.pos, old(self).monsters@[i].pos),
            ));
        }
    }
}

/// Relies on rand's `IteratorRandom::choose` over the range `0..n`, with
/// `rand::thread_rng` supplying the randomness: it returns `None` exactly
/// when the range is empty, and any value drawn lies in the range. Which
/// value comes back is random; nothing more is assumed of it.
#[verifier::external_body]
fn choose_index(n: usize) -> (r: Option<usize>)
    ensures
        r is Some <==> n > 0,
        r matches Some(i) ==> i < n,
{
    rand::seq::IteratorRandom::choose(0..n, &mut rand::thread_rng())
}

} // verus!
