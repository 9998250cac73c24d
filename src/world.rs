use vstd::prelude::*;

use crate::controls::{
    backward_scaled, backward_times, is_direction, missle_bundle, missle_bundle_spec,
    spaceship_bundle, spaceship_bundle_spec, steering, steering_spec, throttle, throttle_of, turn,
    turned, Bundle, Keys, SteerDelta,
};
use crate::fixed::Vec3i;
use crate::motion::{integrated, MovingObject, Orientation};

verus! {

/// Square of the despawn distance, 100 world units, in nano-units squared.
pub const DESPAWN_DISTANCE_SQUARED: u128 = 10_000_000_000_000_000_000_000;

/// Marks a ship whose shield is up.
#[derive(Clone, Copy, Debug, PartialEq, Eq, Structural)]
pub struct SpaceshipShield;

/// A simulated entity other than the player's ship.
#[derive(Clone, Copy, Debug, PartialEq, Eq, Structural)]
pub struct Entity {
    pub id: u64,
    pub parts: Bundle,
}

/// The player's ship.
#[derive(Clone, Copy, Debug, PartialEq, Eq, Structural)]
pub struct Spaceship {
    pub id: u64,
    pub parts: Bundle,
    pub shield: Option<SpaceshipShield>,
}

/// Every simulated body. The ship is held apart from the other bodies, so
/// there is never more than one.
#[derive(Debug)]
pub struct World {
    pub spaceship: Option<Spaceship>,
    /// In order of spawning.
    pub objects: Vec<Entity>,
    /// The identifier that the next spawn receives.
    pub next_id: u64,
}

/// Whether the world has room for one more identifier.
pub open spec fn can_spawn(next_id: u64) -> bool {
    next_id < u64::MAX
}

/// Whether a body at `p` is beyond the despawn distance from the origin.
pub open spec fn beyond_despawn(p: Vec3i) -> bool {
    p.norm_sq() > DESPAWN_DISTANCE_SQUARED
}

/// The entities of `s` that stay after a despawn phase, in their order.
pub open spec fn survivors(s: Seq<Entity>) -> Seq<Entity>
    decreases s.len(),
{
    if s.len() == 0 {
        s
    } else {
        let rest = survivors(s.drop_last());
        if beyond_despawn(s.last().parts.body.position) {
            rest
        } else {
            rest.push(s.last())
        }
    }
}

pub open spec fn moved(e: Entity, dt: u32) -> Entity {
    Entity { parts: Bundle { body: integrated(e.parts.body, dt), ..e.parts }, ..e }
}

pub open spec fn ship_moved(s: Spaceship, dt: u32) -> Spaceship {
    Spaceship { parts: Bundle { body: integrated(s.parts.body, dt), ..s.parts }, ..s }
}

pub open spec fn ship_steered(s: Spaceship, d: SteerDelta) -> Spaceship {
    Spaceship {
        parts: Bundle {
            body: MovingObject { orientation: turned(s.parts.body.orientation, d), ..s.parts.body },
            ..s.parts
        },
        ..s
    }
}

/// The ship after the throttle and shield keys of a frame, for the facing
/// that its orientation has after steering.
pub open spec fn ship_controlled(s: Spaceship, keys: Keys, facing: Vec3i) -> Spaceship {
    Spaceship {
        parts: Bundle {
            body: MovingObject {
                velocity: backward_times(facing, throttle_of(keys)),
                ..s.parts.body
            },
            ..s.parts
        },
        shield: if keys.shield {
            Some(SpaceshipShield)
        } else {
            s.shield
        },
        ..s
    }
}

impl World {
    /// Identifiers increase along `objects`, all lie below `next_id` and
    /// differ from the ship's, and every body has a positive radius.
    pub open spec fn wf(&self) -> bool {
        &&& forall|i: int, j: int|
            0 <= i < j < self.objects@.len() ==> self.objects@[i].id < self.objects@[j].id
        &&& forall|i: int|
            0 <= i < self.objects@.len() ==> {
                let e = #[trigger] self.objects@[i];
                &&& e.id < self.next_id
                &&& e.parts.body.wf()
                &&& self.spaceship matches Some(s) ==> s.id != e.id
            }
        &&& self.spaceship matches Some(s) ==> s.id < self.next_id && s.parts.body.wf()
    }

    /// An empty world.
    pub fn new() -> (r: World)
        ensures
            r.spaceship.is_none(),
            r.objects@ == Seq::<Entity>::empty(),
            r.next_id == 0,
            r.wf(),
    {
        World { spaceship: None, objects: Vec::new(), next_id: 0 }
    }

    /// Creates the ship at its starting place, unless there is one already.
    pub fn spawn_spaceship(&mut self)
        ensures
            final(self).objects@ == old(self).objects@,
            old(self).spaceship.is_none() && can_spawn(old(self).next_id) ==> {
                &&& final(self).spaceship == Some(
                    Spaceship { id: old(self).next_id, parts: spaceship_bundle_spec(), shield: None },
                )
                &&& final(self).next_id == old(self).next_id + 1
            },
            !(old(self).spaceship.is_none() && can_spawn(old(self).next_id)) ==> {
                &&& final(self).spaceship == old(self).spaceship
                &&& final(self).next_id == old(self).next_id
            },
            old(self).wf() ==> final(self).wf(),
    {
        if self.spaceship.is_none() && self.next_id < u64::MAX {
            self.spaceship = Some(
                Spaceship { id: self.next_id, parts: spaceship_bundle(), shield: None },
            );
            self.next_id = self.next_id + 1;
        }
    }

    /// Adds a body other than the ship and returns its identifier; `None`
    /// when the identifiers are spent.
    pub fn spawn(&mut self, parts: Bundle) -> (r: Option<u64>)
        ensures
            final(self).spaceship == old(self).spaceship,
            can_spawn(old(self).next_id) ==> {
                &&& r == Some(old(self).next_id)
                &&& final(self).objects@ == old(self).objects@.push(
                    Entity { id: old(self).next_id, parts },
                )
                &&& final(self).next_id == old(self).next_id + 1
            },
            !can_spawn(old(self).next_id) ==> {
                &&& r.is_none()
                &&& final(self).objects@ == old(self).objects@
                &&& final(self).next_id == old(self).next_id
            },
            old(self).wf() && parts.body.wf() ==> final(self).wf(),
    {
        if self.next_id < u64::MAX {
            let id = self.next_id;
            self.objects.push(Entity { id, parts });
            self.next_id = id + 1;
            Some(id)
        } else {
            None
        }
    }

    /// Turns the ship as the steering keys of a frame of `dt` milliseconds
    /// ask, and returns its new orientation; `None`, with nothing changed,
    /// when there is no ship.
    pub fn steer_ship(&mut self, keys: &Keys, dt: u32) -> (r: Option<Orientation>)
        ensures
            final(self).objects@ == old(self).objects@,
            final(self).next_id == old(self).next_id,
            match old(self).spaceship {
                None => r.is_none() && final(self).spaceship.is_none(),
                Some(s) => {
                    let t = ship_steered(s, steering_spec(*keys, dt));
                    &&& final(self).spaceship == Some(t)
                    &&& r == Some(t.parts.body.orientation)
                }
            },
            old(self).wf() ==> final(self).wf(),
    {
        match self.spaceship {
            None => None,
            Some(s) => {
                let d = steering(keys, dt);
                let mut t = s;
                t.parts.body.orientation = turn(s.parts.body.orientation, d);
                self.spaceship = Some(t);
                Some(t.parts.body.orientation)
            }
        }
    }

    /// The rest of the player's controls for one frame, after steering:
    /// sets the ship's velocity from the throttle keys along `facing` (the
    /// forward direction of its orientation), spawns a projectile ahead of
    /// it while fire is held, and raises its shield while the shield key is
    /// held. Changes nothing when there is no ship.
    pub fn control_phase(&mut self, keys: &Keys, facing: Vec3i)
        requires
            is_direction(facing),
        ensures
            match old(self).spaceship {
                None => {
                    &&& final(self).spaceship.is_none()
                    &&& final(self).objects@ == old(self).objects@
                    &&& final(self).next_id == old(self).next_id
                },
                Some(s) => {
                    &&& final(self).spaceship == Some(ship_controlled(s, *keys, facing))
                    &&& if keys.fire && can_spawn(old(self).next_id) {
                        &&& final(self).objects@ == old(self).objects@.push(
                            Entity {
                                id: old(self).next_id,
                                parts: missle_bundle_spec(s.parts.body.position, facing),
                            },
                        )
                        &&& final(self).next_id == old(self).next_id + 1
                    } else {
                        &&& final(self).objects@ == old(self).objects@
                        &&& final(self).next_id == old(self).next_id
                    }
                },
            },
            old(self).wf() ==> final(self).wf(),
    {
        match self.spaceship {
            None => {},
            Some(s) => {
                let mut t = s;
                t.parts.body.velocity = backward_scaled(facing, throttle(keys));
                if keys.fire {
                    let _ = self.spawn(missle_bundle(s.parts.body.position, facing));
                }
                if keys.shield {
                    t.shield = Some(SpaceshipShield);
                }
                self.spaceship = Some(t);
            },
        }
    }

    /// Advances every body, the ship included, by one frame of `dt`
    /// milliseconds.
    pub fn motion_phase(&mut self, dt: u32)
        ensures
            final(self).spaceship == match old(self).spaceship {
                None => None,
                Some(s) => Some(ship_moved(s, dt)),
            },
            final(self).objects@ == old(self).objects@.map_values(|e: Entity| moved(e, dt)),
            final(self).next_id == old(self).next_id,
            old(self).wf() ==> final(self).wf(),
    {
        match self.spaceship {
            None => {},
            Some(s) => {
                let mut t = s;
                t.parts.body.integrate(dt);
                self.spaceship = Some(t);
            },
        }
        let n = self.objects.len();
        let mut i: usize = 0;
        while i < n
            invariant
                n == self.objects@.len(),
                n == old(self).objects@.len(),
                0 <= i <= n,
                self.spaceship == match old(self).spaceship {
                    None => None,
                    Some(s) => Some(ship_moved(s, dt)),
                },
                self.next_id == old(self).next_id,
                forall|k: int| 0 <= k < i ==> self.objects@[k] == moved(old(self).objects@[k], dt),
                forall|k: int| i <= k < n ==> self.objects@[k] == old(self).objects@[k],
            decreases n - i,
        {
            let mut e = self.objects[i];
            e.parts.body.integrate(dt);
            self.objects.set(i, e);
            i = i + 1;
        }
        assert(self.objects@ =~= old(self).objects@.map_values(|e: Entity| moved(e, dt)));
    }

    /// Removes every body but the ship that lies farther than 100 world
    /// units from the origin.
    pub fn despawn_phase(&mut self)
        ensures
            final(self).spaceship == old(self).spaceship,
            final(self).objects@ == survivors(old(self).objects@),
            final(self).next_id == old(self).next_id,
            old(self).wf() ==> final(self).wf(),
    {
        let ghost w = self.wf();
        let mut kept: Vec<Entity> = Vec::new();
        let n = self.objects.len();
        let mut i: usize = 0;
        while i < n
            invariant
                n == self.objects@.len(),
                0 <= i <= n,
                w == self.wf(),
                kept@ == survivors(self.objects@.take(i as int)),
                w ==> forall|a: int, b: int|
                    0 <= a < b < kept@.len() ==> kept@[a].id < kept@[b].id,
                w ==> forall|a: int, j: int|
                    0 <= a < kept@.len() && i <= j < n ==> kept@[a].id < self.objects@[j].id,
                w ==> forall|a: int|
                    0 <= a < kept@.len() ==> {
                        let e = #[trigger] kept@[a];
                        &&& e.id < self.next_id
                        &&& e.parts.body.wf()
                        &&& self.spaceship matches Some(s) ==> s.id != e.id
                    },
            decreases n - i,
        {
            let e = self.objects[i];
            proof {
                assert(self.objects@.take(i + 1).drop_last() =~= self.objects@.take(i as int));
                assert(self.objects@.take(i + 1).last() == e);
            }
            if e.parts.body.position.length_squared() <= DESPAWN_DISTANCE_SQUARED {
                kept.push(e);
            }
            i = i + 1;
        }
        proof {
            assert(self.objects@.take(n as int) =~= self.objects@);
        }
        self.objects = kept;
    }
}

} // verus!

verus! {

/// The ship after `n` frames of the same control keys and facing.
pub open spec fn ship_controlled_n(s: Spaceship, keys: Keys, facing: Vec3i, n: nat) -> Spaceship
    decreases n,
{
    if n == 0 {
        s
    } else {
        ship_controlled(ship_controlled_n(s, keys, facing, (n - 1) as nat), keys, facing)
    }
}

/// Holding the same keys for any number of frames leaves the ship as one
/// frame does: in particular, holding the shield key for several frames
/// raises exactly one shield.
pub proof fn lemma_controls_idempotent(s: Spaceship, keys: Keys, facing: Vec3i, n: nat)
    requires
        n >= 1,
    ensures
        ship_controlled_n(s, keys, facing, n) == ship_controlled(s, keys, facing),
        keys.shield ==> ship_controlled_n(s, keys, facing, n).shield == Some(SpaceshipShield),
    decreases n,
{
    let once = ship_controlled(s, keys, facing);
    assert(ship_controlled(once, keys, facing) == once);
    if n > 1 {
        lemma_controls_idempotent(s, keys, facing, (n - 1) as nat);
    } else {
        assert(ship_controlled_n(s, keys, facing, 0) == s);
    }
}

/// A body survives a despawn phase exactly when it was there and lies
/// within the despawn distance.
pub proof fn lemma_survivors(s: Seq<Entity>, e: Entity)
    ensures
        survivors(s).contains(e) <==> s.contains(e) && !beyond_despawn(e.parts.body.position),
    decreases s.len(),
{
    if s.len() > 0 {
        let p = s.drop_last();
        lemma_survivors(p, e);
        assert(s =~= p.push(s.last()));
        if s.contains(e) && e != s.last() {
            let k = choose|k: int| 0 <= k < s.len() && s[k] == e;
            assert(p[k] == e);
        }
        if p.contains(e) {
            let k = choose|k: int| 0 <= k < p.len() && p[k] == e;
            assert(s[k] == e);
        }
        let r = survivors(p);
        if survivors(s).contains(e) && survivors(s) != r {
            let k = choose|k: int| 0 <= k < survivors(s).len() && survivors(s)[k] == e;
            if k < r.len() {
                assert(r[k] == e);
            }
        }
        if r.contains(e) && survivors(s) != r {
            let k = choose|k: int| 0 <= k < r.len() && r[k] == e;
            assert(survivors(s)[k] == e);
        }
        if !beyond_despawn(s.last().parts.body.position) {
            assert(survivors(s)[r.len() as int] == s.last());
        }
        assert(s[s.len() - 1] == s.last());
    }
}

/// A sequence whose bodies all lie within the despawn distance survives whole.
proof fn lemma_survivors_all_near(s: Seq<Entity>)
    requires
        forall|k: int| 0 <= k < s.len() ==> !beyond_despawn(#[trigger] s[k].parts.body.position),
    ensures
        survivors(s) == s,
    decreases s.len(),
{
    if s.len() > 0 {
        lemma_survivors_all_near(s.drop_last());
        assert(!beyond_despawn(s[s.len() - 1].parts.body.position));
        assert(s.drop_last().push(s.last()) =~= s);
    }
}

/// A second despawn phase right after one removes nothing.
pub proof fn lemma_despawn_idempotent(s: Seq<Entity>)
    ensures
        survivors(survivors(s)) == survivors(s),
{
    let r = survivors(s);
    assert forall|k: int| 0 <= k < r.len() implies !beyond_despawn(
        #[trigger] r[k].parts.body.position,
    ) by {
        assert(r.contains(r[k]));
        lemma_survivors(s, r[k]);
    }
    lemma_survivors_all_near(r);
}

} // verus!
