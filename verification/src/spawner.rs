//! Timed finite emission. A spawner owns either a single prototype entity or
//! a finite queue of pre-built entities, decides per tick whether it is
//! eligible to emit, and becomes permanently exhausted once its supply is
//! gone: exhaustion is terminal for the spawner's lifetime, there is no
//! refill.
//!
//! The spawner is generic over the entity payload, which it never inspects:
//! the frame loop instantiates it with whatever descriptor its physics world
//! takes. Positional jitter is reported as an integer displacement per axis,
//! drawn uniformly from `[-offset, +offset]`; the caller scales it into
//! world units when inserting the entity.

use crate::cooldown::Cooldown;
use rand::Rng;
use vstd::prelude::*;

verus! {

/// `n` copies of one base entity, in a row: the emission plan of a
/// single-type spawner.
pub open spec fn repeated<E>(e: E, n: nat) -> Seq<E> {
    Seq::new(n, |i: int| e)
}

/// One granted emission: the entity to insert and the positional jitter to
/// apply to it, one independent uniform displacement per axis.
pub struct SpawnedBody<E> {
    /// The emitted entity: a clone of the prototype for a single-type
    /// spawner, the tail of the remaining queue for a pipeline.
    pub body: E,
    /// Jitter displacement along the x axis, within the spawner's offset.
    pub offset_x: i64,
    /// Jitter displacement along the y axis, within the spawner's offset.
    pub offset_y: i64,
}

/// The emission source of a spawner. `Exhausted` is terminal: a spawner
/// moves there when its supply runs out and never leaves.
pub enum SpawnerType<E> {
    /// Emits clones of one prototype until `count` reaches `amount`, with a
    /// per-emission jitter radius of `offset`.
    Single { body: E, amount: u8, count: u8, offset: u32 },
    /// Emits pre-built entities from the tail of the remaining queue, so the
    /// effective emission order is the reverse of the authoring order. This
    /// convention is deliberate and load-bearing: callers who want authoring
    /// order must reverse the queue at construction time.
    Pipeline { body_pipeline: Vec<E> },
    /// Nothing left to emit, now or ever.
    Exhausted,
}

/// A timed finite emitter: an emission source behind a cooldown gate. The
/// gate makes the spawner eligible on a cadence; the source makes it
/// permanently exhausted after a fixed number of emissions.
pub struct BodySpawner<E> {
    t: SpawnerType<E>,
    timer: Cooldown,
    plan: Ghost<Seq<E>>,
    emitted: Ghost<Seq<E>>,
}

impl<E: Clone> BodySpawner<E> {
    /// The full emission plan fixed at construction: every base entity this
    /// spawner will ever emit, in emission order.
    pub closed spec fn plan(self) -> Seq<E> {
        self.plan@
    }

    /// The log of base entities emitted so far, in emission order. For a
    /// single-type spawner the base entity is the prototype itself; the
    /// emitted clone may differ from it only by the reported jitter.
    pub closed spec fn emitted(self) -> Seq<E> {
        self.emitted@
    }

    /// The base entities still to be emitted, in emission order.
    pub closed spec fn pending(self) -> Seq<E> {
        match self.t {
            SpawnerType::Single { body, amount, count, .. } => Seq::new(
                (amount - count) as nat,
                |i: int| body,
            ),
            SpawnerType::Pipeline { body_pipeline } => body_pipeline@.reverse(),
            SpawnerType::Exhausted => Seq::empty(),
        }
    }

    /// The spawner's supply has run out; terminal and irreversible.
    pub closed spec fn exhausted(self) -> bool {
        self.t is Exhausted
    }

    /// The cooldown gate that paces this spawner's emissions.
    pub closed spec fn cooldown(self) -> Cooldown {
        self.timer
    }

    /// The jitter radius applied to each emission.
    pub closed spec fn jitter_radius(self) -> u32 {
        match self.t {
            SpawnerType::Single { offset, .. } => offset,
            SpawnerType::Pipeline { .. } => 0,
            SpawnerType::Exhausted => 0,
        }
    }

    /// Internal consistency: the plan splits into the emitted log followed
    /// by the pending emissions, and an active source still has supply.
    pub closed spec fn wf(self) -> bool {
        &&& self.plan@ == self.emitted@ + self.pending()
        &&& match self.t {
            SpawnerType::Single { amount, count, .. } => count < amount,
            SpawnerType::Pipeline { body_pipeline } => body_pipeline@.len() > 0,
            SpawnerType::Exhausted => true,
        }
    }

    /// The spawner may emit at `now`: it is not exhausted and its cooldown
    /// gate is open.
    pub open spec fn eligible(self, now: u64) -> bool {
        !self.exhausted() && self.cooldown().ready(now)
    }

    /// A spawner that emits up to `amount` clones of `body`, at most one per
    /// `period` microseconds, each displaced by an independent uniform
    /// jitter within `offset` per axis.
    pub fn new_single_type(body: E, amount: u8, period: u64, offset: u32) -> (s: BodySpawner<E>)
        ensures
            s.wf(),
            s.plan() == repeated(body, amount as nat),
            s.emitted() == Seq::<E>::empty(),
            s.pending() == s.plan(),
            s.cooldown() == (Cooldown { last_fired: None::<u64>, interval: period }),
            amount > 0 ==> s.jitter_radius() == offset,
            s.exhausted() <==> amount == 0,
    {
        let ghost planned = repeated(body, amount as nat);
        let t = if amount == 0 {
            SpawnerType::Exhausted
        } else {
            SpawnerType::Single { body, amount, count: 0, offset }
        };
        let s = BodySpawner {
            t,
            timer: Cooldown::new(period),
            plan: Ghost(planned),
            emitted: Ghost(Seq::empty()),
        };
        proof {
            assert(s.pending() =~= s.plan@);
            assert(s.plan@ =~= s.emitted@ + s.pending());
        }
        s
    }

    /// A spawner that hands out the entities of `body_pipeline` one by one,
    /// at most one per `period` microseconds, from the tail of the queue:
    /// the emission order is the reverse of the authoring order.
    pub fn new_pipeline(body_pipeline: Vec<E>, period: u64) -> (s: BodySpawner<E>)
        ensures
            s.wf(),
            s.plan() == body_pipeline@.reverse(),
            s.emitted() == Seq::<E>::empty(),
            s.pending() == s.plan(),
            s.cooldown() == (Cooldown { last_fired: None::<u64>, interval: period }),
            s.jitter_radius() == 0,
            s.exhausted() <==> body_pipeline@.len() == 0,
    {
        let ghost authored = body_pipeline@;
        let t = if body_pipeline.len() == 0 {
            SpawnerType::Exhausted
        } else {
            SpawnerType::Pipeline { body_pipeline }
        };
        let s = BodySpawner {
            t,
            timer: Cooldown::new(period),
            plan: Ghost(authored.reverse()),
            emitted: Ghost(Seq::empty()),
        };
        proof {
            assert(s.pending() =~= s.plan@);
            assert(s.plan@ =~= s.emitted@ + s.pending());
        }
        s
    }

    /// Point-in-time eligibility query; mutates nothing.
    pub fn is_spawnable(&self, now: u64) -> (r: bool)
        ensures
            r == self.eligible(now),
    {
        match &self.t {
            SpawnerType::Exhausted => false,
            SpawnerType::Single { .. } => self.timer.is_ready(now),
            SpawnerType::Pipeline { .. } => self.timer.is_ready(now),
        }
    }

    /// How many emissions are left before exhaustion.
    pub fn remaining(&self) -> (n: usize)
        requires
            self.wf(),
        ensures
            n == self.pending().len(),
    {
        match &self.t {
            SpawnerType::Exhausted => 0,
            SpawnerType::Single { amount, count, .. } => (*amount - *count) as usize,
            SpawnerType::Pipeline { body_pipeline } => body_pipeline.len(),
        }
    }

    /// Has the spawner's supply run out for good?
    pub fn is_exhausted(&self) -> (r: bool)
        ensures
            r == self.exhausted(),
    {
        match &self.t {
            SpawnerType::Exhausted => true,
            SpawnerType::Single { .. } => false,
            SpawnerType::Pipeline { .. } => false,
        }
    }

    /// Emit one entity. Valid only when `is_spawnable` reported true this
    /// tick: calling it otherwise is a contract violation, not a runtime
    /// condition. Every successful emission arms the cooldown gate, moves
    /// the emitted base entity from the pending plan to the emitted log, and
    /// leaves the spawner exhausted exactly when nothing is pending anymore.
    pub fn spawn(&mut self, now: u64) -> (r: SpawnedBody<E>)
        requires
            old(self).wf(),
            old(self).eligible(now),
        ensures
            final(self).wf(),
            final(self).plan() == old(self).plan(),
            final(self).cooldown() == old(self).cooldown().fired(now),
            final(self).jitter_radius() == (if final(self).exhausted() {
                0u32
            } else {
                old(self).jitter_radius()
            }),
            final(self).emitted() == old(self).emitted().push(old(self).pending().first()),
            final(self).pending() == old(self).pending().drop_first(),
            final(self).exhausted() <==> old(self).pending().len() == 1,
            cloned::<E>(old(self).pending().first(), r.body),
            -(old(self).jitter_radius() as int) <= r.offset_x <= old(self).jitter_radius() as int,
            -(old(self).jitter_radius() as int) <= r.offset_y <= old(self).jitter_radius() as int,
    {
        self.timer.fire(now);
        let mut t = SpawnerType::Exhausted;
        core::mem::swap(&mut t, &mut self.t);
        match t {
            SpawnerType::Single { body, amount, count, offset } => {
                let ghost base = body;
                let emitted_body = body.clone();
                let lo = -(offset as i64);
                let hi = offset as i64;
                let dx = random_in_range(lo, hi);
                let dy = random_in_range(lo, hi);
                let new_count = count + 1;
                if new_count < amount {
                    self.t = SpawnerType::Single { body, amount, count: new_count, offset };
                }
                self.emitted = Ghost(self.emitted@.push(base));
                proof {
                    assert(old(self).pending().first() == base);
                    assert(self.pending() =~= old(self).pending().drop_first());
                    assert(self.plan@ =~= self.emitted@ + self.pending());
                }
                SpawnedBody { body: emitted_body, offset_x: dx, offset_y: dy }
            },
            SpawnerType::Pipeline { mut body_pipeline } => {
                let emitted_body = match body_pipeline.pop() {
                    Some(b) => b,
                    None => unreached(),
                };
                let ghost base = emitted_body;
                if body_pipeline.len() > 0 {
                    self.t = SpawnerType::Pipeline { body_pipeline };
                }
                self.emitted = Ghost(self.emitted@.push(base));
                proof {
                    assert(old(self).pending().first() == base);
                    assert(self.pending() =~= old(self).pending().drop_first());
                    assert(self.plan@ =~= self.emitted@ + self.pending());
                }
                SpawnedBody { body: emitted_body, offset_x: 0, offset_y: 0 }
            },
            SpawnerType::Exhausted => unreached(),
        }
    }
}

/// Relies on rand: `rand::thread_rng` hands back the thread-local generator
/// and `rand::Rng::gen_range` draws a uniformly distributed value from the
/// inclusive range, panicking only on an empty range, which the precondition
/// excludes. Nothing beyond the bounds is promised of a random draw.
#[verifier::external_body]
fn random_in_range(lo: i64, hi: i64) -> (d: i64)
    requires
        lo <= hi,
    ensures
        lo <= d <= hi,
{
    rand::thread_rng().gen_range(lo..=hi)
}

/// Shape of a well-formed spawner: the plan splits into the emitted log
/// followed by the pending emissions, and the spawner is exhausted exactly
/// when nothing is pending anymore.
pub proof fn lemma_spawner_invariant<E: Clone>(s: BodySpawner<E>)
    requires
        s.wf(),
    ensures
        s.plan() == s.emitted() + s.pending(),
        s.exhausted() <==> s.pending().len() == 0,
        s.emitted().len() + s.pending().len() == s.plan().len(),
{
}

/// An exhausted spawner is never eligible again, at whatever time it is
/// polled: exhaustion is terminal for the spawner's lifetime.
pub proof fn lemma_exhausted_never_eligible<E: Clone>(s: BodySpawner<E>, now: u64)
    requires
        s.exhausted(),
    ensures
        !s.eligible(now),
{
}

/// Once a spawner is exhausted, its emitted log is its whole plan: a
/// single-type spawner with target `amount` has emitted exactly `amount`
/// clones of its prototype, and a pipeline spawner has emitted exactly the
/// authored sequence, reversed.
pub proof fn lemma_exhausted_emitted_whole_plan<E: Clone>(s: BodySpawner<E>)
    requires
        s.wf(),
        s.exhausted(),
    ensures
        s.emitted() == s.plan(),
{
    assert(s.emitted() =~= s.plan());
}

} // verus!
