//! Bookkeeping of which particles are still in flight between the cathode
//! and the anode, and which of them the anode has collected.
//!
//! The geometric tests (has a particle crossed the anode radius, has it fallen
//! back onto the cathode) are made by the caller on the particle positions; the
//! library decides from those two facts what becomes of each particle.

use vstd::prelude::*;

verus! {

/// Number of `true` entries of a sequence of flags.
pub open spec fn count_true(s: Seq<bool>) -> nat
    decreases s.len(),
{
    if s.len() == 0 {
        0
    } else {
        count_true(s.drop_last()) + (if s.last() { 1nat } else { 0nat })
    }
}

/// A particle that falls back onto the cathode is only retired once the
/// step counter has passed 2: during the first steps the freshly emitted
/// particles still sit on the emitting surface.
pub open spec fn cathode_capture_enabled(step: int) -> bool {
    step > 2
}

/// Whether a particle is still in flight after a step.
pub open spec fn stays_in_flight(active: bool, at_anode: bool, at_cathode: bool, step: int) -> bool {
    active && !at_anode && !(at_cathode && cathode_capture_enabled(step))
}

/// Whether a particle has been collected by the anode after a step.
pub open spec fn collected_by_anode(hit: bool, active: bool, at_anode: bool) -> bool {
    hit || (active && at_anode)
}

/// In-flight flags of all particles after a step.
pub open spec fn next_active(
    active: Seq<bool>,
    at_anode: Seq<bool>,
    at_cathode: Seq<bool>,
    step: int,
) -> Seq<bool> {
    Seq::new(
        active.len(),
        |i: int| stays_in_flight(active[i], at_anode[i], at_cathode[i], step),
    )
}

/// Anode-collection flags of all particles after a step.
pub open spec fn next_hit(hit: Seq<bool>, active: Seq<bool>, at_anode: Seq<bool>) -> Seq<bool> {
    Seq::new(hit.len(), |i: int| collected_by_anode(hit[i], active[i], at_anode[i]))
}

/// No particle is at the same time in flight and collected.
pub open spec fn disjoint(active: Seq<bool>, hit: Seq<bool>) -> bool {
    &&& active.len() == hit.len()
    &&& forall|i: int| 0 <= i < active.len() ==> !(#[trigger] active[i] && hit[i])
}

proof fn lemma_count_true_prefix(s: Seq<bool>, i: int)
    requires
        0 <= i < s.len(),
    ensures
        count_true(s.subrange(0, i + 1)) == count_true(s.subrange(0, i)) + (if s[i] {
            1nat
        } else {
            0nat
        }),
{
    assert(s.subrange(0, i + 1).drop_last() =~= s.subrange(0, i));
}

proof fn lemma_count_true_monotone(a: Seq<bool>, b: Seq<bool>)
    requires
        a.len() == b.len(),
        forall|i: int| 0 <= i < a.len() && #[trigger] a[i] ==> b[i],
    ensures
        count_true(a) <= count_true(b),
    decreases a.len(),
{
    if a.len() > 0 {
        let (a1, b1) = (a.drop_last(), b.drop_last());
        assert forall|i: int| 0 <= i < a1.len() && #[trigger] a1[i] implies b1[i] by {
            assert(a[i]);
        }
        lemma_count_true_monotone(a1, b1);
        assert(a.last() ==> b.last()) by {
            assert(a[a.len() - 1] ==> b[a.len() - 1]);
        }
    }
}

proof fn lemma_count_true_disjoint(a: Seq<bool>, b: Seq<bool>)
    requires
        disjoint(a, b),
    ensures
        count_true(a) + count_true(b) <= a.len(),
    decreases a.len(),
{
    if a.len() > 0 {
        let (a1, b1) = (a.drop_last(), b.drop_last());
        assert forall|i: int| 0 <= i < a1.len() implies !(#[trigger] a1[i] && b1[i]) by {
            assert(!(a[i] && b[i]));
        }
        lemma_count_true_disjoint(a1, b1);
        assert(!(a[a.len() - 1] && b[a.len() - 1]));
    }
}

/// One step never brings a retired particle back into flight, never erases a
/// recorded anode hit, and keeps in-flight and collected particles apart:
/// so the number in flight never grows, the number collected never shrinks,
/// and together they never exceed the number of particles.
pub proof fn law_step_is_monotone(
    active: Seq<bool>,
    hit: Seq<bool>,
    at_anode: Seq<bool>,
    at_cathode: Seq<bool>,
    step: int,
)
    requires
        disjoint(active, hit),
        at_anode.len() == active.len(),
        at_cathode.len() == active.len(),
    ensures
        forall|i: int|
            0 <= i < active.len() && #[trigger] next_active(active, at_anode, at_cathode, step)[i]
                ==> active[i],
        forall|i: int| 0 <= i < hit.len() && #[trigger] hit[i] ==> next_hit(hit, active, at_anode)[i],
        disjoint(next_active(active, at_anode, at_cathode, step), next_hit(hit, active, at_anode)),
        count_true(next_active(active, at_anode, at_cathode, step)) <= count_true(active),
        count_true(hit) <= count_true(next_hit(hit, active, at_anode)),
        count_true(next_active(active, at_anode, at_cathode, step)) + count_true(
            next_hit(hit, active, at_anode),
        ) <= active.len(),
{
    let na = next_active(active, at_anode, at_cathode, step);
    let nh = next_hit(hit, active, at_anode);
    assert forall|i: int| 0 <= i < na.len() && #[trigger] na[i] implies active[i] by {}
    assert forall|i: int| 0 <= i < hit.len() && #[trigger] hit[i] implies nh[i] by {}
    assert forall|i: int| 0 <= i < na.len() implies !(#[trigger] na[i] && nh[i]) by {
        assert(!(active[i] && hit[i]));
    }
    lemma_count_true_monotone(na, active);
    lemma_count_true_monotone(hit, nh);
    lemma_count_true_disjoint(na, nh);
}

proof fn lemma_count_true_split(a: Seq<bool>, b: Seq<bool>, c: Seq<bool>)
    requires
        a.len() == b.len(),
        a.len() == c.len(),
        forall|i: int| 0 <= i < a.len() ==> #[trigger] a[i] == (b[i] || c[i]),
        forall|i: int| 0 <= i < a.len() ==> !(#[trigger] b[i] && c[i]),
    ensures
        count_true(a) == count_true(b) + count_true(c),
    decreases a.len(),
{
    if a.len() > 0 {
        let (a1, b1, c1) = (a.drop_last(), b.drop_last(), c.drop_last());
        assert forall|i: int| 0 <= i < a1.len() implies #[trigger] a1[i] == (b1[i] || c1[i]) by {
            assert(a[i] == (b[i] || c[i]));
        }
        assert forall|i: int| 0 <= i < a1.len() implies !(#[trigger] b1[i] && c1[i]) by {
            assert(!(b[i] && c[i]));
        }
        lemma_count_true_split(a1, b1, c1);
        assert(a[a.len() - 1] == (b[a.len() - 1] || c[a.len() - 1]));
        assert(!(b[a.len() - 1] && c[a.len() - 1]));
    }
}

/// The outcome of one step for every particle, whatever the swarm size and
/// the step: a particle stays in flight exactly when it was in flight, is not
/// at the anode, and is not at the cathode at a step past 2; it is collected
/// exactly when it was already collected or was in flight and reached the anode.
pub proof fn law_step_outcome(
    active: Seq<bool>,
    hit: Seq<bool>,
    at_anode: Seq<bool>,
    at_cathode: Seq<bool>,
    step: int,
)
    requires
        hit.len() == active.len(),
        at_anode.len() == active.len(),
        at_cathode.len() == active.len(),
    ensures
        next_active(active, at_anode, at_cathode, step).len() == active.len(),
        next_hit(hit, active, at_anode).len() == active.len(),
        forall|i: int|
            0 <= i < active.len() ==> #[trigger] next_active(active, at_anode, at_cathode, step)[i]
                == (active[i] && !at_anode[i] && !(at_cathode[i] && step > 2)),
        forall|i: int|
            0 <= i < active.len() ==> #[trigger] next_hit(hit, active, at_anode)[i] == (hit[i] || (
            active[i] && at_anode[i])),
{
}

/// Cathode capture: at every step past 2, an in-flight particle that is at the
/// cathode and not at the anode is retired without being collected; at steps
/// 0, 1 and 2 it stays in flight.
pub proof fn law_cathode_capture(
    active: Seq<bool>,
    hit: Seq<bool>,
    at_anode: Seq<bool>,
    at_cathode: Seq<bool>,
    step: int,
    i: int,
)
    requires
        hit.len() == active.len(),
        at_anode.len() == active.len(),
        at_cathode.len() == active.len(),
        0 <= i < active.len(),
        active[i],
        !at_anode[i],
        at_cathode[i],
    ensures
        step > 2 ==> !next_active(active, at_anode, at_cathode, step)[i],
        step <= 2 ==> next_active(active, at_anode, at_cathode, step)[i],
        next_hit(hit, active, at_anode)[i] == hit[i],
{
}

/// A particle in flight that touches neither electrode stays in flight at
/// every step, and its collected flag is unchanged.
pub proof fn law_free_particle_stays(
    active: Seq<bool>,
    hit: Seq<bool>,
    at_anode: Seq<bool>,
    at_cathode: Seq<bool>,
    step: int,
    i: int,
)
    requires
        hit.len() == active.len(),
        at_anode.len() == active.len(),
        at_cathode.len() == active.len(),
        0 <= i < active.len(),
        active[i],
        !at_anode[i],
        !at_cathode[i],
    ensures
        next_active(active, at_anode, at_cathode, step)[i],
        next_hit(hit, active, at_anode)[i] == hit[i],
{
}

/// Anode collection: every in-flight particle that reaches the anode, at any
/// index, is retired and collected, so (with in-flight and collected particles
/// apart) the number collected after a step is the number before plus the
/// number of in-flight particles at the anode.
pub proof fn law_anode_collects(
    active: Seq<bool>,
    hit: Seq<bool>,
    at_anode: Seq<bool>,
    at_cathode: Seq<bool>,
    step: int,
)
    requires
        disjoint(active, hit),
        at_anode.len() == active.len(),
        at_cathode.len() == active.len(),
    ensures
        forall|i: int|
            0 <= i < active.len() && active[i] && at_anode[i] ==> #[trigger] next_hit(
                hit,
                active,
                at_anode,
            )[i] && !next_active(active, at_anode, at_cathode, step)[i],
        count_true(next_hit(hit, active, at_anode)) == count_true(hit) + count_true(
            Seq::new(active.len(), |i: int| active[i] && at_anode[i]),
        ),
{
    let nh = next_hit(hit, active, at_anode);
    let arriving = Seq::new(active.len(), |i: int| active[i] && at_anode[i]);
    assert forall|i: int| 0 <= i < nh.len() implies #[trigger] nh[i] == (hit[i] || arriving[i]) by {}
    assert forall|i: int| 0 <= i < nh.len() implies !(#[trigger] hit[i] && arriving[i]) by {
        assert(!(active[i] && hit[i]));
    }
    lemma_count_true_split(nh, hit, arriving);
}

/// The number of `true` flags.
pub fn count_set(flags: &Vec<bool>) -> (n: usize)
    ensures
        n == count_true(flags@),
{
    let mut n: usize = 0;
    let mut i: usize = 0;
    while i < flags.len()
        invariant
            i <= flags.len(),
            n == count_true(flags@.subrange(0, i as int)),
            n <= i,
        decreases flags.len() - i,
    {
        proof {
            lemma_count_true_prefix(flags@, i as int);
        }
        if flags[i] {
            n = n + 1;
        }
        i = i + 1;
    }
    assert(flags@.subrange(0, flags.len() as int) =~= flags@);
    n
}

/// Applies one step's outcome to every particle: an in-flight particle that
/// reached the anode is collected and retired; one that fell back onto the
/// cathode is retired once cathode capture is enabled at `step`; the others
/// stay in flight. Returns how many remain in flight.
pub fn update_particle_states(
    active: &mut Vec<bool>,
    hit_anode: &mut Vec<bool>,
    at_anode: &Vec<bool>,
    at_cathode: &Vec<bool>,
    step: usize,
) -> (in_flight: usize)
    requires
        old(hit_anode).len() == old(active).len(),
        at_anode.len() == old(active).len(),
        at_cathode.len() == old(active).len(),
    ensures
        final(active)@ == next_active(old(active)@, at_anode@, at_cathode@, step as int),
        final(hit_anode)@ == next_hit(old(hit_anode)@, old(active)@, at_anode@),
        in_flight == count_true(final(active)@),
        final(active).len() == old(active).len(),
        final(hit_anode).len() == old(active).len(),
        forall|i: int|
            0 <= i < old(active).len() ==> #[trigger] final(active)@[i] == (old(active)@[i]
                && !at_anode@[i] && !(at_cathode@[i] && step > 2)),
        forall|i: int|
            0 <= i < old(active).len() ==> #[trigger] final(hit_anode)@[i] == (old(hit_anode)@[i]
                || (old(active)@[i] && at_anode@[i])),
    no_unwind
{
    let n = active.len();
    let ghost a0 = active@;
    let ghost h0 = hit_anode@;
    let mut count: usize = 0;
    let mut i: usize = 0;
    while i < n
        invariant
            n == active.len(),
            n == a0.len(),
            hit_anode.len() == n,
            h0.len() == n,
            at_anode.len() == n,
            at_cathode.len() == n,
            i <= n,
            forall|k: int|
                0 <= k < i ==> #[trigger] active@[k] == stays_in_flight(
                    a0[k],
                    at_anode@[k],
                    at_cathode@[k],
                    step as int,
                ),
            forall|k: int| i <= k < n ==> #[trigger] active@[k] == a0[k],
            forall|k: int|
                0 <= k < i ==> #[trigger] hit_anode@[k] == collected_by_anode(
                    h0[k],
                    a0[k],
                    at_anode@[k],
                ),
            forall|k: int| i <= k < n ==> #[trigger] hit_anode@[k] == h0[k],
            count == count_true(active@.subrange(0, i as int)),
            count <= i,
        decreases n - i,
    {
        let ghost before = active@;
        if active[i] {
            if at_anode[i] {
                hit_anode[i] = true;
                active[i] = false;
            } else if at_cathode[i] && step > 2 {
                active[i] = false;
            } else {
                count = count + 1;
            }
        }
        proof {
            assert(active@.subrange(0, i as int) =~= before.subrange(0, i as int));
            lemma_count_true_prefix(active@, i as int);
        }
        i = i + 1;
    }
    assert(active@.subrange(0, n as int) =~= active@);
    assert(active@ =~= next_active(a0, at_anode@, at_cathode@, step as int));
    assert(hit_anode@ =~= next_hit(h0, a0, at_anode@));
    count
}

/// Indices of the particles whose positions are recorded at a step: those in
/// flight among the first `num_record`, in increasing order.
pub fn recorded_particles(active: &Vec<bool>, num_record: usize) -> (idx: Vec<usize>)
    ensures
        forall|k: int|
            0 <= k < idx.len() ==> #[trigger] idx@[k] < num_record && idx@[k] < active.len()
                && active@[idx@[k] as int],
        forall|k1: int, k2: int| 0 <= k1 < k2 < idx.len() ==> idx@[k1] < idx@[k2],
        forall|i: int|
            0 <= i < active.len() && i < num_record && #[trigger] active@[i] ==> idx@.contains(
                i as usize,
            ),
{
    let limit = if num_record < active.len() {
        num_record
    } else {
        active.len()
    };
    let mut idx: Vec<usize> = Vec::new();
    let mut i: usize = 0;
    while i < limit
        invariant
            limit <= num_record,
            limit <= active.len(),
            i <= limit,
            forall|k: int|
                0 <= k < idx.len() ==> #[trigger] idx@[k] < i && active@[idx@[k] as int],
            forall|k1: int, k2: int| 0 <= k1 < k2 < idx.len() ==> idx@[k1] < idx@[k2],
            forall|j: int| 0 <= j < i && #[trigger] active@[j] ==> idx@.contains(j as usize),
        decreases limit - i,
    {
        if active[i] {
            let ghost prev = idx@;
            idx.push(i);
            proof {
                assert forall|j: int| 0 <= j < i + 1 && #[trigger] active@[j] implies idx@.contains(
                    j as usize,
                ) by {
                    if j < i {
                        let k = choose|k: int| 0 <= k < prev.len() && prev[k] == j as usize;
                        assert(idx@[k] == j as usize);
                    } else {
                        assert(idx@[idx.len() - 1] == i);
                    }
                }
            }
        }
        i = i + 1;
    }
    idx
}

/// In-flight and anode-collection state of a swarm of particles, together
/// with the number of steps taken.
pub struct ParticleTracker {
    active: Vec<bool>,
    hit_anode: Vec<bool>,
    step_count: usize,
}

impl ParticleTracker {
    #[verifier::type_invariant]
    spec fn consistent(self) -> bool {
        disjoint(self.active@, self.hit_anode@)
    }

    /// In-flight flag of each particle.
    pub closed spec fn in_flight(self) -> Seq<bool> {
        self.active@
    }

    /// Anode-collection flag of each particle.
    pub closed spec fn collected(self) -> Seq<bool> {
        self.hit_anode@
    }

    /// Number of steps taken.
    pub closed spec fn steps(self) -> nat {
        self.step_count as nat
    }

    /// All `n` particles in flight, none collected, no step taken.
    pub fn new(n: usize) -> (t: Self)
        ensures
            t.in_flight() == Seq::new(n as nat, |i: int| true),
            t.collected() == Seq::new(n as nat, |i: int| false),
            t.steps() == 0,
    {
        let mut active: Vec<bool> = Vec::new();
        let mut hit_anode: Vec<bool> = Vec::new();
        let mut i: usize = 0;
        while i < n
            invariant
                i <= n,
                active@ == Seq::new(i as nat, |k: int| true),
                hit_anode@ == Seq::new(i as nat, |k: int| false),
            decreases n - i,
        {
            active.push(true);
            hit_anode.push(false);
            i = i + 1;
        }
        ParticleTracker { active, hit_anode, step_count: 0 }
    }

    /// Counts one more step and applies its outcome (see
    /// `update_particle_states`, with cathode capture judged on the new step
    /// count). Returns whether any particle is still in flight.
    pub fn record_step(&mut self, at_anode: &Vec<bool>, at_cathode: &Vec<bool>) -> (running: bool)
        requires
            at_anode.len() == old(self).in_flight().len(),
            at_cathode.len() == old(self).in_flight().len(),
            old(self).steps() < usize::MAX,
        ensures
            final(self).steps() == old(self).steps() + 1,
            final(self).in_flight() == next_active(
                old(self).in_flight(),
                at_anode@,
                at_cathode@,
                final(self).steps() as int,
            ),
            final(self).collected() == next_hit(
                old(self).collected(),
                old(self).in_flight(),
                at_anode@,
            ),
            running == (count_true(final(self).in_flight()) > 0),
            disjoint(final(self).in_flight(), final(self).collected()),
            forall|i: int|
                0 <= i < old(self).in_flight().len() ==> #[trigger] final(self).in_flight()[i] == (
                old(self).in_flight()[i] && !at_anode@[i] && !(at_cathode@[i] && old(self).steps()
                    + 1 > 2)),
            forall|i: int|
                0 <= i < old(self).in_flight().len() ==> #[trigger] final(self).collected()[i] == (
                old(self).collected()[i] || (old(self).in_flight()[i] && at_anode@[i])),
            count_true(final(self).collected()) == count_true(old(self).collected()) + count_true(
                Seq::new(
                    old(self).in_flight().len(),
                    |i: int| old(self).in_flight()[i] && at_anode@[i],
                ),
            ),
    {
        proof {
            use_type_invariant(&*self);
            law_anode_collects(
                self.active@,
                self.hit_anode@,
                at_anode@,
                at_cathode@,
                self.step_count + 1,
            );
            law_step_is_monotone(
                self.active@,
                self.hit_anode@,
                at_anode@,
                at_cathode@,
                self.step_count + 1,
            );
        }
        self.step_count = self.step_count + 1;
        let in_flight = update_particle_states(
            &mut self.active,
            &mut self.hit_anode,
            at_anode,
            at_cathode,
            self.step_count,
        );
        in_flight > 0
    }

    /// The in-flight flag of each particle.
    pub fn active_states(&self) -> (states: Vec<bool>)
        ensures
            states@ == self.in_flight(),
    {
        let mut states: Vec<bool> = Vec::new();
        let mut i: usize = 0;
        while i < self.active.len()
            invariant
                i <= self.active.len(),
                states@ == self.active@.subrange(0, i as int),
            decreases self.active.len() - i,
        {
            states.push(self.active[i]);
            i = i + 1;
        }
        states
    }

    /// How many particles the anode has collected.
    pub fn hit_count(&self) -> (n: usize)
        ensures
            n == count_true(self.collected()),
            disjoint(self.in_flight(), self.collected()),
            n + count_true(self.in_flight()) <= self.collected().len(),
    {
        proof {
            use_type_invariant(self);
            lemma_count_true_disjoint(self.active@, self.hit_anode@);
        }
        count_set(&self.hit_anode)
    }

    /// How many particles are in flight.
    pub fn in_flight_count(&self) -> (n: usize)
        ensures
            n == count_true(self.in_flight()),
    {
        count_set(&self.active)
    }

    /// Number of steps taken.
    pub fn step_count(&self) -> (n: usize)
        ensures
            n == self.steps(),
    {
        self.step_count
    }

    /// Number of particles followed.
    pub fn num_particles(&self) -> (n: usize)
        ensures
            n == self.in_flight().len(),
            n == self.collected().len(),
    {
        proof {
            use_type_invariant(self);
        }
        self.active.len()
    }
}

} // verus!
