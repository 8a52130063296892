//! Observation points of a replay: phases, and counts of the resources it holds.
use vstd::arithmetic::div_mod::{
    lemma_add_mod_noop, lemma_mod_add_multiples_vanish, lemma_mod_self_0, lemma_small_mod,
    lemma_sub_mod_noop,
};
use vstd::prelude::*;

verus! {

/// A point that a replay passes.
#[derive(Clone, Copy, Debug, PartialEq, Eq, Structural)]
pub enum ReplayTestPhase {
    InitialCanonicalChecked,
    ProviderLoaded,
    PreExecutionApplied,
    TransactionExecuted,
    BeforeFormatter,
    FormatterCompleted,
    RootAComputed,
    StateDiffEncoded,
    StateDiffDecoded,
    RootBComputed,
    OutputBuilt,
    JsonSerializationCompleted,
    JsonSerialized,
}

/// A resource that a replay holds.
#[derive(Clone, Copy, Debug, PartialEq, Eq, Structural)]
pub enum ReplayTestResource {
    Worker,
    Permit,
    ProviderReader,
    OutputBuffer,
    SerializedBuffer,
}

/// How many of each resource are held.
#[derive(Clone, Copy, Debug, PartialEq, Eq, Structural)]
pub struct ReplayTestResourceSnapshot {
    pub workers: usize,
    pub permits: usize,
    pub provider_readers: usize,
    pub output_buffers: usize,
    pub serialized_buffers: usize,
}

impl ReplayTestResourceSnapshot {
    /// The snapshot of a replay that holds nothing.
    pub open spec fn drained() -> ReplayTestResourceSnapshot {
        ReplayTestResourceSnapshot {
            workers: 0,
            permits: 0,
            provider_readers: 0,
            output_buffers: 0,
            serialized_buffers: 0,
        }
    }

    /// How many of one resource are held.
    pub open spec fn count(self, resource: ReplayTestResource) -> usize {
        match resource {
            ReplayTestResource::Worker => self.workers,
            ReplayTestResource::Permit => self.permits,
            ReplayTestResource::ProviderReader => self.provider_readers,
            ReplayTestResource::OutputBuffer => self.output_buffers,
            ReplayTestResource::SerializedBuffer => self.serialized_buffers,
        }
    }

    /// The snapshot with one resource's count replaced.
    pub open spec fn with_count(self, resource: ReplayTestResource, n: usize) -> Self {
        match resource {
            ReplayTestResource::Worker => ReplayTestResourceSnapshot { workers: n, ..self },
            ReplayTestResource::Permit => ReplayTestResourceSnapshot { permits: n, ..self },
            ReplayTestResource::ProviderReader => ReplayTestResourceSnapshot {
                provider_readers: n,
                ..self
            },
            ReplayTestResource::OutputBuffer => ReplayTestResourceSnapshot {
                output_buffers: n,
                ..self
            },
            ReplayTestResource::SerializedBuffer => ReplayTestResourceSnapshot {
                serialized_buffers: n,
                ..self
            },
        }
    }

    /// The snapshot after one more of a resource has been taken. The count wraps.
    pub open spec fn taken(self, resource: ReplayTestResource) -> Self {
        self.with_count(resource, self.count(resource).wrapping_add(1))
    }

    /// The snapshot after one of a resource has been given back. The count wraps.
    pub open spec fn released(self, resource: ReplayTestResource) -> Self {
        self.with_count(resource, self.count(resource).wrapping_sub(1))
    }

    /// The snapshot after one holder's share has changed from `from` to `to`. The counts wrap.
    pub open spec fn rebooked(self, from: Self, to: Self) -> Self {
        ReplayTestResourceSnapshot {
            workers: self.workers.wrapping_sub(from.workers).wrapping_add(to.workers),
            permits: self.permits.wrapping_sub(from.permits).wrapping_add(to.permits),
            provider_readers: self.provider_readers.wrapping_sub(
                from.provider_readers,
            ).wrapping_add(to.provider_readers),
            output_buffers: self.output_buffers.wrapping_sub(from.output_buffers).wrapping_add(
                to.output_buffers,
            ),
            serialized_buffers: self.serialized_buffers.wrapping_sub(
                from.serialized_buffers,
            ).wrapping_add(to.serialized_buffers),
        }
    }
}

impl Default for ReplayTestResourceSnapshot {
    fn default() -> (r: Self)
        ensures
            r == Self::drained(),
    {
        ReplayTestResourceSnapshot {
            workers: 0,
            permits: 0,
            provider_readers: 0,
            output_buffers: 0,
            serialized_buffers: 0,
        }
    }
}

/// A resource that has been taken and not been given back.
#[derive(Debug)]
pub struct ReplayTestResourceGuard {
    resource: ReplayTestResource,
}

impl View for ReplayTestResourceGuard {
    type V = ReplayTestResource;

    closed spec fn view(&self) -> ReplayTestResource {
        self.resource
    }
}

/// The ledger of the resources that replays hold.
#[derive(Debug)]
pub struct ReplayTestResources {
    counters: ReplayTestResourceSnapshot,
}

impl View for ReplayTestResources {
    type V = ReplayTestResourceSnapshot;

    closed spec fn view(&self) -> ReplayTestResourceSnapshot {
        self.counters
    }
}

impl Default for ReplayTestResources {
    fn default() -> (r: Self)
        ensures
            r@ == ReplayTestResourceSnapshot::drained(),
    {
        ReplayTestResources { counters: ReplayTestResourceSnapshot::default() }
    }
}

impl ReplayTestResources {
    /// Takes one of a resource: counts it and hands out the guard that stands for it.
    pub fn guard(&mut self, resource: ReplayTestResource) -> (r: ReplayTestResourceGuard)
        ensures
            final(self)@ == old(self)@.taken(resource),
            r@ == resource,
    {
        let n: usize = self.counter(resource).wrapping_add(1);
        self.set_counter(resource, n);
        ReplayTestResourceGuard { resource }
    }

    /// Gives back the resource that a guard stands for.
    pub fn release(&mut self, guard: ReplayTestResourceGuard)
        ensures
            final(self)@ == old(self)@.released(guard@),
    {
        let n: usize = self.counter(guard.resource).wrapping_sub(1);
        self.set_counter(guard.resource, n);
    }

    /// Books a change of one holder's share from `from` to `to`.
    pub fn rebook(
        &mut self,
        from: &ReplayTestResourceSnapshot,
        to: &ReplayTestResourceSnapshot,
    )
        ensures
            final(self)@ == old(self)@.rebooked(*from, *to),
    {
        let now = self.counters;
        self.counters =
        ReplayTestResourceSnapshot {
            workers: now.workers.wrapping_sub(from.workers).wrapping_add(to.workers),
            permits: now.permits.wrapping_sub(from.permits).wrapping_add(to.permits),
            provider_readers: now.provider_readers.wrapping_sub(
                from.provider_readers,
            ).wrapping_add(to.provider_readers),
            output_buffers: now.output_buffers.wrapping_sub(from.output_buffers).wrapping_add(
                to.output_buffers,
            ),
            serialized_buffers: now.serialized_buffers.wrapping_sub(
                from.serialized_buffers,
            ).wrapping_add(to.serialized_buffers),
        };
    }

    /// How many of each resource are held.
    pub fn snapshot(&self) -> (r: ReplayTestResourceSnapshot)
        ensures
            r == self@,
    {
        self.counters
    }

    /// How many of one resource are held.
    pub fn counter(&self, resource: ReplayTestResource) -> (r: usize)
        ensures
            r == self@.count(resource),
    {
        match resource {
            ReplayTestResource::Worker => self.counters.workers,
            ReplayTestResource::Permit => self.counters.permits,
            ReplayTestResource::ProviderReader => self.counters.provider_readers,
            ReplayTestResource::OutputBuffer => self.counters.output_buffers,
            ReplayTestResource::SerializedBuffer => self.counters.serialized_buffers,
        }
    }

    /// Replaces one resource's count.
    fn set_counter(&mut self, resource: ReplayTestResource, n: usize)
        ensures
            final(self)@ == old(self)@.with_count(resource, n),
    {
        match resource {
            ReplayTestResource::Worker => self.counters.workers = n,
            ReplayTestResource::Permit => self.counters.permits = n,
            ReplayTestResource::ProviderReader => self.counters.provider_readers = n,
            ReplayTestResource::OutputBuffer => self.counters.output_buffers = n,
            ReplayTestResource::SerializedBuffer => self.counters.serialized_buffers = n,
        }
    }
}

/// Callbacks and a resource ledger that observe a replay.
pub struct ReplayTestProbe<W, P> {
    /// Called with the block number when a worker starts.
    pub on_worker_enter: Option<W>,
    /// Called when a phase is reached.
    pub on_phase: Option<P>,
    /// Counts what replays hold.
    pub resources: Option<ReplayTestResources>,
}

impl<W: Fn(u64), P: Fn(ReplayTestPhase)> ReplayTestProbe<W, P> {
    /// A probe that observes workers.
    pub fn new(on_worker_enter: W) -> (r: Self)
        ensures
            r.on_worker_enter == Some(on_worker_enter),
            r.on_phase is None,
            r.resources is None,
    {
        ReplayTestProbe { on_worker_enter: Some(on_worker_enter), on_phase: None, resources: None }
    }

    /// A probe that observes phases.
    pub fn for_phase(on_phase: P) -> (r: Self)
        ensures
            r.on_worker_enter is None,
            r.on_phase == Some(on_phase),
            r.resources is None,
    {
        ReplayTestProbe { on_worker_enter: None, on_phase: Some(on_phase), resources: None }
    }

    /// The same probe with a resource ledger.
    pub fn with_resources(self, resources: ReplayTestResources) -> (r: Self)
        ensures
            r.on_worker_enter == self.on_worker_enter,
            r.on_phase == self.on_phase,
            r.resources == Some(resources),
    {
        ReplayTestProbe {
            on_worker_enter: self.on_worker_enter,
            on_phase: self.on_phase,
            resources: Some(resources),
        }
    }

    /// Reports a worker to the worker callback, if there is one.
    pub fn worker_entered(&self, block_number: u64)
        requires
            self.on_worker_enter matches Some(callback) ==> call_requires(
                callback,
                (block_number,),
            ),
        ensures
            self.on_worker_enter matches Some(callback) ==> call_ensures(
                callback,
                (block_number,),
                (),
            ),
    {
        if let Some(on_worker_enter) = &self.on_worker_enter {
            on_worker_enter(block_number);
        }
    }

    /// Reports a phase to the phase callback, if there is one.
    pub fn phase_reached(&self, phase: ReplayTestPhase)
        requires
            self.on_phase matches Some(callback) ==> call_requires(callback, (phase,)),
        ensures
            self.on_phase matches Some(callback) ==> call_ensures(callback, (phase,), ()),
    {
        if let Some(on_phase) = &self.on_phase {
            on_phase(phase);
        }
    }

    /// Takes one of a resource in the probe's ledger, if it has one.
    pub fn resource_guard(&mut self, resource: ReplayTestResource) -> (r: Option<
        ReplayTestResourceGuard,
    >)
        ensures
            final(self).on_worker_enter == old(self).on_worker_enter,
            final(self).on_phase == old(self).on_phase,
            match old(self).resources {
                Some(resources) => {
                    &&& final(self).resources matches Some(after)
                    &&& after@ == resources@.taken(resource)
                    &&& r matches Some(guard)
                    &&& guard@ == resource
                },
                None => final(self).resources is None && r is None,
            },
    {
        match self.resources.take() {
            Some(mut resources) => {
                let guard = resources.guard(resource);
                self.resources = Some(resources);
                Some(guard)
            },
            None => None,
        }
    }
}

/// Giving back what was taken restores every count.
pub proof fn release_undoes_guard(before: ReplayTestResourceSnapshot, resource: ReplayTestResource)
    ensures
        before.taken(resource).released(resource) == before,
{
}

/// The order in which resources are taken and given back does not matter.
pub proof fn resources_are_independent(
    before: ReplayTestResourceSnapshot,
    a: ReplayTestResource,
    b: ReplayTestResource,
)
    ensures
        before.taken(a).taken(b).released(a) == before.taken(b),
        before.taken(a).taken(b) == before.taken(b).taken(a),
{
    release_undoes_guard(before, a);
    if a != b {
        taking_leaves_others_alone(before, a, b);
        taking_leaves_others_alone(before, b, a);
        let one_more = before.count(b).wrapping_add(1);
        release_undoes_guard(before.with_count(b, one_more), a);
        counts_commute(before, a, before.count(a).wrapping_add(1), b, one_more);
    }
}

/// Booking a share step by step is booking it at once.
pub proof fn rebookings_add_up(
    ledger: ReplayTestResourceSnapshot,
    a: ReplayTestResourceSnapshot,
    b: ReplayTestResourceSnapshot,
    c: ReplayTestResourceSnapshot,
)
    ensures
        ledger.rebooked(a, b).rebooked(b, c) == ledger.rebooked(a, c),
        ledger.rebooked(a, a) == ledger,
{
}

/// A change of the ledger.
pub enum LedgerEntry {
    Taken(ReplayTestResource),
    Released(ReplayTestResource),
}

/// How many more of a resource were taken than given back.
pub open spec fn balance(entries: Seq<LedgerEntry>, resource: ReplayTestResource) -> int
    decreases entries.len(),
{
    if entries.len() == 0 {
        0
    } else {
        balance(entries.drop_last(), resource) + match entries.last() {
            LedgerEntry::Taken(taken) => if taken == resource {
                1int
            } else {
                0
            },
            LedgerEntry::Released(released) => if released == resource {
                -1int
            } else {
                0
            },
        }
    }
}

impl ReplayTestResourceSnapshot {
    /// The snapshot after a sequence of changes.
    pub open spec fn after_all(self, entries: Seq<LedgerEntry>) -> Self
        decreases entries.len(),
    {
        if entries.len() == 0 {
            self
        } else {
            let before = self.after_all(entries.drop_last());
            match entries.last() {
                LedgerEntry::Taken(resource) => before.taken(resource),
                LedgerEntry::Released(resource) => before.released(resource),
            }
        }
    }
}

/// A count is what it was before a sequence of changes plus the balance of the changes, modulo the
/// range of the counter.
pub proof fn counts_follow_the_balance(
    before: ReplayTestResourceSnapshot,
    entries: Seq<LedgerEntry>,
    resource: ReplayTestResource,
)
    ensures
        before.after_all(entries).count(resource) == (before.count(resource) + balance(
            entries,
            resource,
        )) % (usize::MAX + 1),
    decreases entries.len(),
{
    let range = usize::MAX + 1;
    if entries.len() == 0 {
        lemma_small_mod(before.count(resource) as nat, range as nat);
    } else {
        let earlier = entries.drop_last();
        counts_follow_the_balance(before, earlier, resource);
        let sum = before.count(resource) + balance(earlier, resource);
        let count = before.after_all(earlier).count(resource) as int;
        lemma_add_mod_noop(sum, 1, range);
        lemma_sub_mod_noop(sum, 1, range);
        lemma_small_mod(1, range as nat);
        if count + 1 < range {
            lemma_small_mod((count + 1) as nat, range as nat);
        } else {
            lemma_mod_self_0(range);
        }
        if count >= 1 {
            lemma_small_mod((count - 1) as nat, range as nat);
        } else {
            lemma_mod_add_multiples_vanish(-1, range);
            lemma_small_mod((range - 1) as nat, range as nat);
        }
    }
}

/// Once everything that was taken is given back, in whatever order, every count is what it was; a
/// drained ledger is drained again.
pub proof fn what_is_given_back_is_not_counted(
    before: ReplayTestResourceSnapshot,
    entries: Seq<LedgerEntry>,
)
    requires
        forall|resource: ReplayTestResource| #[trigger] balance(entries, resource) == 0,
    ensures
        before.after_all(entries) == before,
{
    let after = before.after_all(entries);
    assert forall|resource: ReplayTestResource| after.count(resource) == before.count(
        resource,
    ) by {
        counts_follow_the_balance(before, entries, resource);
        assert(balance(entries, resource) == 0);
        lemma_small_mod(before.count(resource) as nat, (usize::MAX + 1) as nat);
    }
    assert(after.workers == after.count(ReplayTestResource::Worker));
    assert(after.permits == after.count(ReplayTestResource::Permit));
    assert(after.provider_readers == after.count(ReplayTestResource::ProviderReader));
    assert(after.output_buffers == after.count(ReplayTestResource::OutputBuffer));
    assert(after.serialized_buffers == after.count(ReplayTestResource::SerializedBuffer));
}

/// Taking one resource leaves the count of another as it was.
proof fn taking_leaves_others_alone(
    before: ReplayTestResourceSnapshot,
    a: ReplayTestResource,
    b: ReplayTestResource,
)
    requires
        a != b,
    ensures
        before.taken(a).count(b) == before.count(b),
        before.taken(b).count(a) == before.count(a),
{
}

/// Replacing two counts commutes.
proof fn counts_commute(
    before: ReplayTestResourceSnapshot,
    a: ReplayTestResource,
    m: usize,
    b: ReplayTestResource,
    n: usize,
)
    requires
        a != b,
    ensures
        before.with_count(a, m).with_count(b, n) == before.with_count(b, n).with_count(a, m),
        before.with_count(b, n).count(a) == before.count(a),
{
}

/// Taking or giving back one of a resource changes its own count by one, round the end of the
/// counter, and no other.
pub proof fn guards_count_their_own_resource(
    before: ReplayTestResourceSnapshot,
    resource: ReplayTestResource,
)
    ensures
        ({
            let after = before.taken(resource);
            let back = before.released(resource);
            let counts = |s: ReplayTestResourceSnapshot|
                seq![s.workers, s.permits, s.provider_readers, s.output_buffers, s.serialized_buffers];
            let own = match resource {
                ReplayTestResource::Worker => 0int,
                ReplayTestResource::Permit => 1,
                ReplayTestResource::ProviderReader => 2,
                ReplayTestResource::OutputBuffer => 3,
                ReplayTestResource::SerializedBuffer => 4,
            };
            forall|i: int|
                0 <= i < 5 ==> {
                    let now = #[trigger] counts(before)[i];
                    if i != own {
                        counts(after)[i] == now && counts(back)[i] == now
                    } else {
                        &&& now < usize::MAX ==> counts(after)[i] == now + 1
                        &&& now == usize::MAX ==> counts(after)[i] == 0
                        &&& now > 0 ==> counts(back)[i] == now - 1
                        &&& now == 0 ==> counts(back)[i] == usize::MAX
                    }
                }
        }),
{
}

/// A rebooking replaces one holder's share: where the share is part of the counts and they stay in
/// range, every count changes by the difference of the two shares.
pub proof fn rebookings_replace_a_share(
    ledger: ReplayTestResourceSnapshot,
    from: ReplayTestResourceSnapshot,
    to: ReplayTestResourceSnapshot,
    resource: ReplayTestResource,
)
    requires
        ledger.count(resource) >= from.count(resource),
        ledger.count(resource) - from.count(resource) + to.count(resource) <= usize::MAX,
    ensures
        ledger.rebooked(from, to).count(resource) == ledger.count(resource) - from.count(resource)
            + to.count(resource),
{
}

} // verus!
