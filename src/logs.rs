//! Log capture policies of a component and the generations that tell a
//! reader when a policy was replaced.
use std::sync::Arc;
use vstd::prelude::*;

verus! {

/// Where a component's output goes: into a capture file `F`, or nowhere.
#[derive(Debug)]
pub enum LogPolicy<F> {
    ToFile(F),
    Ignore,
}

/// A counter at `next` hands out `next` and moves on by one, until the end of `u64`.
pub open spec fn advance_spec(next: u64) -> (u64, Option<u64>) {
    if next < u64::MAX {
        ((next + 1) as u64, Some(next))
    } else {
        (next, None)
    }
}

impl<F> LogPolicy<F> {
    /// A shared policy that discards output.
    pub fn new_ignore_policy() -> (r: Arc<Self>)
        ensures
            *r == LogPolicy::<F>::Ignore,
    {
        Arc::new(LogPolicy::Ignore)
    }
}

/// Hands out log generations: each number once, in increasing order.
#[derive(Debug)]
pub struct GenerationCounter {
    next: u64,
}

impl GenerationCounter {
    pub closed spec fn next_spec(&self) -> u64 {
        self.next
    }

    pub fn new() -> (r: Self)
        ensures
            r.next_spec() == 0,
    {
        GenerationCounter { next: 0 }
    }

    /// The next generation, or `None` once every `u64` has been handed out.
    pub fn advance(&mut self) -> (r: Option<u64>)
        ensures
            (final(self).next_spec(), r) == advance_spec(old(self).next_spec()),
    {
        if self.next == u64::MAX {
            None
        } else {
            let g = self.next;
            self.next = self.next + 1;
            Some(g)
        }
    }
}

/// The log policy of one component, shared with the process it was handed
/// to, and the generation at which it was installed.
#[derive(Debug)]
pub struct LogTracker<F> {
    dedup_number: u64,
    policy_handle: Arc<LogPolicy<F>>,
}

impl<F> LogTracker<F> {
    pub closed spec fn generation_spec(&self) -> u64 {
        self.dedup_number
    }

    pub closed spec fn policy_spec(&self) -> LogPolicy<F> {
        *self.policy_handle
    }

    /// A tracker that discards output, at `generation`.
    pub fn new(generation: u64) -> (r: Self)
        ensures
            r.generation_spec() == generation,
            r.policy_spec() == LogPolicy::<F>::Ignore,
    {
        LogTracker { dedup_number: generation, policy_handle: LogPolicy::new_ignore_policy() }
    }

    /// Installs a policy that captures into `backing_file`, at `generation`,
    /// and returns it, to be handed to a freshly booted process.
    pub fn create_associated_policy(&mut self, backing_file: F, generation: u64) -> (r: Arc<LogPolicy<F>>)
        ensures
            *r == LogPolicy::ToFile(backing_file),
            final(self).policy_spec() == LogPolicy::ToFile(backing_file),
            final(self).generation_spec() == generation,
    {
        let associated_policy = Arc::new(LogPolicy::ToFile(backing_file));
        self.policy_handle = associated_policy.clone();
        self.dedup_number = generation;
        associated_policy
    }

    pub fn generation(&self) -> (r: u64)
        ensures
            r == self.generation_spec(),
    {
        self.dedup_number
    }

    pub fn policy(&self) -> (r: &Arc<LogPolicy<F>>)
        ensures
            **r == self.policy_spec(),
    {
        &self.policy_handle
    }
}

/// Log generations advance: a generation handed out earlier is below the
/// counter; two policies installed one after the other with generations drawn
/// from it get generations greater than that earlier one, the second greater
/// than the first.
pub proof fn lemma_generations_advance(earlier: u64, next: u64)
    requires
        earlier < next,
        next < u64::MAX - 1,
    ensures
        ({
            let (after_first, first) = advance_spec(next);
            let (_, second) = advance_spec(after_first);
            &&& first is Some && second is Some
            &&& earlier < first->Some_0
            &&& first->Some_0 < second->Some_0
        }),
{
}

} // verus!
