use vstd::prelude::*;

verus! {

/// Number of application-layer ping round trips in one sampling operation.
pub const SAMPLE_COUNT: usize = 10;

/// What one round trip on the connection's ping channel came to: the elapsed
/// wall-clock time in microseconds, or a channel failure (for example the
/// peer closing the connection mid-sequence).
pub enum PingOutcome {
    Reply(i32),
    Failed,
}

/// Bookkeeping of one RTT sampling operation.
///
/// The runtime drives it: while `needs_ping` holds it performs one ping
/// round trip and records the outcome; `into_samples` then yields the
/// ordered sample set.  Sampling is all-or-nothing: a single failed round
/// trip makes the whole operation yield nothing.
pub struct Sampler {
    samples: Vec<i32>,
    failed: bool,
}

impl Sampler {
    /// The samples recorded so far, oldest first.
    pub closed spec fn samples_view(self) -> Seq<i32> {
        self.samples@
    }

    /// Whether some round trip has failed.
    pub closed spec fn has_failed(self) -> bool {
        self.failed
    }

    /// No more samples are ever recorded than one operation asks for.
    pub open spec fn wf(self) -> bool {
        self.samples_view().len() <= SAMPLE_COUNT
    }

    /// The operation has succeeded: all round trips came back.
    pub open spec fn complete(self) -> bool {
        !self.has_failed() && self.samples_view().len() == SAMPLE_COUNT
    }

    /// Another round trip is owed.
    pub open spec fn wants_ping(self) -> bool {
        !self.has_failed() && self.samples_view().len() < SAMPLE_COUNT
    }

    pub fn new() -> (s: Sampler)
        ensures
            s.wf(),
            !s.has_failed(),
            s.samples_view() == Seq::<i32>::empty(),
    {
        Sampler { samples: Vec::new(), failed: false }
    }

    /// Whether the driver must perform another ping round trip.
    pub fn needs_ping(&self) -> (b: bool)
        ensures
            b == self.wants_ping(),
    {
        !self.failed && self.samples.len() < SAMPLE_COUNT
    }

    /// Records the outcome of one round trip: a reply appends its elapsed
    /// time to the sample set; a failure aborts the whole operation.
    pub fn record(&mut self, outcome: PingOutcome)
        requires
            old(self).wf(),
            old(self).wants_ping(),
        ensures
            final(self).wf(),
            match outcome {
                PingOutcome::Reply(elapsed_micros) => {
                    &&& final(self).samples_view() == old(self).samples_view().push(elapsed_micros)
                    &&& !final(self).has_failed()
                },
                PingOutcome::Failed => {
                    &&& final(self).has_failed()
                    &&& final(self).samples_view() == old(self).samples_view()
                },
            },
    {
        match outcome {
            PingOutcome::Reply(elapsed_micros) => self.samples.push(elapsed_micros),
            PingOutcome::Failed => self.failed = true,
        }
    }

    /// The result of the operation: the full ordered sample set on success,
    /// nothing after any failure or while round trips are still owed.
    pub fn into_samples(self) -> (r: Option<Vec<i32>>)
        requires
            self.wf(),
        ensures
            match r {
                Option::Some(samples) => {
                    &&& self.complete()
                    &&& samples@ == self.samples_view()
                    &&& samples@.len() == SAMPLE_COUNT
                },
                Option::None => !self.complete(),
            },
    {
        if !self.failed && self.samples.len() == SAMPLE_COUNT {
            Option::Some(self.samples)
        } else {
            Option::None
        }
    }
}

/// Law: a sampling operation is all-or-nothing.  A complete operation holds
/// exactly `SAMPLE_COUNT` samples; after any failure it is never complete,
/// and a driver that stopped pinging without a failure has all ten.
pub proof fn lemma_sampling_all_or_nothing(s: Sampler)
    requires
        s.wf(),
    ensures
        s.complete() ==> s.samples_view().len() == SAMPLE_COUNT,
        s.has_failed() ==> !s.complete(),
        !s.wants_ping() && !s.has_failed() ==> s.complete(),
{
}

} // verus!
