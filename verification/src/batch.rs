//! The batch coordinator: one outcome per input, in input order, under a
//! shared failure counter whose threshold pre-empts further job starts once
//! too many jobs have failed.

use vstd::prelude::*;
use crate::messages;
use crate::paths;
use crate::worker;
use crate::worker::CompressionResult;
use crate::worker::FileContents;

verus! {

/// Once more than this many jobs of one batch have failed, jobs that have not
/// started yet are aborted instead of attempted.
pub const FAILURE_THRESHOLD: u64 = 10;

/// The outcome of one job: on success, the job's result paired with the
/// encoded bytes that belong at the result's output path.
pub type JobOutcome = Result<(CompressionResult, Vec<u8>), String>;

/// One batch entry: the input path and the outcome of fetching that file.
pub struct JobSource {
    pub path: String,
    pub read: Result<FileContents, String>,
}

/// The batch-lifetime shared failure counter: starts at zero, moves only
/// upwards, and is read before each job starts.
pub struct FailureCounter {
    count: u64,
}

impl FailureCounter {
    pub closed spec fn spec_count(&self) -> u64 {
        self.count
    }

    pub fn new() -> (r: FailureCounter)
        ensures
            r.spec_count() == 0,
    {
        FailureCounter { count: 0 }
    }

    /// How many failures have been recorded.
    pub fn count(&self) -> (r: u64)
        ensures
            r == self.spec_count(),
    {
        self.count
    }

    /// Records one more failed job. The count never moves downwards, and it
    /// grows by exactly one until it saturates.
    pub fn record_failure(&mut self)
        ensures
            old(self).spec_count() <= final(self).spec_count(),
            old(self).spec_count() < u64::MAX ==> final(self).spec_count() == old(
                self,
            ).spec_count() + 1,
    {
        if self.count < u64::MAX {
            self.count = self.count + 1;
        }
    }

    /// Whether the circuit breaker has tripped: strictly more than
    /// `FAILURE_THRESHOLD` failures so far.
    pub fn should_abort(&self) -> (r: bool)
        ensures
            r == (self.spec_count() > FAILURE_THRESHOLD),
    {
        self.count > FAILURE_THRESHOLD
    }
}

/// How many of the outcomes in `s` are failures.
pub open spec fn err_count(s: Seq<JobOutcome>) -> nat
    decreases s.len(),
{
    if s.len() == 0 {
        0
    } else {
        err_count(s.drop_last()) + if s.last() is Err {
            1nat
        } else {
            0nat
        }
    }
}

proof fn lemma_err_count_push(s: Seq<JobOutcome>, x: JobOutcome)
    ensures
        err_count(s.push(x)) == err_count(s) + if x is Err {
            1nat
        } else {
            0nat
        },
{
    assert(s.push(x).drop_last() =~= s);
    assert(s.push(x).last() == x);
}

/// Runs a whole batch over already-fetched files, one outcome per entry, in
/// entry order. Before each job starts, the failure counter is consulted:
/// past the threshold the job is aborted unattempted; otherwise the job runs
/// and a failure is recorded if it fails. `target_size_kb` is accepted as
/// configuration but has no effect on the encoding: it is a reserved field.
pub fn run_batch(
    jobs: &Vec<JobSource>,
    quality: u8,
    target_size_kb: Option<u32>,
    format: &str,
) -> (r: Vec<JobOutcome>)
    ensures
        r@.len() == jobs@.len(),
        forall|i: int|
            #![trigger r@[i]]
            0 <= i < r@.len() ==> (r@[i] matches Ok(p) ==> {
                &&& p.0.original_path@ == jobs@[i].path@
                &&& p.0.compressed_path@ == paths::output_path_spec(jobs@[i].path@, format@)
                &&& jobs@[i].read is Ok
                &&& p.0.original_size == jobs@[i].read->Ok_0.size
                &&& p.0.compressed_size == p.1@.len()
            }),
        forall|i: int|
            0 <= i < r@.len() && err_count(r@.subrange(0, i)) > FAILURE_THRESHOLD ==> (
            #[trigger] r@[i]) is Err && r@[i]->Err_0@ == messages::threshold_abort_msg(),
        forall|i: int|
            0 <= i < r@.len() && err_count(r@.subrange(0, i)) <= FAILURE_THRESHOLD && jobs@[i].read
                is Err ==> (#[trigger] r@[i]) is Err && r@[i]->Err_0@ == jobs@[i].read->Err_0@,
{
    let mut results: Vec<JobOutcome> = Vec::new();
    let mut counter = FailureCounter::new();
    let mut idx: usize = 0;
    while idx < jobs.len()
        invariant
            0 <= idx <= jobs@.len(),
            results@.len() == idx,
            counter.spec_count() <= FAILURE_THRESHOLD + 1,
            counter.spec_count() <= FAILURE_THRESHOLD ==> counter.spec_count() == err_count(
                results@,
            ),
            counter.spec_count() > FAILURE_THRESHOLD ==> err_count(results@)
                >= counter.spec_count(),
            forall|i: int|
                #![trigger results@[i]]
                0 <= i < results@.len() ==> (results@[i] matches Ok(p) ==> {
                    &&& p.0.original_path@ == jobs@[i].path@
                    &&& p.0.compressed_path@ == paths::output_path_spec(jobs@[i].path@, format@)
                    &&& jobs@[i].read is Ok
                    &&& p.0.original_size == jobs@[i].read->Ok_0.size
                    &&& p.0.compressed_size == p.1@.len()
                }),
            forall|i: int|
                0 <= i < results@.len() && err_count(results@.subrange(0, i)) > FAILURE_THRESHOLD
                    ==> (#[trigger] results@[i]) is Err && results@[i]->Err_0@
                    == messages::threshold_abort_msg(),
            forall|i: int|
                0 <= i < results@.len() && err_count(results@.subrange(0, i)) <= FAILURE_THRESHOLD
                    && jobs@[i].read is Err ==> (#[trigger] results@[i]) is Err
                    && results@[i]->Err_0@ == jobs@[i].read->Err_0@,
        decreases jobs@.len() - idx,
    {
        let outcome: JobOutcome;
        if counter.should_abort() {
            outcome = Err(messages::threshold_abort_error());
        } else {
            let job = &jobs[idx];
            match worker::compress_file_data(job.path.as_str(), &job.read, quality, format) {
                Ok(p) => {
                    outcome = Ok(p);
                },
                Err(e) => {
                    counter.record_failure();
                    outcome = Err(e);
                },
            }
        }
        let ghost prev = results@;
        results.push(outcome);
        idx = idx + 1;
        proof {
            lemma_err_count_push(prev, results@.last());
            assert(results@.drop_last() =~= prev);
            assert(results@.subrange(0, prev.len() as int) =~= prev);
            assert forall|i: int| 0 <= i < prev.len() implies results@.subrange(0, i)
                =~= prev.subrange(0, i) by {
            }
        }
    }
    results
}

} // verus!
