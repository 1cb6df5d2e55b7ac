use vstd::prelude::*;
use vstd::string::*;
use std::collections::HashMap;
use crate::text::{decimal, push_decimal, decimal_string};
use crate::fuzzer::config::Configuration;

verus! {

broadcast use vstd::std_specs::hash::group_hash_axioms;

/// Unique identifier for a fuzzer job.
#[derive(Debug, Clone, Copy, PartialEq, Eq, Hash, Structural)]
pub struct JobId(pub u64);

/// The source of job identifiers: the identifier the next job gets. Identifiers
/// start at 1 and advance by one (wrapping) per job.
#[derive(Debug)]
pub struct JobIdCounter {
    pub next: u64,
}

/// The identifier that follows `id`.
pub open spec fn next_id(id: u64) -> u64 {
    if id == u64::MAX {
        0
    } else {
        (id + 1) as u64
    }
}

impl JobIdCounter {
    /// A counter whose first identifier is 1.
    pub fn new() -> (c: JobIdCounter)
        ensures
            c.next == 1,
    {
        JobIdCounter { next: 1 }
    }
}

impl JobId {
    /// Takes the next identifier from `counter`.
    pub fn new(counter: &mut JobIdCounter) -> (id: JobId)
        ensures
            id.0 == old(counter).next,
            final(counter).next == next_id(old(counter).next),
    {
        let id = counter.next;
        counter.next = counter.next.wrapping_add(1);
        JobId(id)
    }

    /// The number of this identifier.
    pub fn as_u64(&self) -> (n: u64)
        ensures
            n == self.0,
    {
        self.0
    }


    /// The decimal notation of this identifier.
    pub fn to_string(&self) -> (s: String)
        ensures
            s@ == decimal(self.0 as nat),
    {
        decimal_string(self.0)
    }
}

impl From<u64> for JobId {
    /// The identifier with number `id`.
    fn from(id: u64) -> (j: JobId) {
        JobId(id)
    }
}

impl vstd::std_specs::convert::FromSpecImpl<u64> for JobId {
    open spec fn obeys_from_spec() -> bool {
        true
    }

    open spec fn from_spec(id: u64) -> JobId {
        JobId(id)
    }
}

/// Two identifiers taken one after the other from the same counter differ.
pub proof fn law_successive_ids_differ(start: u64)
    ensures
        next_id(start) != start,
{
}

/// The message for a stop request naming a job that is not running.
pub open spec fn job_not_found_message(id: u64) -> Seq<char> {
    "Job "@ + decimal(id as nat) + " not found"@
}

/// The message for a metrics request naming a job that has none.
pub open spec fn no_metrics_message(id: u64) -> Seq<char> {
    "No metrics for job "@ + decimal(id as nat)
}

fn job_not_found(id: u64) -> (m: String)
    ensures
        m@ == job_not_found_message(id),
{
    let mut m = String::new();
    m.append("Job ");
    push_decimal(&mut m, id);
    m.append(" not found");
    assert(m@ =~= job_not_found_message(id));
    m
}

fn no_metrics(id: u64) -> (m: String)
    ensures
        m@ == no_metrics_message(id),
{
    let mut m = String::new();
    m.append("No metrics for job ");
    push_decimal(&mut m, id);
    assert(m@ =~= no_metrics_message(id));
    m
}

/// The bookkeeping of the launcher: running jobs (by identifier, with a handle
/// `H` by which the caller can abort them), the latest metrics snapshot `S` of
/// each job, the configuration each job was created with, and the identifier
/// source.
pub struct Launcher<H, S> {
    jobs: HashMap<u64, H>,
    metrics: HashMap<u64, S>,
    configs: HashMap<u64, Configuration>,
    ids: JobIdCounter,
}

/// The abstract state of a launcher.
pub struct LauncherState<H, S> {
    pub jobs: Map<u64, H>,
    pub metrics: Map<u64, S>,
    pub configs: Map<u64, Configuration>,
    pub next: u64,
}

impl<H, S> LauncherState<H, S> {
    /// The state after a job is created for `config` with metrics `initial`:
    /// the job gets the next identifier, and its metrics and configuration are
    /// recorded.
    pub open spec fn after_create(self, config: Configuration, initial: S) -> LauncherState<H, S> {
        LauncherState {
            jobs: self.jobs,
            metrics: self.metrics.insert(self.next, initial),
            configs: self.configs.insert(self.next, config),
            next: next_id(self.next),
        }
    }

    /// The state after a stop request for `id`.
    pub open spec fn after_stop(self, id: u64) -> LauncherState<H, S> {
        LauncherState { jobs: self.jobs.remove(id), ..self }
    }

    /// The state after job `id`, which has a recorded configuration, is
    /// restarted with metrics `initial`: it is stopped, and a new job is
    /// created under the next identifier, to which its configuration passes.
    pub open spec fn after_restart(self, id: u64, initial: S) -> LauncherState<H, S> {
        LauncherState {
            jobs: self.jobs.remove(id),
            metrics: self.metrics.insert(self.next, initial),
            configs: self.configs.remove(id).insert(self.next, self.configs[id]),
            next: next_id(self.next),
        }
    }
}

impl<H, S> View for Launcher<H, S> {
    type V = LauncherState<H, S>;

    closed spec fn view(&self) -> LauncherState<H, S> {
        LauncherState {
            jobs: self.jobs@,
            metrics: self.metrics@,
            configs: self.configs@,
            next: self.ids.next,
        }
    }
}

impl<H, S> Launcher<H, S> {
    /// A launcher with no jobs, metrics or configurations, whose first job gets
    /// identifier 1.
    pub fn new() -> (l: Self)
        ensures
            l@.jobs == Map::<u64, H>::empty(),
            l@.metrics == Map::<u64, S>::empty(),
            l@.configs == Map::<u64, Configuration>::empty(),
            l@.next == 1,
    {
        Launcher {
            jobs: HashMap::new(),
            metrics: HashMap::new(),
            configs: HashMap::new(),
            ids: JobIdCounter::new(),
        }
    }

    /// Creates a job for `config` with its metrics set to `initial`, and returns
    /// its identifier.
    pub fn create_job(&mut self, config: Configuration, initial: S) -> (r: Result<u64, String>)
        ensures
            r == Ok::<u64, String>(old(self)@.next),
            final(self)@ == old(self)@.after_create(config, initial),
    {
        let job_id = JobId::new(&mut self.ids);
        self.metrics.insert(job_id.as_u64(), initial);
        self.configs.insert(job_id.as_u64(), config);
        Ok(job_id.as_u64())
    }

    /// The configuration a job was created with, if it was created here.
    pub fn job_config(&self, job_id: u64) -> (r: Option<&Configuration>)
        ensures
            r == (if self@.configs.contains_key(job_id) {
                Some(&self@.configs[job_id])
            } else {
                None::<&Configuration>
            }),
    {
        self.configs.get(&job_id)
    }

    /// Restarts a job: stops it and creates a new job with the same
    /// configuration and metrics `initial`. Hands back the abort handle of the
    /// old job, if it was running, and the identifier of the new one; or
    /// reports that no such job was created.
    pub fn restart_job(&mut self, job_id: u64, initial: S) -> (r: Result<(Option<H>, u64), String>)
        ensures
            old(self)@.configs.contains_key(job_id) ==> {
                &&& r == Ok::<(Option<H>, u64), String>(
                    (
                        if old(self)@.jobs.contains_key(job_id) {
                            Some(old(self)@.jobs[job_id])
                        } else {
                            None
                        },
                        old(self)@.next,
                    ),
                )
                &&& final(self)@ == old(self)@.after_restart(job_id, initial)
            },
            !old(self)@.configs.contains_key(job_id) ==> {
                &&& r matches Err(m) && m@ == job_not_found_message(job_id)
                &&& final(self)@ == old(self)@
            },
    {
        match self.configs.remove(&job_id) {
            Some(config) => {
                let handle = self.jobs.remove(&job_id);
                let new_id = JobId::new(&mut self.ids);
                self.metrics.insert(new_id.as_u64(), initial);
                self.configs.insert(new_id.as_u64(), config);
                Ok((handle, new_id.as_u64()))
            },
            None => {
                assert(self.configs@ =~= old(self).configs@);
                Err(job_not_found(job_id))
            },
        }
    }

    /// Stops a running job: hands back its abort handle and forgets the job, or
    /// reports that no such job runs.
    pub fn stop_job(&mut self, job_id: u64) -> (r: Result<H, String>)
        ensures
            final(self)@ == old(self)@.after_stop(job_id),
            old(self)@.jobs.contains_key(job_id) ==> r == Ok::<H, String>(old(self)@.jobs[job_id]),
            !old(self)@.jobs.contains_key(job_id) ==> (r matches Err(m) && m@
                == job_not_found_message(job_id)),
    {
        match self.jobs.remove(&job_id) {
            Some(handle) => Ok(handle),
            None => Err(job_not_found(job_id)),
        }
    }

    /// The latest metrics of a job, or the report that it has none.
    pub fn get_metrics(&self, job_id: u64) -> (r: Result<&S, String>)
        ensures
            self@.metrics.contains_key(job_id) ==> r == Ok::<&S, String>(&self@.metrics[job_id]),
            !self@.metrics.contains_key(job_id) ==> (r matches Err(m) && m@ == no_metrics_message(
                job_id,
            )),
    {
        match self.metrics.get(&job_id) {
            Some(s) => Ok(s),
            None => Err(no_metrics(job_id)),
        }
    }
}

/// What a metrics request after creating a job answers is the metrics that
/// the job was created with; the job's configuration is the one it was
/// created for.
pub proof fn law_metrics_after_create<H, S>(
    state: LauncherState<H, S>,
    config: Configuration,
    initial: S,
)
    ensures
        state.after_create(config, initial).metrics.contains_key(state.next),
        state.after_create(config, initial).metrics[state.next] == initial,
        state.after_create(config, initial).configs[state.next] == config,
{
}

/// Creating a job leaves the metrics of every other job as they were.
pub proof fn law_create_keeps_other_metrics<H, S>(
    state: LauncherState<H, S>,
    config: Configuration,
    initial: S,
    other: u64,
)
    requires
        other != state.next,
    ensures
        state.after_create(config, initial).metrics.contains_key(other)
            == state.metrics.contains_key(other),
        state.metrics.contains_key(other) ==> state.after_create(config, initial).metrics[other]
            == state.metrics[other],
{
}

/// Two jobs created one after the other get different identifiers.
pub proof fn law_created_ids_differ<H, S>(
    state: LauncherState<H, S>,
    config: Configuration,
    initial: S,
)
    ensures
        state.after_create(config, initial).next != state.next,
{
}

/// A restarted job no longer runs; the new job takes its configuration, under
/// an identifier of its own, with the metrics it was restarted with; the
/// metrics of the old job stay readable.
pub proof fn law_restart_reuses_config<H, S>(state: LauncherState<H, S>, id: u64, initial: S)
    requires
        state.configs.contains_key(id),
    ensures
        !state.after_restart(id, initial).jobs.contains_key(id),
        state.after_restart(id, initial).configs.contains_key(state.next),
        state.after_restart(id, initial).configs[state.next] == state.configs[id],
        state.after_restart(id, initial).metrics[state.next] == initial,
        state.next != id ==> state.after_restart(id, initial).metrics.contains_key(id)
            == state.metrics.contains_key(id),
        state.after_restart(id, initial).next != state.next,
{
}

/// Once a job is stopped it no longer runs, so a second stop request for it is
/// answered with the not-found report; stopping touches no metrics.
pub proof fn law_stop_is_final<H, S>(state: LauncherState<H, S>, id: u64)
    ensures
        !state.after_stop(id).jobs.contains_key(id),
        state.after_stop(id).after_stop(id) == state.after_stop(id),
        state.after_stop(id).metrics == state.metrics,
{
    assert(state.after_stop(id).jobs.remove(id) =~= state.after_stop(id).jobs);
}

} // verus!
