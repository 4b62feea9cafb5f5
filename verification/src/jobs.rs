//! The table of jobs.

use dashmap::DashMap;
use vstd::prelude::*;

use crate::models::{JobModel, JobStatusResponse};

verus! {

/// How many jobs may be active at a time.
pub const MAX_ACTIVE_JOBS: usize = 5;

/// The concurrent map of `dashmap`.
#[verifier::external_type_specification]
#[verifier::external_body]
#[verifier::reject_recursive_types(K)]
#[verifier::reject_recursive_types(V)]
#[verifier::reject_recursive_types(S)]
pub struct ExDashMap<K, V, S>(dashmap::DashMap<K, V, S>);

/// The jobs by their identifiers.
pub type Jobs = Map<Seq<char>, JobModel>;

/// What a table holds: a job for each of its keys.
pub uninterp spec fn job_table(table: DashMap<String, JobStatusResponse>) -> Jobs;

/// Calls `DashMap::new`. Claims that the new table holds nothing.
#[verifier::external_body]
fn dashmap_new() -> (res: DashMap<String, JobStatusResponse>)
    ensures
        job_table(res) == Jobs::empty(),
{
    DashMap::new()
}

/// Calls `DashMap::insert`. Claims that the key then leads to the job, whatever it led to
/// before, and that nothing else changes. The job that was there before is dropped. The
/// table is borrowed exclusively, so that what it holds changes only in such calls.
#[verifier::external_body]
fn dashmap_insert(
    table: &mut DashMap<String, JobStatusResponse>,
    key: String,
    job: JobStatusResponse,
)
    ensures
        job_table(*final(table)) == job_table(*old(table)).insert(key@, job@),
{
    let _ = table.insert(key, job);
}

/// Calls `DashMap::remove`. Claims that the key is then gone and that nothing else changes.
/// The entry that was there is dropped.
#[verifier::external_body]
fn dashmap_remove(table: &mut DashMap<String, JobStatusResponse>, key: &str)
    ensures
        job_table(*final(table)) == job_table(*old(table)).remove(key@),
{
    let _ = table.remove(key);
}

/// Calls `DashMap::get` and copies the job. Claims that there is one exactly if the table
/// holds the key, and that it is the job under that key.
#[verifier::external_body]
fn dashmap_get(table: &DashMap<String, JobStatusResponse>, key: &str) -> (res: Option<
    JobStatusResponse,
>)
    ensures
        match res {
            Some(job) => job_table(*table).contains_key(key@) && job@ == job_table(*table)[key@],
            None => !job_table(*table).contains_key(key@),
        },
{
    table.get(key).map(|entry| entry.value().clone())
}

/// Calls `DashMap::get_mut` and overwrites the job if there is one. Claims that the key
/// then leads to the given job if the table holds the key, and that nothing else changes.
#[verifier::external_body]
fn dashmap_get_mut(
    table: &mut DashMap<String, JobStatusResponse>,
    key: &str,
    job: JobStatusResponse,
)
    ensures
        job_table(*final(table)) == if job_table(*old(table)).contains_key(key@) {
            job_table(*old(table)).insert(key@, job@)
        } else {
            job_table(*old(table))
        },
{
    if let Some(mut entry) = DashMap::get_mut(table, key) {
        *entry.value_mut() = job;
    }
}

/// Calls `DashMap::iter` and copies each key with its job. Claims that every key of the
/// table occurs once, with its job, and no other key does; the order is left open.
#[verifier::external_body]
fn dashmap_iter(table: &DashMap<String, JobStatusResponse>) -> (res: Vec<
    (String, JobStatusResponse),
>)
    ensures
        lists(res@, job_table(*table)),
{
    table.iter().map(|entry| (entry.key().clone(), entry.value().clone())).collect()
}

/// The keys of the jobs that are active.
pub open spec fn active_jobs(jobs: Jobs) -> Set<Seq<char>> {
    jobs.dom().filter(|id: Seq<char>| jobs[id].status.is_active())
}

/// Every job stands under its own identifier and is well formed, and no more than
/// `MAX_ACTIVE_JOBS` are active.
pub open spec fn jobs_wf(jobs: Jobs) -> bool {
    &&& jobs.dom().finite()
    &&& forall|id: Seq<char>| #[trigger]
        jobs.contains_key(id) ==> jobs[id].job_id == id && jobs[id].wf()
    &&& active_jobs(jobs).len() <= MAX_ACTIVE_JOBS
}

/// A table of jobs by identifier.
pub struct JobTable {
    table: DashMap<String, JobStatusResponse>,
}

impl View for JobTable {
    type V = Jobs;

    closed spec fn view(&self) -> Jobs {
        job_table(self.table)
    }
}

impl JobTable {
    /// A table without jobs.
    pub fn new() -> (res: JobTable)
        ensures
            res@ == Jobs::empty(),
    {
        JobTable { table: dashmap_new() }
    }

    /// The job with the given identifier.
    pub fn get(&self, id: &str) -> (res: Option<JobStatusResponse>)
        ensures
            match res {
                Some(job) => self@.contains_key(id@) && job@ == self@[id@],
                None => !self@.contains_key(id@),
            },
    {
        dashmap_get(&self.table, id)
    }

    /// Puts a job under an identifier.
    pub fn insert(&mut self, id: String, job: JobStatusResponse)
        ensures
            final(self)@ == old(self)@.insert(id@, job@),
    {
        dashmap_insert(&mut self.table, id, job);
    }

    /// Replaces the job under an identifier, if there is one.
    pub fn update(&mut self, id: &str, job: JobStatusResponse)
        ensures
            final(self)@ == if old(self)@.contains_key(id@) {
                old(self)@.insert(id@, job@)
            } else {
                old(self)@
            },
    {
        dashmap_get_mut(&mut self.table, id, job);
    }

    /// Takes out the job under an identifier, if there is one.
    pub fn remove(&mut self, id: &str)
        ensures
            final(self)@ == old(self)@.remove(id@),
    {
        dashmap_remove(&mut self.table, id);
    }

    /// All jobs, each once, with the identifier under which it stands.
    pub fn entries(&self) -> (res: Vec<(String, JobStatusResponse)>)
        ensures
            lists(res@, self@),
    {
        dashmap_iter(&self.table)
    }
}

/// `entries` holds every identifier of `jobs` once, with its job, and nothing else.
pub open spec fn lists(entries: Seq<(String, JobStatusResponse)>, jobs: Jobs) -> bool {
    &&& forall|i: int, j: int| 0 <= i < j < entries.len() ==> entries[i].0@ != entries[j].0@
    &&& forall|i: int|
        0 <= i < entries.len() ==> {
            &&& jobs.contains_key((#[trigger] entries[i]).0@)
            &&& jobs[entries[i].0@] == entries[i].1@
        }
    &&& forall|id: Seq<char>| #[trigger]
        jobs.contains_key(id) ==> exists|i: int|
            0 <= i < entries.len() && (#[trigger] entries[i]).0@ == id
}

/// The jobs of the service, and how long a suffix may be for each way of asking.
pub struct AppState {
    pub jobs: JobTable,
    pub max_suffix_len_sync: usize,
    pub max_suffix_len_async: usize,
}

impl AppState {
    /// A service without jobs.
    pub fn new() -> (res: AppState)
        ensures
            res.jobs@ == Jobs::empty(),
            res.max_suffix_len_sync == 4,
            res.max_suffix_len_async == 7,
            jobs_wf(res.jobs@),
    {
        assert(active_jobs(Jobs::empty()) =~= Set::empty());
        AppState { jobs: JobTable::new(), max_suffix_len_sync: 4, max_suffix_len_async: 7 }
    }

    /// How many jobs are active.
    pub fn active_job_count(&self) -> (res: usize)
        ensures
            active_jobs(self.jobs@).finite(),
            res == active_jobs(self.jobs@).len(),
    {
        let entries = self.jobs.entries();
        let mut count: usize = 0;
        let ghost mut seen: Set<Seq<char>> = Set::empty();
        for i in 0..entries.len()
            invariant
                lists(entries@, self.jobs@),
                seen.finite(),
                seen.len() == count,
                count <= i,
                forall|id: Seq<char>| #[trigger]
                    seen.contains(id) <==> exists|k: int|
                        0 <= k < i && (#[trigger] entries@[k]).0@ == id
                            && entries@[k].1@.status.is_active(),
        {
            if entries[i].1.status.active() {
                count += 1;
                proof {
                    seen = seen.insert(entries@[i as int].0@);
                }
            }
        }
        assert(seen =~= active_jobs(self.jobs@));
        count
    }
}

} // verus!
