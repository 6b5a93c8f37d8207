//! The job registry: every job by identifier, and the handle of the process
//! converting each job that is converting. One lock guards the whole of it;
//! each operation here is one critical section.

use vstd::prelude::*;
use std::collections::HashMap;
use crate::gpu::opt_text;
use crate::job::{job_file, job_id_text, output_path, parse_job_id, permanent_path, uuid_parsed, uuid_text, ConversionJob, JobState};
use crate::text::same_text;

verus! {

broadcast use vstd::std_specs::hash::group_hash_axioms;

/// Why a download is refused.
#[derive(Debug, PartialEq, Eq)]
pub enum DownloadError {
    JobNotFound,
    /// No conversion was ever accepted for the job.
    IncompleteHandshake,
    InvalidToken,
    FilesystemError(String),
}

/// Why keeping a job's source is refused.
#[derive(Debug, PartialEq, Eq)]
pub enum KeepError {
    JobNotFound,
    InvalidToken,
    NotErrored,
    FilesystemError(String),
}

impl DownloadError {
    /// The text shown to the client.
    pub open spec fn text(&self) -> Seq<char> {
        match self {
            DownloadError::JobNotFound => "job not found"@,
            DownloadError::IncompleteHandshake => "incomplete websocket handshake"@,
            DownloadError::InvalidToken => "invalid token"@,
            DownloadError::FilesystemError(e) => "filesystem error: "@ + e@,
        }
    }

    pub fn message(&self) -> (r: String)
        ensures
            r@ == self.text(),
    {
        match self {
            DownloadError::JobNotFound => String::from_str("job not found"),
            DownloadError::IncompleteHandshake => String::from_str("incomplete websocket handshake"),
            DownloadError::InvalidToken => String::from_str("invalid token"),
            DownloadError::FilesystemError(e) => String::from_str("filesystem error: ").concat(e.as_str()),
        }
    }
}

impl KeepError {
    /// The text shown to the client.
    pub open spec fn text(&self) -> Seq<char> {
        match self {
            KeepError::JobNotFound => "job not found"@,
            KeepError::InvalidToken => "invalid token"@,
            KeepError::NotErrored => "job is not in an error state"@,
            KeepError::FilesystemError(e) => "filesystem error: "@ + e@,
        }
    }

    pub fn message(&self) -> (r: String)
        ensures
            r@ == self.text(),
    {
        match self {
            KeepError::JobNotFound => String::from_str("job not found"),
            KeepError::InvalidToken => String::from_str("invalid token"),
            KeepError::NotErrored => String::from_str("job is not in an error state"),
            KeepError::FilesystemError(e) => String::from_str("filesystem error: ").concat(e.as_str()),
        }
    }
}

/// What to move when a failed job's source is kept.
pub struct KeepPlan {
    pub id: u128,
    pub from: String,
    /// The source's current place.
    pub current_path: String,
    /// Its place in permanent storage.
    pub permanent_path: String,
}

/// The outcome of a download request against the jobs `m`: the path to serve,
/// or the refusal.
pub open spec fn download_result(m: Map<u128, ConversionJob>, id: u128, token: Seq<char>) -> Result<
    Seq<char>,
    DownloadError,
> {
    if !m.contains_key(id) {
        Err(DownloadError::JobNotFound)
    } else if m[id].auth@ != token {
        Err(DownloadError::InvalidToken)
    } else {
        match m[id].to {
            Some(to) => Ok(job_file("output"@, id, to@)),
            None => Err(DownloadError::IncompleteHandshake),
        }
    }
}

/// The jobs after a download request: a served job's entry is gone.
pub open spec fn jobs_after_download(m: Map<u128, ConversionJob>, id: u128, token: Seq<char>) -> Map<
    u128,
    ConversionJob,
> {
    if download_result(m, id, token) is Ok {
        m.remove(id)
    } else {
        m
    }
}

/// The outcome of a keep request against the jobs `m`.
pub open spec fn keep_result(m: Map<u128, ConversionJob>, id: u128, token: Seq<char>) -> Result<
    (),
    KeepError,
> {
    if !m.contains_key(id) {
        Err(KeepError::JobNotFound)
    } else if m[id].state != JobState::Failed {
        Err(KeepError::NotErrored)
    } else if m[id].auth@ != token {
        Err(KeepError::InvalidToken)
    } else {
        Ok(())
    }
}

/// Whether a token opens the permanent store: it equals the configured
/// administrator password, which is neither empty nor the placeholder
/// `supersecret`.
pub open spec fn admin_allowed_spec(password: Option<Seq<char>>, token: Seq<char>) -> bool {
    match password {
        Some(p) => p == token && p.len() > 0 && p != "supersecret"@,
        None => false,
    }
}

pub fn admin_allowed(password: Option<&str>, token: &str) -> (r: bool)
    ensures
        r == admin_allowed_spec(crate::gpu::opt_text(password), token@),
{
    match password {
        Some(p) => same_text(p, token) && p.unicode_len() > 0 && !same_text(p, "supersecret"),
        None => false,
    }
}

/// The media type that `mime_guess` guesses from a path's extension, as text.
pub uninterp spec fn mime_of_path(path: Seq<char>) -> Seq<char>;

/// Relies on `mime_guess::from_path` and `MimeGuess::first_or_octet_stream`:
/// the first media type known for the path's extension, else
/// `application/octet-stream`; the guess depends on the path alone.
#[verifier::external_body]
fn guess_mime(path: &str) -> (r: String)
    ensures
        r@ == mime_of_path(path@),
{
    mime_guess::from_path(path).first_or_octet_stream().to_string()
}

/// A file to serve for a download.
pub struct DownloadPlan {
    pub path: String,
    pub content_type: String,
}

/// The link to a kept source in permanent storage, opened with the
/// administrator password: `<public_url>/api/download/<id>.<from>/<password>`.
pub open spec fn permanent_link_spec(public_url: Seq<char>, id: u128, from: Seq<char>, password: Seq<char>) -> Seq<
    char,
> {
    public_url + "/api/download/"@ + uuid_text(id) + seq!['.'] + from + seq!['/'] + password
}

pub fn permanent_link(public_url: &str, id: u128, from: &str, password: &str) -> (r: String)
    ensures
        r@ == permanent_link_spec(public_url@, id, from@, password@),
{
    proof {
        reveal_strlit(".");
        reveal_strlit("/");
    }
    let r = String::from_str(public_url).concat("/api/download/").concat(job_id_text(id).as_str()).concat(
        ".",
    ).concat(from).concat("/").concat(password);
    assert(r@ =~= permanent_link_spec(public_url@, id, from@, password@));
    r
}

/// The registry of jobs and of the processes converting them.
pub struct AppState<P> {
    jobs: HashMap<u128, ConversionJob>,
    active_processes: HashMap<u128, P>,
}

impl<P> AppState<P> {
    pub closed spec fn jobs(&self) -> Map<u128, ConversionJob> {
        self.jobs@
    }

    pub closed spec fn processes(&self) -> Map<u128, P> {
        self.active_processes@
    }

    /// Every job is stored under its own identifier.
    pub open spec fn wf(&self) -> bool {
        forall|k: u128| #[trigger] self.jobs().contains_key(k) ==> self.jobs()[k].id == k
    }

    /// An empty registry.
    pub fn default() -> (r: Self)
        ensures
            r.jobs() == Map::<u128, ConversionJob>::empty(),
            r.processes() == Map::<u128, P>::empty(),
            r.wf(),
    {
        AppState { jobs: HashMap::new(), active_processes: HashMap::new() }
    }

    /// Adds a job under its identifier, unless a job with that identifier is
    /// already present: identifiers stay unique, and a refused job is handed
    /// back.
    pub fn insert(&mut self, job: ConversionJob) -> (r: Result<(), ConversionJob>)
        ensures
            old(self).wf() ==> final(self).wf(),
            (r is Ok) == !old(self).jobs().contains_key(job.id),
            r is Ok ==> final(self).jobs() == old(self).jobs().insert(job.id, job),
            r is Err ==> r->Err_0 == job && final(self).jobs() == old(self).jobs(),
            final(self).processes() == old(self).processes(),
    {
        if self.jobs.contains_key(&job.id) {
            return Err(job);
        }
        let id = job.id;
        self.jobs.insert(id, job);
        Ok(())
    }

    /// A copy of the job with identifier `id`.
    pub fn get(&self, id: u128) -> (r: Option<ConversionJob>)
        ensures
            r == (if self.jobs().contains_key(id) { Some(self.jobs()[id]) } else { None::<ConversionJob> }),
    {
        match self.jobs.get(&id) {
            Some(j) => Some(j.snapshot()),
            None => None,
        }
    }

    /// Removes the job with identifier `id`, returning it.
    pub fn remove(&mut self, id: u128) -> (r: Option<ConversionJob>)
        ensures
            old(self).wf() ==> final(self).wf(),
            final(self).jobs() == old(self).jobs().remove(id),
            final(self).processes() == old(self).processes(),
            r == (if old(self).jobs().contains_key(id) { Some(old(self).jobs()[id]) } else { None::<ConversionJob> }),
    {
        self.jobs.remove(&id)
    }

    /// Replaces the record of a job that is present; does nothing otherwise.
    pub fn update(&mut self, job: ConversionJob)
        ensures
            old(self).wf() ==> final(self).wf(),
            final(self).jobs() == (if old(self).jobs().contains_key(job.id) {
                old(self).jobs().insert(job.id, job)
            } else {
                old(self).jobs()
            }),
            final(self).processes() == old(self).processes(),
    {
        if self.jobs.contains_key(&job.id) {
            let id = job.id;
            self.jobs.insert(id, job);
        }
    }

    /// Sets the state of a job that is present.
    pub fn set_state(&mut self, id: u128, state: JobState)
        ensures
            old(self).wf() ==> final(self).wf(),
            final(self).jobs() == (if old(self).jobs().contains_key(id) {
                old(self).jobs().insert(id, ConversionJob { state, ..old(self).jobs()[id] })
            } else {
                old(self).jobs()
            }),
            final(self).processes() == old(self).processes(),
    {
        match self.jobs.get(&id) {
            Some(j) => {
                let mut k = j.snapshot();
                k.state = state;
                self.jobs.insert(id, k);
            },
            None => {},
        }
    }

    /// Records the target of the conversion accepted for job `id` and marks
    /// the job converting.
    pub fn begin_conversion(&mut self, id: u128, to: String)
        ensures
            old(self).wf() ==> final(self).wf(),
            final(self).jobs() == (if old(self).jobs().contains_key(id) {
                old(self).jobs().insert(id, ConversionJob { to: Some(to), state: JobState::Converting, ..old(self).jobs()[id] })
            } else {
                old(self).jobs()
            }),
            final(self).processes() == old(self).processes(),
    {
        match self.jobs.get(&id) {
            Some(j) => {
                let mut k = j.snapshot();
                k.to = Some(to);
                k.state = JobState::Converting;
                self.jobs.insert(id, k);
            },
            None => {},
        }
    }

    /// Records the handle of the process converting job `id`.
    pub fn set_active_process(&mut self, id: u128, process: P)
        ensures
            old(self).wf() ==> final(self).wf(),
            final(self).processes() == old(self).processes().insert(id, process),
            final(self).jobs() == old(self).jobs(),
    {
        self.active_processes.insert(id, process);
    }

    /// Removes and returns the handle of the process converting job `id`, so
    /// that only one of cancellation and completion ever holds it.
    pub fn take_active_process(&mut self, id: u128) -> (r: Option<P>)
        ensures
            old(self).wf() ==> final(self).wf(),
            final(self).processes() == old(self).processes().remove(id),
            final(self).jobs() == old(self).jobs(),
            r == (if old(self).processes().contains_key(id) { Some(old(self).processes()[id]) } else { None::<P> }),
    {
        self.active_processes.remove(&id)
    }

    /// The source bitrate probed earlier for job `id`.
    pub fn cached_bitrate(&self, id: u128) -> (r: Option<u64>)
        ensures
            r == (if self.jobs().contains_key(id) { self.jobs()[id].bitrate } else { None::<u64> }),
    {
        match self.jobs.get(&id) {
            Some(j) => j.bitrate,
            None => None,
        }
    }

    /// The frame count probed earlier for job `id`.
    pub fn cached_total_frames(&self, id: u128) -> (r: Option<u64>)
        ensures
            r == (if self.jobs().contains_key(id) { self.jobs()[id].total_frames } else { None::<u64> }),
    {
        match self.jobs.get(&id) {
            Some(j) => j.total_frames,
            None => None,
        }
    }

    /// Remembers the probed source bitrate of job `id`; a bitrate once
    /// recorded is kept.
    pub fn record_bitrate(&mut self, id: u128, bitrate: u64)
        ensures
            old(self).wf() ==> final(self).wf(),
            final(self).jobs() == (if old(self).jobs().contains_key(id) && old(self).jobs()[id].bitrate is None {
                old(self).jobs().insert(id, ConversionJob { bitrate: Some(bitrate), ..old(self).jobs()[id] })
            } else {
                old(self).jobs()
            }),
            final(self).processes() == old(self).processes(),
    {
        match self.jobs.get(&id) {
            Some(j) => if j.bitrate.is_none() {
                let mut k = j.snapshot();
                k.bitrate = Some(bitrate);
                self.jobs.insert(id, k);
            },
            None => {},
        }
    }

    /// Remembers the probed frame count of job `id`; a count once recorded
    /// is kept.
    pub fn record_total_frames(&mut self, id: u128, frames: u64)
        ensures
            old(self).wf() ==> final(self).wf(),
            final(self).jobs() == (if old(self).jobs().contains_key(id) && old(self).jobs()[id].total_frames is None {
                old(self).jobs().insert(id, ConversionJob { total_frames: Some(frames), ..old(self).jobs()[id] })
            } else {
                old(self).jobs()
            }),
            final(self).processes() == old(self).processes(),
    {
        match self.jobs.get(&id) {
            Some(j) => if j.total_frames.is_none() {
                let mut k = j.snapshot();
                k.total_frames = Some(frames);
                self.jobs.insert(id, k);
            },
            None => {},
        }
    }

    /// Serves a download of job `id`'s output: checks the token and that a
    /// conversion was accepted, and removes the job's entry, so that the
    /// link serves once. Returns the output's path.
    pub fn download(&mut self, id: u128, token: &str) -> (r: Result<String, DownloadError>)
        ensures
            old(self).wf() ==> final(self).wf(),
            match download_result(old(self).jobs(), id, token@) {
                Ok(p) => r is Ok && r->Ok_0@ == p,
                Err(e) => r == Err::<String, DownloadError>(e),
            },
            final(self).jobs() == jobs_after_download(old(self).jobs(), id, token@),
            final(self).processes() == old(self).processes(),
    {
        let path = match self.jobs.get(&id) {
            None => return Err(DownloadError::JobNotFound),
            Some(j) => {
                if !same_text(j.auth.as_str(), token) {
                    return Err(DownloadError::InvalidToken);
                }
                match &j.to {
                    Some(to) => output_path(id, to.as_str()),
                    None => return Err(DownloadError::IncompleteHandshake),
                }
            },
        };
        self.jobs.remove(&id);
        Ok(path)
    }

    /// Decides a download request for the job whose identifier is the text
    /// `id`. A token equal to the administrator password (see
    /// `admin_allowed`) reads `permanent/<id>` and leaves the registry alone.
    /// Otherwise the text must denote a job identifier and the request is
    /// `download`'s. The content type is guessed from the path.
    pub fn plan_download(&mut self, id: &str, token: &str, admin_password: Option<&str>) -> (r: Result<
        DownloadPlan,
        DownloadError,
    >)
        ensures
            old(self).wf() ==> final(self).wf(),
            final(self).processes() == old(self).processes(),
            r is Ok ==> r->Ok_0.content_type@ == mime_of_path(r->Ok_0.path@),
            if admin_allowed_spec(opt_text(admin_password), token@) {
                r is Ok && r->Ok_0.path@ == "permanent/"@ + id@ && final(self).jobs() == old(self).jobs()
            } else {
                match uuid_parsed(id@) {
                    None => r == Err::<DownloadPlan, DownloadError>(DownloadError::JobNotFound)
                        && final(self).jobs() == old(self).jobs(),
                    Some(n) => {
                        &&& final(self).jobs() == jobs_after_download(old(self).jobs(), n, token@)
                        &&& match download_result(old(self).jobs(), n, token@) {
                            Ok(p) => r is Ok && r->Ok_0.path@ == p,
                            Err(e) => r == Err::<DownloadPlan, DownloadError>(e),
                        }
                    },
                }
            },
    {
        let path = if admin_allowed(admin_password, token) {
            String::from_str("permanent/").concat(id)
        } else {
            let n = match parse_job_id(id) {
                Some(n) => n,
                None => return Err(DownloadError::JobNotFound),
            };
            match self.download(n, token) {
                Ok(p) => p,
                Err(e) => return Err(e),
            }
        };
        let content_type = guess_mime(path.as_str());
        Ok(DownloadPlan { path, content_type })
    }

    /// Checks a request to keep job `id`'s source: the job must have failed
    /// and the token must match. Changes nothing; on success says what to
    /// move where.
    pub fn keep(&self, id: u128, token: &str) -> (r: Result<KeepPlan, KeepError>)
        ensures
            match keep_result(self.jobs(), id, token@) {
                Ok(_) => r is Ok && r->Ok_0.id == id && r->Ok_0.from@ == self.jobs()[id].from@
                    && r->Ok_0.current_path@ == job_file("input"@, id, self.jobs()[id].from@)
                    && r->Ok_0.permanent_path@ == job_file("permanent"@, id, self.jobs()[id].from@),
                Err(e) => r == Err::<KeepPlan, KeepError>(e),
            },
    {
        match self.jobs.get(&id) {
            None => Err(KeepError::JobNotFound),
            Some(j) => {
                if j.state != JobState::Failed {
                    return Err(KeepError::NotErrored);
                }
                if !same_text(j.auth.as_str(), token) {
                    return Err(KeepError::InvalidToken);
                }
                Ok(KeepPlan {
                    id,
                    from: j.from.clone(),
                    current_path: crate::job::input_path(id, j.from.as_str()),
                    permanent_path: permanent_path(id, j.from.as_str()),
                })
            },
        }
    }
}

/// A download link serves once: after a download succeeds, another request
/// for the same job, with any token, finds no job.
pub proof fn download_single_use(m: Map<u128, ConversionJob>, id: u128, token: Seq<char>, again: Seq<char>)
    requires
        download_result(m, id, token) is Ok,
    ensures
        download_result(jobs_after_download(m, id, token), id, again) == Err::<Seq<char>, DownloadError>(
            DownloadError::JobNotFound,
        ),
{
}

/// Keeping succeeds only for a failed job: an unknown job gives
/// `JobNotFound`, a job in any other state `NotErrored`.
pub proof fn keep_only_failed(m: Map<u128, ConversionJob>, id: u128, token: Seq<char>)
    ensures
        keep_result(m, id, token) is Ok ==> m.contains_key(id) && m[id].state == JobState::Failed,
        !m.contains_key(id) ==> keep_result(m, id, token) == Err::<(), KeepError>(KeepError::JobNotFound),
        m.contains_key(id) && m[id].state != JobState::Failed ==> keep_result(m, id, token) == Err::<
            (),
            KeepError,
        >(KeepError::NotErrored),
{
}

} // verus!
