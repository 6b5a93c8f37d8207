//! The control protocol of one client connection. A connection starts a job,
//! then relays its progress and listens for a cancellation until the job
//! resolves. Each method is one decision: the caller performs what it asks
//! (spawning, killing, sending, deleting) and reports back what happened.

use vstd::prelude::*;
use crate::format::{format_named, Conversion, ConversionError, ConverterFormat};
use crate::job::{input_path, job_file, ConversionJob, JobState, ProgressEvent};
use crate::retention::{add_secs, RetentionScheduler, INPUT_GRACE_SECS, OUTPUT_LIFETIME_SECS};
use crate::speed::ConversionSpeed;
use crate::state::AppState;
use crate::text::same_text;

verus! {

/// Whether a start request keeps the source's metadata when the client does
/// not say.
pub fn default_keep_metadata() -> (r: bool)
    ensures
        r,
{
    true
}

/// A progress sample relayed to the client.
#[derive(Debug, PartialEq)]
pub enum ProgressUpdate {
    Frame(u64),
    /// Frames per second, as the encoder printed it.
    FPS(String),
}

/// A message of the control protocol, in either direction.
#[derive(Debug, PartialEq)]
pub enum Message {
    StartJob { token: String, job_id: u128, to: String, speed: ConversionSpeed, keep_metadata: bool },
    CancelJob { token: String, job_id: u128 },
    JobFinished { job_id: u128 },
    JobCancelled { job_id: u128 },
    ProgressUpdate(ProgressUpdate),
    Error { message: String },
}

pub open spec fn unsupported_message() -> Seq<char> {
    "failed to convert: "@ + "Encoding to RM/RMVB is not supported"@
}

/// The decision on a start request against the jobs `m`: the conversion to
/// run, or the error text sent back.
pub open spec fn start_outcome(m: Map<u128, ConversionJob>, token: Seq<char>, id: u128, to: Seq<char>) -> Result<
    Conversion,
    Seq<char>,
> {
    if !m.contains_key(id) {
        Err("job not found"@)
    } else if m[id].is_completed() {
        Err("job already completed"@)
    } else if m[id].auth@ != token {
        Err("invalid token"@)
    } else {
        match format_named(m[id].from@) {
            None => Err("invalid input format"@),
            Some(f) => match format_named(to) {
                None => Err("invalid output format"@),
                Some(t) => if !t.is_supported_target() {
                    Err(unsupported_message())
                } else {
                    Ok(Conversion { from: f, to: t })
                },
            },
        }
    }
}

/// `n` is job `o` once a conversion to `to` has been accepted.
pub open spec fn started(o: ConversionJob, n: ConversionJob, to: Seq<char>) -> bool {
    &&& n.id == o.id
    &&& n.auth == o.auth
    &&& n.from == o.from
    &&& n.to is Some
    &&& n.to->0@ == to
    &&& n.state == JobState::Converting
    &&& n.bitrate == o.bitrate
    &&& n.total_frames == o.total_frames
}

/// Joins lines with line feeds.
pub open spec fn join_lines(lines: Seq<Seq<char>>) -> Seq<char>
    decreases lines.len(),
{
    if lines.len() == 0 {
        seq![]
    } else if lines.len() == 1 {
        lines[0]
    } else {
        join_lines(lines.drop_last()) + seq!['\n'] + lines.last()
    }
}

/// The text of the error sent when a conversion fails.
pub open spec fn failure_text(logs: Seq<Seq<char>>) -> Seq<char> {
    if logs.len() == 0 {
        "No error logs."@
    } else {
        join_lines(logs)
    }
}

/// How a conversion that ran to its end turned out.
#[derive(Clone, Copy, Debug, PartialEq, Eq, Structural)]
pub enum Outcome {
    Completed,
    Failed,
}

/// A conversion succeeded only if its output exists and is not empty,
/// whatever the encoder's exit status.
pub open spec fn outcome_of(output_len: Option<u64>) -> Outcome {
    match output_len {
        Some(n) => if n > 0 {
            Outcome::Completed
        } else {
            Outcome::Failed
        },
        None => Outcome::Failed,
    }
}

/// Classifies a finished conversion by the length of its output file
/// (`None` when there is no such file).
pub fn classify_outcome(output_len: Option<u64>) -> (r: Outcome)
    ensures
        r == outcome_of(output_len),
        output_len is None || output_len == Some(0u64) ==> r == Outcome::Failed,
{
    match output_len {
        Some(n) => if n > 0 {
            Outcome::Completed
        } else {
            Outcome::Failed
        },
        None => Outcome::Failed,
    }
}

/// What the caller needs to start the conversion of an accepted job.
pub struct StartPlan {
    pub job_id: u128,
    pub conversion: Conversion,
    /// The source format's name, as uploaded.
    pub from: String,
    /// The target format's name, as requested.
    pub to: String,
}

/// The outcome of a cancellation request.
pub enum CancelOutcome<P> {
    /// The job is cancelled: kill `process` if there is one, send `reply`,
    /// and delete the source at `input_path`.
    Cancelled { process: Option<P>, reply: Message, input_path: String },
    /// The request does not name the running job: send `reply`; the job runs on.
    Rejected { reply: Message },
}

/// A report of a failed conversion for the operators.
pub struct FailureReport {
    pub job_id: u128,
    pub from: String,
    pub to: String,
    pub logs: String,
}

/// What follows the natural end of a conversion.
pub struct Resolution<P> {
    pub outcome: Outcome,
    /// The message for the client.
    pub reply: Message,
    /// The report to send on failure.
    pub failure: Option<FailureReport>,
    /// The finished process's handle, if the registry still held it.
    pub process: Option<P>,
}

struct Running {
    job_id: u128,
    token: String,
    from: String,
    to: String,
    logs: Vec<String>,
}

/// One connection's view of the job it drives.
pub struct Session {
    running: Option<Running>,
}

fn join_texts(lines: &Vec<String>) -> (r: String)
    ensures
        r@ == join_lines(crate::text::text_views(lines@)),
{
    let ghost v = crate::text::text_views(lines@);
    let mut s = String::new();
    let mut i: usize = 0;
    while i < lines.len()
        invariant
            v == crate::text::text_views(lines@),
            i <= lines.len(),
            s@ == join_lines(v.subrange(0, i as int)),
        decreases lines.len() - i,
    {
        assert(v.subrange(0, i + 1).drop_last() =~= v.subrange(0, i as int));
        proof {
            reveal_strlit("\n");
        }
        if i > 0 {
            s.append("\n");
        }
        s.append(lines[i].as_str());
        proof {
            if i == 0 {
                assert(s@ =~= v.subrange(0, 1)[0]);
            } else {
                assert(s@ =~= join_lines(v.subrange(0, i as int)) + seq!['\n'] + v[i as int]);
            }
        }
        i = i + 1;
    }
    assert(v.subrange(0, i as int) =~= v);
    s
}

impl Session {
    /// The job this connection is converting, if any.
    pub closed spec fn active_job(&self) -> Option<u128> {
        match self.running {
            Some(r) => Some(r.job_id),
            None => None,
        }
    }

    /// The token of the start request of the running job.
    pub closed spec fn active_token(&self) -> Seq<char> {
        self.running->0.token@
    }

    pub closed spec fn active_from(&self) -> Seq<char> {
        self.running->0.from@
    }

    pub closed spec fn active_to(&self) -> Seq<char> {
        self.running->0.to@
    }

    /// The diagnostic lines gathered from the running conversion.
    pub closed spec fn logs(&self) -> Seq<Seq<char>> {
        crate::text::text_views(self.running->0.logs@)
    }

    pub fn new() -> (r: Self)
        ensures
            r.active_job() is None,
    {
        Session { running: None }
    }

    pub fn is_idle(&self) -> (r: bool)
        ensures
            r == (self.active_job() is None),
    {
        self.running.is_none()
    }

    /// Whether the connection acts on `msg` now: a start request while no
    /// job runs, a cancellation while one does. Anything else is ignored.
    pub fn accepts(&self, msg: &Message) -> (r: bool)
        ensures
            r == ((msg is StartJob && self.active_job() is None) || (msg is CancelJob && self.active_job() is Some)),
    {
        match msg {
            Message::StartJob { .. } => self.running.is_none(),
            Message::CancelJob { .. } => self.running.is_some(),
            _ => false,
        }
    }

    /// Decides a start request. It is accepted only for a known job that no
    /// conversion was accepted for, with the job's token, a known source
    /// format and a target format that some encoder writes. Then the target
    /// is recorded, the job is converting, and so is the connection.
    /// Otherwise nothing changes and the error text is returned.
    pub fn start_job<P>(&mut self, state: &mut AppState<P>, token: &str, job_id: u128, to: &str) -> (r: Result<StartPlan, String>)
        requires
            old(self).active_job() is None,
        ensures
            old(state).wf() ==> final(state).wf(),
            final(state).processes() == old(state).processes(),
            match start_outcome(old(state).jobs(), token@, job_id, to@) {
                Ok(c) => {
                    &&& r is Ok
                    &&& r->Ok_0.job_id == job_id
                    &&& r->Ok_0.conversion == c
                    &&& r->Ok_0.from@ == old(state).jobs()[job_id].from@
                    &&& r->Ok_0.to@ == to@
                    &&& final(state).jobs() == old(state).jobs().insert(job_id, final(state).jobs()[job_id])
                    &&& started(old(state).jobs()[job_id], final(state).jobs()[job_id], to@)
                    &&& final(self).active_job() == Some(job_id)
                    &&& final(self).active_token() == token@
                    &&& final(self).active_from() == old(state).jobs()[job_id].from@
                    &&& final(self).active_to() == to@
                    &&& final(self).logs() == Seq::<Seq<char>>::empty()
                },
                Err(msg) => {
                    &&& r is Err
                    &&& r->Err_0@ == msg
                    &&& final(state).jobs() == old(state).jobs()
                    &&& final(self).active_job() is None
                },
            },
    {
        let job = match state.get(job_id) {
            None => return Err(String::from_str("job not found")),
            Some(j) => j,
        };
        if job.completed() {
            return Err(String::from_str("job already completed"));
        }
        if !same_text(job.auth.as_str(), token) {
            return Err(String::from_str("invalid token"));
        }
        let from = match ConverterFormat::parse(job.from.as_str()) {
            None => return Err(String::from_str("invalid input format")),
            Some(f) => f,
        };
        let target = match ConverterFormat::parse(to) {
            None => return Err(String::from_str("invalid output format")),
            Some(t) => t,
        };
        if !target.supports_target() {
            let reason = ConversionError::UnsupportedTarget(target).message();
            return Err(String::from_str("failed to convert: ").concat(reason.as_str()));
        }
        let from_text = job.from.clone();
        state.begin_conversion(job_id, String::from_str(to));
        assert(state.jobs() =~= old(state).jobs().insert(job_id, state.jobs()[job_id]));
        let empty: Vec<String> = Vec::new();
        assert(crate::text::text_views(empty@) =~= Seq::<Seq<char>>::empty());
        self.running = Some(Running {
            job_id,
            token: String::from_str(token),
            from: from_text.clone(),
            to: String::from_str(to),
            logs: empty,
        });
        Ok(StartPlan { job_id, conversion: Conversion::new(from, target), from: from_text, to: String::from_str(to) })
    }

    /// The conversion of the running job could not be started: the job has
    /// failed and the connection is free again.
    pub fn start_failed<P>(&mut self, state: &mut AppState<P>, reason: &str) -> (r: Message)
        requires
            old(self).active_job() is Some,
        ensures
            old(state).wf() ==> final(state).wf(),
            ({
                let id = old(self).active_job()->0;
                &&& final(state).jobs() == (if old(state).jobs().contains_key(id) {
                    old(state).jobs().insert(id, ConversionJob { state: JobState::Failed, ..old(state).jobs()[id] })
                } else {
                    old(state).jobs()
                })
            }),
            final(state).processes() == old(state).processes(),
            final(self).active_job() is None,
            r is Error && r->Error_message@ == "failed to convert: "@ + reason@,
    {
        let run = self.running.take().unwrap();
        state.set_state(run.job_id, JobState::Failed);
        Message::Error { message: String::from_str("failed to convert: ").concat(reason) }
    }

    /// Relays one progress event of the running conversion: frame counts and
    /// rate samples go to the client, diagnostic lines are kept for a
    /// failure report.
    pub fn on_progress(&mut self, event: ProgressEvent) -> (r: Option<Message>)
        requires
            old(self).active_job() is Some,
        ensures
            final(self).active_job() == old(self).active_job(),
            final(self).active_token() == old(self).active_token(),
            final(self).active_from() == old(self).active_from(),
            final(self).active_to() == old(self).active_to(),
            match event {
                ProgressEvent::FrameCount(n) => r == Some(Message::ProgressUpdate(ProgressUpdate::Frame(n)))
                    && final(self).logs() == old(self).logs(),
                ProgressEvent::FpsSample(s) => r is Some && r->0 is ProgressUpdate
                    && r->0->ProgressUpdate_0 is FPS && r->0->ProgressUpdate_0->FPS_0@ == s@
                    && final(self).logs() == old(self).logs(),
                ProgressEvent::ErrorLine(l) => r is None && final(self).logs() == old(self).logs().push(l@),
            },
    {
        match event {
            ProgressEvent::FrameCount(n) => Some(Message::ProgressUpdate(ProgressUpdate::Frame(n))),
            ProgressEvent::FpsSample(s) => Some(Message::ProgressUpdate(ProgressUpdate::FPS(s))),
            ProgressEvent::ErrorLine(l) => {
                let mut run = self.running.take().unwrap();
                crate::text::push_string(&mut run.logs, l);
                self.running = Some(run);
                None
            },
        }
    }

    /// Decides a cancellation request while a job runs. One that names the
    /// running job with its start token cancels it: the process handle is
    /// taken from the registry to be killed, the job is marked completed and
    /// removed, the client is told, the source is to be deleted at once, and
    /// the connection is free; no other message follows for that job. Any
    /// other request is refused with an error and changes nothing.
    pub fn on_cancel<P>(&mut self, state: &mut AppState<P>, token: &str, job_id: u128) -> (r: CancelOutcome<P>)
        requires
            old(self).active_job() is Some,
        ensures
            old(state).wf() ==> final(state).wf(),
            if old(self).active_job() == Some(job_id) && old(self).active_token() == token@ {
                &&& r is Cancelled
                &&& r->Cancelled_process == (if old(state).processes().contains_key(job_id) {
                    Some(old(state).processes()[job_id])
                } else {
                    None::<P>
                })
                &&& r->Cancelled_reply == Message::JobCancelled { job_id }
                &&& r->Cancelled_input_path@ == job_file("input"@, job_id, old(self).active_from())
                &&& final(state).processes() == old(state).processes().remove(job_id)
                &&& final(state).jobs() == old(state).jobs().remove(job_id)
                &&& final(self).active_job() is None
            } else {
                &&& r is Rejected
                &&& r->Rejected_reply is Error
                &&& r->Rejected_reply->Error_message@ == "invalid token or job id for cancellation"@
                &&& final(state).processes() == old(state).processes()
                &&& final(state).jobs() == old(state).jobs()
                &&& *final(self) == *old(self)
            },
    {
        let matches = match &self.running {
            Some(run) => run.job_id == job_id && same_text(run.token.as_str(), token),
            None => false,
        };
        if !matches {
            return CancelOutcome::Rejected {
                reply: Message::Error { message: String::from_str("invalid token or job id for cancellation") },
            };
        }
        let run = self.running.take().unwrap();
        let process = state.take_active_process(job_id);
        state.set_state(job_id, JobState::Completed);
        state.remove(job_id);
        assert(final(state).jobs() =~= old(state).jobs().remove(job_id));
        CancelOutcome::Cancelled {
            process,
            reply: Message::JobCancelled { job_id },
            input_path: input_path(job_id, run.from.as_str()),
        }
    }

    /// Resolves the running job once its progress has ended, given the
    /// length of its output file at `now` (`None` if there is none). The job
    /// is marked completed, or failed if the output is missing or empty; the
    /// process handle is cleared; the client gets the finished message, or an
    /// error with the gathered diagnostics (and the operators a report); the
    /// source's deletion and the output's expiry are scheduled; and the
    /// connection is free.
    pub fn on_finished<P>(
        &mut self,
        state: &mut AppState<P>,
        scheduler: &mut RetentionScheduler,
        now: u64,
        output_len: Option<u64>,
    ) -> (r: Resolution<P>)
        requires
            old(self).active_job() is Some,
        ensures
            old(state).wf() ==> final(state).wf(),
            ({
                let id = old(self).active_job()->0;
                let marked = if outcome_of(output_len) == Outcome::Failed { JobState::Failed } else { JobState::Completed };
                &&& r.outcome == outcome_of(output_len)
                &&& final(state).jobs() == (if old(state).jobs().contains_key(id) {
                    old(state).jobs().insert(id, ConversionJob { state: marked, ..old(state).jobs()[id] })
                } else {
                    old(state).jobs()
                })
                &&& final(state).processes() == old(state).processes().remove(id)
                &&& r.process == (if old(state).processes().contains_key(id) {
                    Some(old(state).processes()[id])
                } else {
                    None::<P>
                })
                &&& (r.outcome == Outcome::Completed ==> r.reply == Message::JobFinished { job_id: id }
                    && r.failure is None)
                &&& (r.outcome == Outcome::Failed ==> {
                    &&& r.reply is Error
                    &&& r.reply->Error_message@ == failure_text(old(self).logs())
                    &&& r.failure is Some
                    &&& r.failure->0.job_id == id
                    &&& r.failure->0.from@ == old(self).active_from()
                    &&& r.failure->0.to@ == old(self).active_to()
                    &&& r.failure->0.logs@ == join_lines(old(self).logs())
                })
                &&& final(scheduler).pending().len() == old(scheduler).pending().len() + 2
                &&& final(scheduler).pending().subrange(0, old(scheduler).pending().len() as int)
                    == old(scheduler).pending()
                &&& ({
                    let d = final(scheduler).pending()[old(scheduler).pending().len() as int];
                    &&& d.due == add_secs(now, INPUT_GRACE_SECS)
                    &&& d.task is RemoveInput
                    &&& d.task->RemoveInput_id == id
                    &&& d.task->RemoveInput_path@ == job_file("input"@, id, old(self).active_from())
                })
                &&& ({
                    let d = final(scheduler).pending()[old(scheduler).pending().len() + 1int];
                    &&& d.due == add_secs(now, OUTPUT_LIFETIME_SECS)
                    &&& d.task is ExpireOutput
                    &&& d.task->ExpireOutput_id == id
                    &&& d.task->ExpireOutput_path@ == job_file("output"@, id, old(self).active_to())
                })
            }),
            final(self).active_job() is None,
    {
        let run = self.running.take().unwrap();
        let id = run.job_id;
        let outcome = classify_outcome(output_len);
        let process = state.take_active_process(id);
        state.set_state(id, JobState::Completed);
        if outcome == Outcome::Failed {
            state.set_state(id, JobState::Failed);
        }
        assert(state.jobs() =~= (if old(state).jobs().contains_key(id) {
            old(state).jobs().insert(id, ConversionJob {
                state: if outcome_of(output_len) == Outcome::Failed { JobState::Failed } else { JobState::Completed },
                ..old(state).jobs()[id]
            })
        } else {
            old(state).jobs()
        }));
        scheduler.schedule_resolution(now, id, run.from.as_str(), run.to.as_str());
        match outcome {
            Outcome::Completed => Resolution { outcome, reply: Message::JobFinished { job_id: id }, failure: None, process },
            Outcome::Failed => {
                let joined = join_texts(&run.logs);
                let text = if run.logs.len() == 0 {
                    String::from_str("No error logs.")
                } else {
                    joined.clone()
                };
                Resolution {
                    outcome,
                    reply: Message::Error { message: text },
                    failure: Some(FailureReport { job_id: id, from: run.from, to: run.to, logs: joined }),
                    process,
                }
            },
        }
    }
}

/// A job's conversion is accepted once: after a start request succeeds, any
/// later start request for the job is refused as already completed.
pub proof fn start_accepted_once(
    before: Map<u128, ConversionJob>,
    after: Map<u128, ConversionJob>,
    token: Seq<char>,
    id: u128,
    to: Seq<char>,
    token2: Seq<char>,
    to2: Seq<char>,
)
    requires
        start_outcome(before, token, id, to) is Ok,
        after == before.insert(id, after[id]),
        started(before[id], after[id], to),
    ensures
        start_outcome(after, token2, id, to2) == Err::<Conversion, Seq<char>>("job already completed"@),
{
}

/// A cancelled job is gone from the registry, so no later start request can
/// run it again: it is refused as not found.
pub proof fn cancelled_job_not_restarted(m: Map<u128, ConversionJob>, id: u128, token: Seq<char>, to: Seq<char>)
    ensures
        start_outcome(m.remove(id), token, id, to) == Err::<Conversion, Seq<char>>("job not found"@),
{
}

/// A start request for a job that is not freshly uploaded is refused as
/// already completed, before any other check.
pub proof fn start_refused_after_upload(m: Map<u128, ConversionJob>, token: Seq<char>, id: u128, to: Seq<char>)
    requires
        m.contains_key(id),
        m[id].state != JobState::Uploaded,
    ensures
        start_outcome(m, token, id, to) == Err::<Conversion, Seq<char>>("job already completed"@),
{
}

} // verus!
