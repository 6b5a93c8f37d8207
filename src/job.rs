//! The job record, the reading of prober output, the classification of the
//! encoder's progress lines, and the names of a job's files.

use vstd::prelude::*;
use crate::text::{parse_u64, parsed_u64, same_text, trim_ws, trimmed};

verus! {

/// Where a job stands in its life.
#[derive(Clone, Copy, Debug, PartialEq, Eq, Structural)]
pub enum JobState {
    /// The source is stored and no conversion has been accepted.
    Uploaded,
    /// A conversion is running.
    Converting,
    /// The client is done with the job: the conversion finished, or it was
    /// cancelled.
    Completed,
    /// The conversion ended without a usable output.
    Failed,
}

/// One uploaded source file and what has been asked of it.
#[derive(Debug)]
pub struct ConversionJob {
    /// The job's identifier, a UUID as a 128-bit number.
    pub id: u128,
    /// The capability token that authorises every operation on the job.
    pub auth: String,
    /// The source format's name, as uploaded.
    pub from: String,
    /// The target format's name, set once when a conversion is accepted.
    pub to: Option<String>,
    pub state: JobState,
    /// The source's probed bitrate, once probed.
    pub bitrate: Option<u64>,
    /// The source's probed frame count, once probed.
    pub total_frames: Option<u64>,
}

/// Relies on `uuid::Uuid::new_v4`: a random identifier; nothing is promised
/// of its value.
#[verifier::external_body]
fn new_job_id() -> (r: u128) {
    uuid::Uuid::new_v4().as_u128()
}

impl ConversionJob {
    /// A freshly uploaded job: nothing converted, nothing probed.
    pub open spec fn is_fresh(&self, auth: Seq<char>, from: Seq<char>) -> bool {
        &&& self.auth@ == auth
        &&& self.from@ == from
        &&& self.to is None
        &&& self.state == JobState::Uploaded
        &&& self.bitrate is None
        &&& self.total_frames is None
    }

    /// A new job with a random identifier.
    pub fn new(auth_token: String, from: String) -> (r: Self)
        ensures
            r.is_fresh(auth_token@, from@),
    {
        ConversionJob::with_id(new_job_id(), auth_token, from)
    }

    /// A new job with the given identifier.
    pub fn with_id(id: u128, auth_token: String, from: String) -> (r: Self)
        ensures
            r.id == id,
            r.is_fresh(auth_token@, from@),
    {
        ConversionJob {
            id,
            auth: auth_token,
            from,
            to: None,
            state: JobState::Uploaded,
            bitrate: None,
            total_frames: None,
        }
    }

    /// A copy of the record.
    pub fn snapshot(&self) -> (r: Self)
        ensures
            r == *self,
    {
        ConversionJob {
            id: self.id,
            auth: self.auth.clone(),
            from: self.from.clone(),
            to: match &self.to {
                Some(t) => Some(t.clone()),
                None => None,
            },
            state: self.state,
            bitrate: self.bitrate,
            total_frames: self.total_frames,
        }
    }

    pub fn id(&self) -> (r: u128)
        ensures
            r == self.id,
    {
        self.id
    }

    pub fn auth(&self) -> (r: &str)
        ensures
            r@ == self.auth@,
    {
        self.auth.as_str()
    }

    /// Whether a conversion can no longer be started on the job.
    pub open spec fn is_completed(&self) -> bool {
        self.state != JobState::Uploaded
    }

    pub fn completed(&self) -> (r: bool)
        ensures
            r == self.is_completed(),
    {
        self.state != JobState::Uploaded
    }

    pub fn errored(&self) -> (r: bool)
        ensures
            r == (self.state == JobState::Failed),
    {
        self.state == JobState::Failed
    }
}

/// The bitrate assumed when the prober reports none.
pub const DEFAULT_BITRATE: u64 = 4000000;

/// The target bitrate is the source's times 2.5: the numerator and
/// denominator of that factor.
pub const BITRATE_NUMERATOR: u64 = 5;
pub const BITRATE_DENOMINATOR: u64 = 2;

/// The source bitrate that prober output reports: its trimmed text as a
/// number, else the default.
pub open spec fn probed_bitrate_spec(out: Seq<char>) -> u64 {
    match parsed_u64(trimmed(out)) {
        Some(b) => b,
        None => DEFAULT_BITRATE,
    }
}

/// The target bitrate for a source bitrate, saturating at `u64::MAX`.
pub open spec fn target_bitrate_spec(source: u64) -> u64 {
    let v = source as nat * BITRATE_NUMERATOR as nat / BITRATE_DENOMINATOR as nat;
    if v > u64::MAX {
        u64::MAX
    } else {
        v as u64
    }
}

/// Reads the source bitrate from the prober's output.
pub fn probed_bitrate(out: &str) -> (r: u64)
    ensures
        r == probed_bitrate_spec(out@),
{
    match parse_u64(trim_ws(out)) {
        Some(b) => b,
        None => DEFAULT_BITRATE,
    }
}

/// The bitrate to encode at for a source bitrate.
pub fn target_bitrate(source: u64) -> (r: u64)
    ensures
        r == target_bitrate_spec(source),
{
    let v: u128 = (source as u128) * (BITRATE_NUMERATOR as u128) / (BITRATE_DENOMINATOR as u128);
    if v > 0xffff_ffff_ffff_ffffu128 {
        0xffff_ffff_ffff_ffffu64
    } else {
        v as u64
    }
}

/// Reads the frame count from the prober's output; `None` where the trimmed
/// output is not a number.
pub fn probed_frames(out: &str) -> (r: Option<u64>)
    ensures
        r == parsed_u64(trimmed(out@)),
{
    parse_u64(trim_ws(out))
}

/// The frame rate assumed when the prober reports none.
pub const DEFAULT_FPS: u32 = 24;

pub open spec fn clamp_fps(n: u64) -> u32 {
    if n > u32::MAX {
        u32::MAX
    } else {
        n as u32
    }
}

/// The frame rate that prober output reports, rounded down: a trimmed
/// `num/den` fraction with a non-zero denominator, or a whole number; else
/// the default.
pub open spec fn probed_fps_spec(out: Seq<char>) -> u32 {
    let t = trimmed(out);
    match first_index(t, '/') {
        Some(p) => match (parsed_u64(t.subrange(0, p)), parsed_u64(t.subrange(p + 1, t.len() as int))) {
            (Some(n), Some(d)) => if d > 0 {
                clamp_fps(n / d)
            } else {
                DEFAULT_FPS
            },
            _ => DEFAULT_FPS,
        },
        None => match parsed_u64(t) {
            Some(n) => clamp_fps(n),
            None => DEFAULT_FPS,
        },
    }
}

/// Reads the source frame rate from the prober's output.
pub fn probed_fps(out: &str) -> (r: u32)
    ensures
        r == probed_fps_spec(out@),
{
    let t = trim_ws(out);
    let n = t.unicode_len();
    let whole = match find_char(t, '/') {
        Some(p) => {
            let num = parse_u64(t.substring_char(0, p));
            let den = parse_u64(t.substring_char(p + 1, n));
            match (num, den) {
                (Some(a), Some(b)) => if b > 0 {
                    Some(a / b)
                } else {
                    None
                },
                _ => None,
            }
        },
        None => parse_u64(t),
    };
    match whole {
        Some(v) => if v > 0xffff_ffffu64 {
            0xffff_ffffu32
        } else {
            v as u32
        },
        None => DEFAULT_FPS,
    }
}

/// What a conversion reports while it runs.
#[derive(Debug, PartialEq, Eq)]
pub enum ProgressEvent {
    /// Frames written so far.
    FrameCount(u64),
    /// The encoding rate, as the encoder printed it.
    FpsSample(String),
    /// A diagnostic line, kept for the failure report.
    ErrorLine(String),
}

pub open spec fn is_key_char(c: char) -> bool {
    ('a' <= c && c <= 'z') || ('0' <= c && c <= '9') || c == '_'
}

/// The index of the first `c` in `s`, if any.
pub open spec fn first_index(s: Seq<char>, c: char) -> Option<int> {
    if exists|i: int| 0 <= i < s.len() && s[i] == c {
        Some(choose|i: int| 0 <= i < s.len() && s[i] == c && forall|j: int| 0 <= j < i ==> s[j] != c)
    } else {
        None
    }
}

/// The index of the first `=` in `s`, if any.
pub open spec fn first_eq(s: Seq<char>) -> Option<int> {
    first_index(s, '=')
}

/// A `key=value` progress line: a non-empty key of lower-case letters,
/// digits and underscores, then `=`.
pub open spec fn progress_key(line: Seq<char>) -> Option<int> {
    match first_eq(line) {
        Some(p) => if p > 0 && forall|j: int| 0 <= j < p ==> is_key_char(#[trigger] line[j]) {
            Some(p)
        } else {
            None
        },
        None => None,
    }
}

/// How one line of the encoder's progress output is read, as the view of the
/// event it gives: `frame=N` gives a frame count, `fps=X` a rate sample,
/// other progress keys nothing, a blank line nothing, and any other line a
/// diagnostic.
pub enum LineKind {
    Frame(u64),
    Fps(Seq<char>),
    Diagnostic(Seq<char>),
    Nothing,
}

pub open spec fn line_kind(line: Seq<char>) -> LineKind {
    match progress_key(line) {
        Some(p) => {
            let key = line.subrange(0, p);
            let value = trimmed(line.subrange(p + 1, line.len() as int));
            if key == "frame"@ {
                match parsed_u64(value) {
                    Some(n) => LineKind::Frame(n),
                    None => LineKind::Nothing,
                }
            } else if key == "fps"@ {
                LineKind::Fps(value)
            } else {
                LineKind::Nothing
            }
        },
        None => if trimmed(line).len() == 0 {
            LineKind::Nothing
        } else {
            LineKind::Diagnostic(line)
        },
    }
}

pub open spec fn event_kind(e: Option<ProgressEvent>) -> LineKind {
    match e {
        Some(ProgressEvent::FrameCount(n)) => LineKind::Frame(n),
        Some(ProgressEvent::FpsSample(s)) => LineKind::Fps(s@),
        Some(ProgressEvent::ErrorLine(s)) => LineKind::Diagnostic(s@),
        None => LineKind::Nothing,
    }
}

fn find_char(s: &str, c: char) -> (r: Option<usize>)
    ensures
        match r {
            Some(p) => first_index(s@, c) == Some(p as int) && p < s@.len(),
            None => first_index(s@, c) is None,
        },
{
    let n = s.unicode_len();
    let mut i: usize = 0;
    while i < n
        invariant
            n == s@.len(),
            i <= n,
            forall|j: int| 0 <= j < i ==> s@[j] != c,
        decreases n - i,
    {
        if s.get_char(i) == c {
            let ghost k = choose|k: int| 0 <= k < s@.len() && s@[k] == c && forall|j: int| 0 <= j < k ==> s@[j] != c;
            assert(0 <= i < s@.len() && s@[i as int] == c && forall|j: int| 0 <= j < i ==> s@[j] != c);
            assert(k == i) by {
                if k < i {
                    assert(s@[k] != c);
                } else if k > i {
                    assert(s@[i as int] != c);
                }
            }
            return Some(i);
        }
        i = i + 1;
    }
    None
}

fn all_key_chars(s: &str, p: usize) -> (r: bool)
    requires
        p <= s@.len(),
    ensures
        r == forall|j: int| 0 <= j < p ==> is_key_char(#[trigger] s@[j]),
{
    let mut i: usize = 0;
    while i < p
        invariant
            p <= s@.len(),
            i <= p,
            forall|j: int| 0 <= j < i ==> is_key_char(#[trigger] s@[j]),
        decreases p - i,
    {
        let c = s.get_char(i);
        if !(('a' <= c && c <= 'z') || ('0' <= c && c <= '9') || c == '_') {
            return false;
        }
        i = i + 1;
    }
    true
}

/// Reads one line of the encoder's progress output.
pub fn classify_line(line: &str) -> (r: Option<ProgressEvent>)
    ensures
        event_kind(r) == line_kind(line@),
{
    let n = line.unicode_len();
    let key_end = match find_char(line, '=') {
        Some(p) => if p > 0 && all_key_chars(line, p) {
            Some(p)
        } else {
            None
        },
        None => None,
    };
    match key_end {
        Some(p) => {
            let key = line.substring_char(0, p);
            let value = trim_ws(line.substring_char(p + 1, n));
            if same_text(key, "frame") {
                match parse_u64(value) {
                    Some(v) => Some(ProgressEvent::FrameCount(v)),
                    None => None,
                }
            } else if same_text(key, "fps") {
                Some(ProgressEvent::FpsSample(String::from_str(value)))
            } else {
                None
            }
        },
        None => {
            if trim_ws(line).unicode_len() == 0 {
                None
            } else {
                Some(ProgressEvent::ErrorLine(String::from_str(line)))
            }
        },
    }
}

/// The lower-case hexadecimal digit for `d < 16`.
pub open spec fn hex_char(d: nat) -> char {
    if d < 10 {
        ((d + 48) as u8) as char
    } else {
        ((d + 87) as u8) as char
    }
}

/// The last `n` hexadecimal digits of `v`, most significant first.
pub open spec fn hex_digits(v: nat, n: nat) -> Seq<char>
    decreases n,
{
    if n == 0 {
        seq![]
    } else {
        hex_digits(v / 16, (n - 1) as nat).push(hex_char(v % 16))
    }
}

/// The hyphenated lower-case text of a UUID: 32 hexadecimal digits grouped
/// 8-4-4-4-12.
pub open spec fn uuid_text(id: u128) -> Seq<char> {
    let h = hex_digits(id as nat, 32);
    h.subrange(0, 8) + seq!['-'] + h.subrange(8, 12) + seq!['-'] + h.subrange(12, 16) + seq!['-']
        + h.subrange(16, 20) + seq!['-'] + h.subrange(20, 32)
}

/// Relies on `uuid::Uuid::from_u128` and the `Display` of `uuid::Uuid`:
/// the hyphenated lower-case hexadecimal form, most significant digit first.
#[verifier::external_body]
pub(crate) fn job_id_text(id: u128) -> (r: String)
    ensures
        r@ == uuid_text(id),
{
    uuid::Uuid::from_u128(id).to_string()
}

/// What `uuid::Uuid::parse_str` makes of a text, as a 128-bit number.
pub uninterp spec fn uuid_parsed(s: Seq<char>) -> Option<u128>;

/// Relies on `uuid::Uuid::parse_str`: the identifier that the text denotes,
/// if it denotes one.
#[verifier::external_body]
fn parse_uuid(s: &str) -> (r: Option<u128>)
    ensures
        r == uuid_parsed(s@),
{
    uuid::Uuid::parse_str(s).ok().map(|u| u.as_u128())
}

/// Reads a job identifier from its text.
pub fn parse_job_id(s: &str) -> (r: Option<u128>)
    ensures
        r == uuid_parsed(s@),
{
    parse_uuid(s)
}

/// The name of a job file: `<dir>/<id>.<ext>`.
pub open spec fn job_file(dir: Seq<char>, id: u128, ext: Seq<char>) -> Seq<char> {
    dir + seq!['/'] + uuid_text(id) + seq!['.'] + ext
}

fn job_path(dir: &str, id: u128, ext: &str) -> (r: String)
    ensures
        r@ == job_file(dir@, id, ext@),
{
    proof {
        reveal_strlit("/");
        reveal_strlit(".");
    }
    let s = String::from_str(dir).concat("/").concat(job_id_text(id).as_str()).concat(".").concat(ext);
    assert(s@ =~= job_file(dir@, id, ext@));
    s
}

/// Where a job's uploaded source is stored.
pub fn input_path(id: u128, from: &str) -> (r: String)
    ensures
        r@ == job_file("input"@, id, from@),
{
    job_path("input", id, from)
}

/// Where a job's converted output is written.
pub fn output_path(id: u128, to: &str) -> (r: String)
    ensures
        r@ == job_file("output"@, id, to@),
{
    job_path("output", id, to)
}

/// Where a kept source is moved.
pub fn permanent_path(id: u128, from: &str) -> (r: String)
    ensures
        r@ == job_file("permanent"@, id, from@),
{
    job_path("permanent", id, from)
}

} // verus!
