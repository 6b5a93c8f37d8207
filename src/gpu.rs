//! Accelerator vendors, the choice of a forced vendor from the command line or
//! the environment, and the per-process cache of accelerator probe results.

use vstd::prelude::*;
use crate::text::{same_text, text_views};

verus! {

broadcast use vstd::seq_lib::group_seq_properties;

/// A hardware vendor whose accelerated encoders may be available.
#[derive(Clone, Copy, Debug, PartialEq, Eq, Structural)]
pub enum ConverterGPU {
    AMD,
    Intel,
    NVIDIA,
    Apple,
}

/// The lower-case form of `s`, as `str::to_lowercase` gives it.
pub uninterp spec fn lower_of(s: Seq<char>) -> Seq<char>;

/// Relies on `str::to_lowercase`: the result depends on the characters alone.
#[verifier::external_body]
fn lowercase(s: &str) -> (r: String)
    ensures
        r@ == lower_of(s@),
{
    s.to_lowercase()
}

/// The vendor that a lower-case vendor name denotes.
pub open spec fn gpu_named(s: Seq<char>) -> Option<ConverterGPU> {
    if s == "amd"@ {
        Some(ConverterGPU::AMD)
    } else if s == "intel"@ {
        Some(ConverterGPU::Intel)
    } else if s == "nvidia"@ {
        Some(ConverterGPU::NVIDIA)
    } else if s == "apple"@ {
        Some(ConverterGPU::Apple)
    } else {
        None
    }
}

/// The message given for a vendor name that is not recognised.
pub open spec fn invalid_gpu_message(s: Seq<char>) -> Seq<char> {
    s + ". Valid options: amd, intel, nvidia, apple"@
}

/// The vendor that a lower-case vendor name denotes.
pub fn gpu_from_lower(l: &str) -> (r: Option<ConverterGPU>)
    ensures
        r == gpu_named(l@),
{
    if same_text(l, "amd") {
        Some(ConverterGPU::AMD)
    } else if same_text(l, "intel") {
        Some(ConverterGPU::Intel)
    } else if same_text(l, "nvidia") {
        Some(ConverterGPU::NVIDIA)
    } else if same_text(l, "apple") {
        Some(ConverterGPU::Apple)
    } else {
        None
    }
}

/// Parses a vendor name, ignoring case.
pub fn parse_gpu(gpu_str: &str) -> (r: Result<ConverterGPU, String>)
    ensures
        match gpu_named(lower_of(gpu_str@)) {
            Some(g) => r == Ok::<ConverterGPU, String>(g),
            None => r is Err && r->Err_0@ == invalid_gpu_message(gpu_str@),
        },
{
    let lower = lowercase(gpu_str);
    match gpu_from_lower(lower.as_str()) {
        Some(g) => Ok(g),
        None => Err(String::from_str(gpu_str).concat(". Valid options: amd, intel, nvidia, apple")),
    }
}

pub open spec fn is_gpu_flag(a: Seq<char>) -> bool {
    a == "-gpu"@ || a == "--gpu"@
}

/// The index of the first `-gpu` or `--gpu` flag at or after `i`.
pub open spec fn first_gpu_flag(args: Seq<Seq<char>>, i: int) -> Option<int>
    decreases args.len() - i,
{
    if i < 0 || i >= args.len() {
        None
    } else if is_gpu_flag(args[i]) {
        Some(i)
    } else {
        first_gpu_flag(args, i + 1)
    }
}

/// The vendor named by the value after the first GPU flag, if it names one.
pub open spec fn gpu_from_args(args: Seq<Seq<char>>) -> Option<ConverterGPU> {
    match first_gpu_flag(args, 0) {
        Some(p) => if p + 1 < args.len() {
            gpu_named(lower_of(args[p + 1]))
        } else {
            None
        },
        None => None,
    }
}

pub open spec fn opt_text(o: Option<&str>) -> Option<Seq<char>> {
    match o {
        Some(e) => Some(e@),
        None => None,
    }
}

/// The forced vendor: the command line's, else the environment's, else none.
pub open spec fn forced_gpu_spec(args: Seq<Seq<char>>, env_value: Option<Seq<char>>) -> Option<
    ConverterGPU,
> {
    match gpu_from_args(args) {
        Some(g) => Some(g),
        None => match env_value {
            Some(e) => gpu_named(lower_of(e)),
            None => None,
        },
    }
}

/// Chooses the vendor forced by a `-gpu <name>` / `--gpu <name>` argument or,
/// failing that, by the value of the vendor environment variable.
pub fn forced_gpu(args: &Vec<String>, env_value: Option<&str>) -> (r: Option<ConverterGPU>)
    ensures
        r == forced_gpu_spec(text_views(args@), opt_text(env_value)),
{
    let ghost views = text_views(args@);
    let mut i: usize = 0;
    let mut pos: Option<usize> = None;
    while i < args.len() && pos.is_none()
        invariant
            views == text_views(args@),
            i <= args.len(),
            pos is None ==> first_gpu_flag(views, 0) == first_gpu_flag(views, i as int),
            pos is Some ==> first_gpu_flag(views, 0) == Some(pos->0 as int),
            pos is Some ==> pos->0 < args.len(),
        decreases args.len() - i + (if pos is None { 1int } else { 0int }),
    {
        let a = args[i].as_str();
        assert(views[i as int] == a@);
        if same_text(a, "-gpu") || same_text(a, "--gpu") {
            pos = Some(i);
        } else {
            i = i + 1;
        }
    }
    assert(views.len() == args.len());
    if pos.is_none() {
        assert(first_gpu_flag(views, i as int) is None);
    }
    let mut from_args: Option<ConverterGPU> = None;
    if let Some(p) = pos {
        if p + 1 < args.len() {
            assert(views[p + 1] == args@[p + 1]@);
            if let Ok(g) = parse_gpu(args[p + 1].as_str()) {
                from_args = Some(g);
            }
        }
    }
    assert(from_args == gpu_from_args(views));
    if from_args.is_some() {
        return from_args;
    }
    match env_value {
        Some(e) => match parse_gpu(e) {
            Ok(g) => Some(g),
            Err(_) => None,
        },
        None => None,
    }
}

impl ConverterGPU {
    /// The suffix that this vendor's accelerated encoders carry in the
    /// encoder's naming scheme.
    pub open spec fn encoder_suffix(self) -> Seq<char> {
        match self {
            ConverterGPU::AMD => "_vaapi"@,
            ConverterGPU::Intel => "_qsv"@,
            ConverterGPU::NVIDIA => "_nvenc"@,
            ConverterGPU::Apple => "_videotoolbox"@,
        }
    }

    fn suffix_str(&self) -> (r: &'static str)
        ensures
            r@ == self.encoder_suffix(),
    {
        match self {
            ConverterGPU::AMD => "_vaapi",
            ConverterGPU::Intel => "_qsv",
            ConverterGPU::NVIDIA => "_nvenc",
            ConverterGPU::Apple => "_videotoolbox",
        }
    }

    /// The name of this vendor's accelerated encoder for `codec`
    /// (`h264` on NVIDIA is `h264_nvenc`).
    pub fn accelerated_encoder(&self, codec: &str) -> (r: String)
        ensures
            r@ == codec@ + self.encoder_suffix(),
    {
        String::from_str(codec).concat(self.suffix_str())
    }
}

/// The first recorded probe result for `name` in `entries`.
pub open spec fn find_probe(entries: Seq<(Seq<char>, bool)>, name: Seq<char>) -> Option<bool>
    decreases entries.len(),
{
    if entries.len() == 0 {
        None
    } else if entries[0].0 == name {
        Some(entries[0].1)
    } else {
        find_probe(entries.drop_first(), name)
    }
}

proof fn lemma_find_probe_push(entries: Seq<(Seq<char>, bool)>, e: (Seq<char>, bool), name: Seq<char>)
    ensures
        find_probe(entries.push(e), name) == match find_probe(entries, name) {
            Some(b) => Some(b),
            None => if e.0 == name { Some(e.1) } else { None },
        },
    decreases entries.len(),
{
    if entries.len() > 0 {
        assert(entries.push(e).drop_first() =~= entries.drop_first().push(e));
        lemma_find_probe_push(entries.drop_first(), e, name);
    } else {
        assert(entries.push(e).drop_first() =~= entries);
    }
}

/// What has been learnt, for the life of the process, about which accelerated
/// encoders work on this machine. A name never probed counts as unavailable.
pub struct AcceleratorCache {
    gpu: ConverterGPU,
    probed: Vec<(String, bool)>,
}

impl AcceleratorCache {
    /// The vendor whose encoders the cache is about.
    pub closed spec fn vendor(&self) -> ConverterGPU {
        self.gpu
    }

    pub fn gpu(&self) -> (r: ConverterGPU)
        ensures
            r == self.vendor(),
    {
        self.gpu
    }

    pub closed spec fn entries(&self) -> Seq<(Seq<char>, bool)> {
        self.probed@.map_values(|e: (String, bool)| (e.0@, e.1))
    }

    /// The probe result recorded for `name`, if any.
    pub open spec fn probe_result(&self, name: Seq<char>) -> Option<bool> {
        find_probe(self.entries(), name)
    }

    /// Whether the encoder `name` has been confirmed available.
    pub open spec fn available(&self, name: Seq<char>) -> bool {
        self.probe_result(name) == Some(true)
    }

    /// A cache with nothing probed yet.
    pub fn new(gpu: ConverterGPU) -> (r: Self)
        ensures
            r.vendor() == gpu,
            forall|n: Seq<char>| #[trigger] r.probe_result(n) is None,
    {
        let r = AcceleratorCache { gpu, probed: Vec::new() };
        assert(r.entries() =~= Seq::<(Seq<char>, bool)>::empty());
        r
    }

    /// The recorded probe result for `name`.
    pub fn lookup(&self, name: &str) -> (r: Option<bool>)
        ensures
            r == self.probe_result(name@),
    {
        let ghost es = self.entries();
        let mut i: usize = 0;
        assert(es.subrange(0, es.len() as int) =~= es);
        while i < self.probed.len()
            invariant
                es == self.entries(),
                i <= self.probed.len(),
                find_probe(es, name@) == find_probe(es.subrange(i as int, es.len() as int), name@),
            decreases self.probed.len() - i,
        {
            let e = &self.probed[i];
            proof {
                assert(es.subrange(i as int, es.len() as int).drop_first() =~= es.subrange(i + 1, es.len() as int));
            }
            if same_text(e.0.as_str(), name) {
                return Some(e.1);
            }
            i = i + 1;
        }
        None
    }

    /// Whether the encoder `name` has been confirmed available; a probe
    /// failure or a name never probed counts as unavailable.
    pub fn is_available(&self, name: &str) -> (r: bool)
        ensures
            r == self.available(name@),
    {
        match self.lookup(name) {
            Some(b) => b,
            None => false,
        }
    }

    /// Records the outcome of probing `name`. The first outcome recorded for
    /// a name stands for the life of the cache.
    pub fn record(&mut self, name: String, available: bool)
        ensures
            final(self).vendor() == old(self).vendor(),
            forall|n: Seq<char>| #[trigger] final(self).probe_result(n) == match old(self).probe_result(n) {
                Some(b) => Some(b),
                None => if n == name@ { Some(available) } else { None },
            },
    {
        if self.lookup(name.as_str()).is_some() {
            return;
        }
        let ghost before = self.entries();
        let ghost nv = name@;
        self.probed.push((name, available));
        assert(self.entries() =~= before.push((nv, available)));
        assert forall|n: Seq<char>| #[trigger] self.probe_result(n) == match find_probe(before, n) {
            Some(b) => Some(b),
            None => if n == nv { Some(available) } else { None },
        } by {
            lemma_find_probe_push(before, (nv, available), n);
        }
    }
}

} // verus!
