//! Target and source formats, and the encoder arguments of a conversion
//! between two of them.

use vstd::prelude::*;
use crate::gpu::{AcceleratorCache, ConverterGPU};
use crate::speed::ConversionSpeed;
use crate::text::{append_texts, decimal, push_string, push_text, same_text, text_views, u64_text};

verus! {

/// A container format that a conversion reads or writes.
#[derive(Clone, Copy, Debug, PartialEq, Eq, Structural)]
pub enum ConverterFormat {
    MP4,
    WebM,
    GIF,
    AVI,
    MKV,
    WMV,
    MOV,
    MTS,
    TS,
    M2TS,
    MPEG,
    MPG,
    FLV,
    F4V,
    VOB,
    M4V,
    ThreeGP,
    ThreeG2,
    MXF,
    OGV,
    RM,
    RMVB,
    H264,
    DIVX,
    SWF,
    AMV,
    ASF,
    NUT,
}

/// The format whose lower-case name is `s`.
pub open spec fn format_named(s: Seq<char>) -> Option<ConverterFormat> {
    if s == "mp4"@ {
        Some(ConverterFormat::MP4)
    } else     if s == "webm"@ {
        Some(ConverterFormat::WebM)
    } else     if s == "gif"@ {
        Some(ConverterFormat::GIF)
    } else     if s == "avi"@ {
        Some(ConverterFormat::AVI)
    } else     if s == "mkv"@ {
        Some(ConverterFormat::MKV)
    } else     if s == "wmv"@ {
        Some(ConverterFormat::WMV)
    } else     if s == "mov"@ {
        Some(ConverterFormat::MOV)
    } else     if s == "mts"@ {
        Some(ConverterFormat::MTS)
    } else     if s == "ts"@ {
        Some(ConverterFormat::TS)
    } else     if s == "m2ts"@ {
        Some(ConverterFormat::M2TS)
    } else     if s == "mpeg"@ {
        Some(ConverterFormat::MPEG)
    } else     if s == "mpg"@ {
        Some(ConverterFormat::MPG)
    } else     if s == "flv"@ {
        Some(ConverterFormat::FLV)
    } else     if s == "f4v"@ {
        Some(ConverterFormat::F4V)
    } else     if s == "vob"@ {
        Some(ConverterFormat::VOB)
    } else     if s == "m4v"@ {
        Some(ConverterFormat::M4V)
    } else     if s == "3gp"@ {
        Some(ConverterFormat::ThreeGP)
    } else     if s == "3g2"@ {
        Some(ConverterFormat::ThreeG2)
    } else     if s == "mxf"@ {
        Some(ConverterFormat::MXF)
    } else     if s == "ogv"@ {
        Some(ConverterFormat::OGV)
    } else     if s == "rm"@ {
        Some(ConverterFormat::RM)
    } else     if s == "rmvb"@ {
        Some(ConverterFormat::RMVB)
    } else     if s == "h264"@ {
        Some(ConverterFormat::H264)
    } else     if s == "divx"@ {
        Some(ConverterFormat::DIVX)
    } else     if s == "swf"@ {
        Some(ConverterFormat::SWF)
    } else     if s == "amv"@ {
        Some(ConverterFormat::AMV)
    } else     if s == "asf"@ {
        Some(ConverterFormat::ASF)
    } else     if s == "nut"@ {
        Some(ConverterFormat::NUT)
    } else {
        None
    }
}

/// Why no encoder arguments exist for a conversion.
#[derive(Clone, Copy, Debug, PartialEq, Eq, Structural)]
pub enum ConversionError {
    /// No usable encoder writes the target format.
    UnsupportedTarget(ConverterFormat),
}

impl ConversionError {
    pub fn message(&self) -> (r: String)
        ensures
            r@ == "Encoding to RM/RMVB is not supported"@,
    {
        String::from_str("Encoding to RM/RMVB is not supported")
    }
}

/// The filters after the frame rate in the two-pass palette chain of GIF output.
pub open spec fn gif_filter_tail() -> Seq<char> {
    ",scale=800:-1:flags=lanczos,split[s0][s1];[s0]palettegen=max_colors=64[p];[s1][p]paletteuse=dither=bayer"@
}

/// The most frames per second that GIF output keeps.
pub const MAX_GIF_FPS: u32 = 24;

/// The frame rate of GIF output for a source frame rate.
pub open spec fn gif_fps(fps: u32) -> u32 {
    if fps < MAX_GIF_FPS {
        fps
    } else {
        MAX_GIF_FPS
    }
}

/// The GIF filter chain: a frame-rate clamp, a scale, and palette generation
/// and use.
pub open spec fn gif_filter(fps: u32) -> Seq<char> {
    "fps="@ + decimal(gif_fps(fps) as nat) + gif_filter_tail()
}

/// The codecs whose accelerated encoders are tried for a target, in order,
/// and the software encoder used when none is available.
pub open spec fn codec_candidates(to: ConverterFormat) -> (Seq<Seq<char>>, Seq<char>) {
    match to {
        ConverterFormat::WMV => (seq!["wmv2"@, "wmv3"@], "wmv2"@),
        ConverterFormat::WebM => (seq!["av1"@, "vp9"@, "vp8"@], "libvpx"@),
        _ => (seq!["h264"@], "libx264"@),
    }
}

/// The first candidate codec whose accelerated encoder is available, as that
/// encoder's name; the software default when there is none.
pub open spec fn pick_encoder(cache: AcceleratorCache, codecs: Seq<Seq<char>>, default: Seq<char>) -> Seq<char>
    decreases codecs.len(),
{
    if codecs.len() == 0 {
        default
    } else if cache.available(codecs[0] + cache.vendor().encoder_suffix()) {
        codecs[0] + cache.vendor().encoder_suffix()
    } else {
        pick_encoder(cache, codecs.drop_first(), default)
    }
}

pub open spec fn chosen_encoder(cache: AcceleratorCache, to: ConverterFormat) -> Seq<char> {
    pick_encoder(cache, codec_candidates(to).0, codec_candidates(to).1)
}

/// The codec arguments for target `to`; `None` where no encoder writes it.
pub open spec fn base_args(to: ConverterFormat, cache: AcceleratorCache, fps: u32) -> Option<Seq<Seq<char>>> {
    match to {
        ConverterFormat::MP4 | ConverterFormat::MKV | ConverterFormat::MOV | ConverterFormat::MTS
        | ConverterFormat::TS | ConverterFormat::M2TS | ConverterFormat::FLV | ConverterFormat::F4V
        | ConverterFormat::M4V | ConverterFormat::ThreeGP | ConverterFormat::ThreeG2
        | ConverterFormat::H264 => Some(seq!["-c:v"@, chosen_encoder(cache, to), "-c:a"@, "aac"@, "-strict"@, "experimental"@]),
        ConverterFormat::GIF => Some(seq!["-filter_complex"@, gif_filter(fps)]),
        ConverterFormat::WMV => Some(seq!["-c:v"@, chosen_encoder(cache, to), "-c:a"@, "wmav2"@]),
        ConverterFormat::WebM => Some(seq!["-c:v"@, chosen_encoder(cache, to), "-c:a"@, "libvorbis"@]),
        ConverterFormat::NUT | ConverterFormat::AVI => Some(seq!["-c:v"@, "mpeg4"@, "-c:a"@, "libmp3lame"@]),
        ConverterFormat::MPEG | ConverterFormat::MPG | ConverterFormat::VOB => Some(seq!["-c:v"@, "mpeg2video"@, "-c:a"@, "mp2"@]),
        ConverterFormat::MXF => Some(seq!["-c:v"@, "mpeg2video"@, "-c:a"@, "pcm_s16le"@, "-strict"@, "unofficial"@]),
        ConverterFormat::OGV => Some(seq!["-c:v"@, "libtheora"@, "-c:a"@, "libvorbis"@]),
        ConverterFormat::RM | ConverterFormat::RMVB => None,
        ConverterFormat::DIVX => Some(seq!["-f"@, "avi"@, "-c:v"@, "mpeg4"@, "-c:a"@, "libmp3lame"@]),
        ConverterFormat::SWF => Some(seq!["-f"@, "swf"@, "-c:v"@, "flv"@, "-c:a"@, "libmp3lame"@, "-b:a"@, "192k"@]),
        ConverterFormat::ASF => Some(seq!["-c:v"@, "msmpeg4v3"@, "-c:a"@, "wmav2"@]),
        ConverterFormat::AMV => Some(seq!["-c:v"@, "amv"@, "-c:a"@, "adpcm_ima_amv"@, "-ac"@, "1"@, "-ar"@, "22050"@, "-r"@, "25"@, "-block_size"@, "882"@]),
    }
}

/// The full encoder arguments of a conversion to `to`: the codec arguments,
/// then the speed tier's.
pub open spec fn conversion_args(
    to: ConverterFormat,
    speed: ConversionSpeed,
    cache: AcceleratorCache,
    bitrate: u64,
    fps: u32,
) -> Option<Seq<Seq<char>>> {
    match base_args(to, cache, fps) {
        Some(b) => Some(b + speed.speed_args(to, cache.vendor(), bitrate)),
        None => None,
    }
}

proof fn lemma_pick_encoder_same(c1: AcceleratorCache, c2: AcceleratorCache, codecs: Seq<Seq<char>>, default: Seq<char>)
    requires
        c1.vendor() == c2.vendor(),
        forall|n: Seq<char>| c1.available(n) == c2.available(n),
    ensures
        pick_encoder(c1, codecs, default) == pick_encoder(c2, codecs, default),
    decreases codecs.len(),
{
    if codecs.len() > 0 {
        lemma_pick_encoder_same(c1, c2, codecs.drop_first(), default);
    }
}

/// The encoding policy is a function of the target, the speed tier, the
/// vendor, which accelerated encoders are available, the bitrate and the
/// frame rate: two accelerator caches that agree on the vendor and on every
/// encoder's availability give the same arguments.
pub proof fn policy_deterministic(
    to: ConverterFormat,
    speed: ConversionSpeed,
    c1: AcceleratorCache,
    c2: AcceleratorCache,
    bitrate: u64,
    fps: u32,
)
    requires
        c1.vendor() == c2.vendor(),
        forall|n: Seq<char>| c1.available(n) == c2.available(n),
    ensures
        conversion_args(to, speed, c1, bitrate, fps) == conversion_args(to, speed, c2, bitrate, fps),
{
    lemma_pick_encoder_same(c1, c2, codec_candidates(to).0, codec_candidates(to).1);
}

/// GIF output never carries a bitrate flag, and its frame rate is at most 24.
pub proof fn gif_has_no_bitrate(speed: ConversionSpeed, cache: AcceleratorCache, bitrate: u64, fps: u32)
    ensures
        conversion_args(ConverterFormat::GIF, speed, cache, bitrate, fps) == Some(seq!["-filter_complex"@, gif_filter(fps)]),
        gif_fps(fps) <= MAX_GIF_FPS,
{
    assert(seq!["-filter_complex"@, gif_filter(fps)] + seq![] =~= seq!["-filter_complex"@, gif_filter(fps)]);
}

impl ConverterFormat {
    /// The lower-case name of the format, also its file extension.
    pub open spec fn name_spec(self) -> Seq<char> {
        match self {
            ConverterFormat::MP4 => "mp4"@,
            ConverterFormat::WebM => "webm"@,
            ConverterFormat::GIF => "gif"@,
            ConverterFormat::AVI => "avi"@,
            ConverterFormat::MKV => "mkv"@,
            ConverterFormat::WMV => "wmv"@,
            ConverterFormat::MOV => "mov"@,
            ConverterFormat::MTS => "mts"@,
            ConverterFormat::TS => "ts"@,
            ConverterFormat::M2TS => "m2ts"@,
            ConverterFormat::MPEG => "mpeg"@,
            ConverterFormat::MPG => "mpg"@,
            ConverterFormat::FLV => "flv"@,
            ConverterFormat::F4V => "f4v"@,
            ConverterFormat::VOB => "vob"@,
            ConverterFormat::M4V => "m4v"@,
            ConverterFormat::ThreeGP => "3gp"@,
            ConverterFormat::ThreeG2 => "3g2"@,
            ConverterFormat::MXF => "mxf"@,
            ConverterFormat::OGV => "ogv"@,
            ConverterFormat::RM => "rm"@,
            ConverterFormat::RMVB => "rmvb"@,
            ConverterFormat::H264 => "h264"@,
            ConverterFormat::DIVX => "divx"@,
            ConverterFormat::SWF => "swf"@,
            ConverterFormat::AMV => "amv"@,
            ConverterFormat::ASF => "asf"@,
            ConverterFormat::NUT => "nut"@,
        }
    }

    /// Whether some encoder writes this format.
    pub open spec fn is_supported_target(self) -> bool {
        !(self == ConverterFormat::RM || self == ConverterFormat::RMVB)
    }

    /// The lower-case name of the format, also its file extension.
    pub fn name(&self) -> (r: &'static str)
        ensures
            r@ == self.name_spec(),
    {
        match self {
            ConverterFormat::MP4 => "mp4",
            ConverterFormat::WebM => "webm",
            ConverterFormat::GIF => "gif",
            ConverterFormat::AVI => "avi",
            ConverterFormat::MKV => "mkv",
            ConverterFormat::WMV => "wmv",
            ConverterFormat::MOV => "mov",
            ConverterFormat::MTS => "mts",
            ConverterFormat::TS => "ts",
            ConverterFormat::M2TS => "m2ts",
            ConverterFormat::MPEG => "mpeg",
            ConverterFormat::MPG => "mpg",
            ConverterFormat::FLV => "flv",
            ConverterFormat::F4V => "f4v",
            ConverterFormat::VOB => "vob",
            ConverterFormat::M4V => "m4v",
            ConverterFormat::ThreeGP => "3gp",
            ConverterFormat::ThreeG2 => "3g2",
            ConverterFormat::MXF => "mxf",
            ConverterFormat::OGV => "ogv",
            ConverterFormat::RM => "rm",
            ConverterFormat::RMVB => "rmvb",
            ConverterFormat::H264 => "h264",
            ConverterFormat::DIVX => "divx",
            ConverterFormat::SWF => "swf",
            ConverterFormat::AMV => "amv",
            ConverterFormat::ASF => "asf",
            ConverterFormat::NUT => "nut",
        }
    }

    /// The format named `s` (exact, lower-case names such as `mp4` or `3gp`).
    pub fn parse(s: &str) -> (r: Option<ConverterFormat>)
        ensures
            r == format_named(s@),
    {
        if same_text(s, "mp4") {
            Some(ConverterFormat::MP4)
        } else         if same_text(s, "webm") {
            Some(ConverterFormat::WebM)
        } else         if same_text(s, "gif") {
            Some(ConverterFormat::GIF)
        } else         if same_text(s, "avi") {
            Some(ConverterFormat::AVI)
        } else         if same_text(s, "mkv") {
            Some(ConverterFormat::MKV)
        } else         if same_text(s, "wmv") {
            Some(ConverterFormat::WMV)
        } else         if same_text(s, "mov") {
            Some(ConverterFormat::MOV)
        } else         if same_text(s, "mts") {
            Some(ConverterFormat::MTS)
        } else         if same_text(s, "ts") {
            Some(ConverterFormat::TS)
        } else         if same_text(s, "m2ts") {
            Some(ConverterFormat::M2TS)
        } else         if same_text(s, "mpeg") {
            Some(ConverterFormat::MPEG)
        } else         if same_text(s, "mpg") {
            Some(ConverterFormat::MPG)
        } else         if same_text(s, "flv") {
            Some(ConverterFormat::FLV)
        } else         if same_text(s, "f4v") {
            Some(ConverterFormat::F4V)
        } else         if same_text(s, "vob") {
            Some(ConverterFormat::VOB)
        } else         if same_text(s, "m4v") {
            Some(ConverterFormat::M4V)
        } else         if same_text(s, "3gp") {
            Some(ConverterFormat::ThreeGP)
        } else         if same_text(s, "3g2") {
            Some(ConverterFormat::ThreeG2)
        } else         if same_text(s, "mxf") {
            Some(ConverterFormat::MXF)
        } else         if same_text(s, "ogv") {
            Some(ConverterFormat::OGV)
        } else         if same_text(s, "rm") {
            Some(ConverterFormat::RM)
        } else         if same_text(s, "rmvb") {
            Some(ConverterFormat::RMVB)
        } else         if same_text(s, "h264") {
            Some(ConverterFormat::H264)
        } else         if same_text(s, "divx") {
            Some(ConverterFormat::DIVX)
        } else         if same_text(s, "swf") {
            Some(ConverterFormat::SWF)
        } else         if same_text(s, "amv") {
            Some(ConverterFormat::AMV)
        } else         if same_text(s, "asf") {
            Some(ConverterFormat::ASF)
        } else         if same_text(s, "nut") {
            Some(ConverterFormat::NUT)
        } else {
            None
        }
    }

    pub fn supports_target(&self) -> (r: bool)
        ensures
            r == self.is_supported_target(),
    {
        !(*self == ConverterFormat::RM || *self == ConverterFormat::RMVB)
    }

    /// The speed tier's arguments for a conversion into this format.
    pub fn conversion_into_args(&self, speed: &ConversionSpeed, gpu: &ConverterGPU, bitrate: u64) -> (r: Vec<String>)
        ensures
            text_views(r@) == speed.speed_args(*self, *gpu, bitrate),
    {
        speed.to_args(self, gpu, bitrate)
    }
}

/// A conversion from one format to another.
#[derive(Clone, Copy, Debug, PartialEq, Eq, Structural)]
pub struct Conversion {
    pub from: ConverterFormat,
    pub to: ConverterFormat,
}

impl Conversion {
    pub fn new(from: ConverterFormat, to: ConverterFormat) -> (r: Self)
        ensures
            r.from == from,
            r.to == to,
    {
        Conversion { from, to }
    }

    /// The name of the first codec in `codecs` whose accelerated encoder the
    /// cache confirms, else `default`.
    fn accelerated_or_default_codec(&self, cache: &AcceleratorCache, codecs: &Vec<&str>, default: &str) -> (r: String)
        ensures
            r@ == pick_encoder(*cache, codecs@.map_values(|c: &str| c@), default@),
    {
        let ghost cs = codecs@.map_values(|c: &str| c@);
        let gpu = cache.gpu();
        let mut i: usize = 0;
        assert(cs.subrange(0, cs.len() as int) =~= cs);
        while i < codecs.len()
            invariant
                cs == codecs@.map_values(|c: &str| c@),
                i <= codecs.len(),
                gpu == cache.vendor(),
                pick_encoder(*cache, cs, default@) == pick_encoder(*cache, cs.subrange(i as int, cs.len() as int), default@),
            decreases codecs.len() - i,
        {
            let encoder = gpu.accelerated_encoder(codecs[i]);
            proof {
                assert(cs.subrange(i as int, cs.len() as int).drop_first() =~= cs.subrange(i + 1, cs.len() as int));
                assert(cs.subrange(i as int, cs.len() as int)[0] == codecs@[i as int]@);
            }
            if cache.is_available(encoder.as_str()) {
                return encoder;
            }
            i = i + 1;
        }
        String::from_str(default)
    }

    fn candidate_codecs(&self) -> (r: (Vec<&'static str>, &'static str))
        ensures
            r.0@.map_values(|c: &str| c@) == codec_candidates(self.to).0,
            r.1@ == codec_candidates(self.to).1,
    {
        let mut v: Vec<&'static str> = Vec::new();
        let d = match self.to {
            ConverterFormat::WMV => {
                v.push("wmv2");
                v.push("wmv3");
                "wmv2"
            },
            ConverterFormat::WebM => {
                v.push("av1");
                v.push("vp9");
                v.push("vp8");
                "libvpx"
            },
            _ => {
                v.push("h264");
                "libx264"
            },
        };
        assert(v@.map_values(|c: &str| c@) =~= codec_candidates(self.to).0);
        (v, d)
    }

    /// The accelerated encoder names that choosing this conversion's codec
    /// consults, in order, for a vendor: the names a prober should check.
    pub fn accelerated_candidates(&self, gpu: &ConverterGPU) -> (r: Vec<String>)
        ensures
            text_views(r@) == codec_candidates(self.to).0.map_values(|c: Seq<char>| c + gpu.encoder_suffix()),
    {
        let (codecs, _d) = self.candidate_codecs();
        let ghost cs = codecs@.map_values(|c: &str| c@);
        let mut r: Vec<String> = Vec::new();
        let mut i: usize = 0;
        while i < codecs.len()
            invariant
                cs == codecs@.map_values(|c: &str| c@),
                cs == codec_candidates(self.to).0,
                i <= codecs.len(),
                text_views(r@) == cs.subrange(0, i as int).map_values(|c: Seq<char>| c + gpu.encoder_suffix()),
            decreases codecs.len() - i,
        {
            let e = gpu.accelerated_encoder(codecs[i]);
            push_string(&mut r, e);
            assert(cs.subrange(0, i + 1).map_values(|c: Seq<char>| c + gpu.encoder_suffix())
                =~= cs.subrange(0, i as int).map_values(|c: Seq<char>| c + gpu.encoder_suffix()).push(codecs@[i as int]@ + gpu.encoder_suffix()));
            i = i + 1;
        }
        assert(cs.subrange(0, i as int) =~= cs);
        r
    }

    fn encoder_for(&self, cache: &AcceleratorCache) -> (r: String)
        ensures
            r@ == chosen_encoder(*cache, self.to),
    {
        let (codecs, d) = self.candidate_codecs();
        self.accelerated_or_default_codec(cache, &codecs, d)
    }

    /// The encoder arguments for this conversion: the target's codec
    /// arguments, with accelerated encoders where the cache confirms them,
    /// followed by the speed tier's arguments. GIF output uses a palette
    /// filter chain capped at 24 frames per second and no bitrate. A target
    /// that no encoder writes is refused.
    pub fn to_args(&self, speed: &ConversionSpeed, cache: &AcceleratorCache, bitrate: u64, fps: u32) -> (r: Result<Vec<String>, ConversionError>)
        ensures
            match conversion_args(self.to, *speed, *cache, bitrate, fps) {
                Some(a) => r is Ok && text_views(r->Ok_0@) == a,
                None => r == Err::<Vec<String>, ConversionError>(ConversionError::UnsupportedTarget(self.to)),
            },
    {
        let mut args: Vec<String> = Vec::new();
        match self.to {
            ConverterFormat::MP4 | ConverterFormat::MKV | ConverterFormat::MOV
            | ConverterFormat::MTS | ConverterFormat::TS | ConverterFormat::M2TS
            | ConverterFormat::FLV | ConverterFormat::F4V | ConverterFormat::M4V
            | ConverterFormat::ThreeGP | ConverterFormat::ThreeG2 | ConverterFormat::H264 => {
                let encoder = self.encoder_for(cache);
                push_text(&mut args, "-c:v");
                push_string(&mut args, encoder);
                push_text(&mut args, "-c:a");
                push_text(&mut args, "aac");
                push_text(&mut args, "-strict");
                push_text(&mut args, "experimental");
            },
            ConverterFormat::GIF => {
                let shown = if fps < MAX_GIF_FPS { fps } else { MAX_GIF_FPS };
                let filter = String::from_str("fps=").concat(u64_text(shown as u64).as_str()).concat(
                    ",scale=800:-1:flags=lanczos,split[s0][s1];[s0]palettegen=max_colors=64[p];[s1][p]paletteuse=dither=bayer");
                push_text(&mut args, "-filter_complex");
                push_string(&mut args, filter);
            },
            ConverterFormat::WMV => {
                let encoder = self.encoder_for(cache);
                push_text(&mut args, "-c:v");
                push_string(&mut args, encoder);
                push_text(&mut args, "-c:a");
                push_text(&mut args, "wmav2");
            },
            ConverterFormat::WebM => {
                let encoder = self.encoder_for(cache);
                push_text(&mut args, "-c:v");
                push_string(&mut args, encoder);
                push_text(&mut args, "-c:a");
                push_text(&mut args, "libvorbis");
            },
            ConverterFormat::NUT | ConverterFormat::AVI => {
                push_text(&mut args, "-c:v");
                push_text(&mut args, "mpeg4");
                push_text(&mut args, "-c:a");
                push_text(&mut args, "libmp3lame");
            },
            ConverterFormat::MPEG | ConverterFormat::MPG | ConverterFormat::VOB => {
                push_text(&mut args, "-c:v");
                push_text(&mut args, "mpeg2video");
                push_text(&mut args, "-c:a");
                push_text(&mut args, "mp2");
            },
            ConverterFormat::MXF => {
                push_text(&mut args, "-c:v");
                push_text(&mut args, "mpeg2video");
                push_text(&mut args, "-c:a");
                push_text(&mut args, "pcm_s16le");
                push_text(&mut args, "-strict");
                push_text(&mut args, "unofficial");
            },
            ConverterFormat::OGV => {
                push_text(&mut args, "-c:v");
                push_text(&mut args, "libtheora");
                push_text(&mut args, "-c:a");
                push_text(&mut args, "libvorbis");
            },
            ConverterFormat::RM | ConverterFormat::RMVB => {
                return Err(ConversionError::UnsupportedTarget(self.to));
            },
            ConverterFormat::DIVX => {
                push_text(&mut args, "-f");
                push_text(&mut args, "avi");
                push_text(&mut args, "-c:v");
                push_text(&mut args, "mpeg4");
                push_text(&mut args, "-c:a");
                push_text(&mut args, "libmp3lame");
            },
            ConverterFormat::SWF => {
                push_text(&mut args, "-f");
                push_text(&mut args, "swf");
                push_text(&mut args, "-c:v");
                push_text(&mut args, "flv");
                push_text(&mut args, "-c:a");
                push_text(&mut args, "libmp3lame");
                push_text(&mut args, "-b:a");
                push_text(&mut args, "192k");
            },
            ConverterFormat::ASF => {
                push_text(&mut args, "-c:v");
                push_text(&mut args, "msmpeg4v3");
                push_text(&mut args, "-c:a");
                push_text(&mut args, "wmav2");
            },
            ConverterFormat::AMV => {
                push_text(&mut args, "-c:v");
                push_text(&mut args, "amv");
                push_text(&mut args, "-c:a");
                push_text(&mut args, "adpcm_ima_amv");
                push_text(&mut args, "-ac");
                push_text(&mut args, "1");
                push_text(&mut args, "-ar");
                push_text(&mut args, "22050");
                push_text(&mut args, "-r");
                push_text(&mut args, "25");
                push_text(&mut args, "-block_size");
                push_text(&mut args, "882");
            },
        }
        assert(text_views(args@) =~= base_args(self.to, *cache, fps)->0);
        let tail = self.to.conversion_into_args(speed, &cache.gpu(), bitrate);
        append_texts(&mut args, tail);
        Ok(args)
    }
}

} // verus!
