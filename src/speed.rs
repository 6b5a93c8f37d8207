//! Speed tiers: the encoder tuning knob each tier selects and the bitrate
//! multiplier it applies.

use vstd::prelude::*;
use crate::format::ConverterFormat;
use crate::gpu::ConverterGPU;
use crate::text::{decimal, push_string, push_text, text_views, u64_text};

verus! {

/// How much encoding effort a conversion may spend, fastest first.
#[derive(Clone, Copy, Debug, PartialEq, Eq, Structural)]
pub enum ConversionSpeed {
    UltraFast,
    Fast,
    Medium,
    Slow,
    Slower,
    VerySlow,
}

/// How a target format's encoder is tuned for speed.
pub enum Tuning {
    /// A named preset (`-preset`).
    Preset,
    /// A numeric effort level from 4 down to -1 (`-speed`).
    VpxSpeed,
    /// A numeric effort level from 2 down to 0 (`-speed`).
    TheoraSpeed,
    /// No speed setting.
    Untuned,
}

pub open spec fn tuning_of(to: ConverterFormat) -> Tuning {
    match to {
        ConverterFormat::MP4 | ConverterFormat::MKV | ConverterFormat::MOV | ConverterFormat::MTS
        | ConverterFormat::TS | ConverterFormat::M2TS | ConverterFormat::FLV | ConverterFormat::F4V
        | ConverterFormat::M4V | ConverterFormat::ThreeGP | ConverterFormat::ThreeG2
        | ConverterFormat::H264 | ConverterFormat::DIVX => Tuning::Preset,
        ConverterFormat::WebM | ConverterFormat::AVI | ConverterFormat::NUT => Tuning::VpxSpeed,
        ConverterFormat::OGV => Tuning::TheoraSpeed,
        _ => Tuning::Untuned,
    }
}

/// The bitrate scaled by a multiplier in thousandths, saturating at `u64::MAX`.
pub open spec fn scaled_bitrate(bitrate: u64, permille: u64) -> u64 {
    let v = bitrate as nat * permille as nat / 1000;
    if v > u64::MAX {
        u64::MAX
    } else {
        v as u64
    }
}

impl ConversionSpeed {
    /// The position of the tier, 0 for the fastest and 5 for the slowest.
    pub open spec fn tier(self) -> nat {
        match self {
            ConversionSpeed::UltraFast => 0,
            ConversionSpeed::Fast => 1,
            ConversionSpeed::Medium => 2,
            ConversionSpeed::Slow => 3,
            ConversionSpeed::Slower => 4,
            ConversionSpeed::VerySlow => 5,
        }
    }

    /// The bitrate multiplier of the tier, in thousandths.
    pub open spec fn bitrate_permille(self) -> u64 {
        match self {
            ConversionSpeed::UltraFast => 880,
            ConversionSpeed::Fast => 940,
            ConversionSpeed::Medium => 1000,
            ConversionSpeed::Slow => 1060,
            ConversionSpeed::Slower => 1120,
            ConversionSpeed::VerySlow => 1180,
        }
    }

    /// The preset name for this tier on the given vendor's encoders. NVIDIA's
    /// encoders know only three presets, so two tiers share each.
    pub open spec fn preset_name(self, gpu: ConverterGPU) -> Seq<char> {
        match gpu {
            ConverterGPU::NVIDIA => match self {
                ConversionSpeed::VerySlow | ConversionSpeed::Slower => "slow"@,
                ConversionSpeed::Slow | ConversionSpeed::Medium => "medium"@,
                ConversionSpeed::Fast | ConversionSpeed::UltraFast => "fast"@,
            },
            _ => match self {
                ConversionSpeed::UltraFast => "ultrafast"@,
                ConversionSpeed::Fast => "fast"@,
                ConversionSpeed::Medium => "medium"@,
                ConversionSpeed::Slow => "slow"@,
                ConversionSpeed::Slower => "slower"@,
                ConversionSpeed::VerySlow => "veryslow"@,
            },
        }
    }

    pub open spec fn vpx_level(self) -> Seq<char> {
        match self {
            ConversionSpeed::UltraFast => "4"@,
            ConversionSpeed::Fast => "3"@,
            ConversionSpeed::Medium => "2"@,
            ConversionSpeed::Slow => "1"@,
            ConversionSpeed::Slower => "0"@,
            ConversionSpeed::VerySlow => "-1"@,
        }
    }

    pub open spec fn theora_level(self) -> Seq<char> {
        match self {
            ConversionSpeed::UltraFast | ConversionSpeed::Fast => "2"@,
            ConversionSpeed::Medium | ConversionSpeed::Slow => "1"@,
            ConversionSpeed::Slower | ConversionSpeed::VerySlow => "0"@,
        }
    }

    /// The speed arguments for `to`, without the bitrate.
    pub open spec fn tuning_args(self, to: ConverterFormat, gpu: ConverterGPU) -> Seq<Seq<char>> {
        match tuning_of(to) {
            Tuning::Preset => seq!["-preset"@, self.preset_name(gpu)],
            Tuning::VpxSpeed => seq!["-speed"@, self.vpx_level()],
            Tuning::TheoraSpeed => seq!["-speed"@, self.theora_level()],
            Tuning::Untuned => seq![],
        }
    }

    /// The bitrate arguments for `to`: none for GIF, else the source bitrate
    /// scaled by the tier's multiplier.
    pub open spec fn bitrate_args(self, to: ConverterFormat, bitrate: u64) -> Seq<Seq<char>> {
        if to == ConverterFormat::GIF {
            seq![]
        } else {
            seq!["-b:v"@, decimal(scaled_bitrate(bitrate, self.bitrate_permille()) as nat)]
        }
    }

    pub open spec fn speed_args(self, to: ConverterFormat, gpu: ConverterGPU, bitrate: u64) -> Seq<
        Seq<char>,
    > {
        self.tuning_args(to, gpu) + self.bitrate_args(to, bitrate)
    }

    /// The bitrate multiplier of the tier, in thousandths (880 is 0.88).
    pub fn to_bitrate_mul(&self) -> (r: u64)
        ensures
            r == self.bitrate_permille(),
            880 <= r <= 1180,
    {
        match self {
            ConversionSpeed::UltraFast => 880,
            ConversionSpeed::Fast => 940,
            ConversionSpeed::Medium => 1000,
            ConversionSpeed::Slow => 1060,
            ConversionSpeed::Slower => 1120,
            ConversionSpeed::VerySlow => 1180,
        }
    }

    fn preset_str(&self, gpu: &ConverterGPU) -> (r: &'static str)
        ensures
            r@ == self.preset_name(*gpu),
    {
        match gpu {
            ConverterGPU::NVIDIA => match self {
                ConversionSpeed::VerySlow | ConversionSpeed::Slower => "slow",
                ConversionSpeed::Slow | ConversionSpeed::Medium => "medium",
                ConversionSpeed::Fast | ConversionSpeed::UltraFast => "fast",
            },
            _ => match self {
                ConversionSpeed::UltraFast => "ultrafast",
                ConversionSpeed::Fast => "fast",
                ConversionSpeed::Medium => "medium",
                ConversionSpeed::Slow => "slow",
                ConversionSpeed::Slower => "slower",
                ConversionSpeed::VerySlow => "veryslow",
            },
        }
    }

    fn vpx_str(&self) -> (r: &'static str)
        ensures
            r@ == self.vpx_level(),
    {
        match self {
            ConversionSpeed::UltraFast => "4",
            ConversionSpeed::Fast => "3",
            ConversionSpeed::Medium => "2",
            ConversionSpeed::Slow => "1",
            ConversionSpeed::Slower => "0",
            ConversionSpeed::VerySlow => "-1",
        }
    }

    fn theora_str(&self) -> (r: &'static str)
        ensures
            r@ == self.theora_level(),
    {
        match self {
            ConversionSpeed::UltraFast | ConversionSpeed::Fast => "2",
            ConversionSpeed::Medium | ConversionSpeed::Slow => "1",
            ConversionSpeed::Slower | ConversionSpeed::VerySlow => "0",
        }
    }

    /// The source bitrate scaled by this tier's multiplier.
    pub fn scale_bitrate(&self, bitrate: u64) -> (r: u64)
        ensures
            r == scaled_bitrate(bitrate, self.bitrate_permille()),
    {
        let m = self.to_bitrate_mul();
        assert((bitrate as nat) * (m as nat) <= 0xffff_ffff_ffff_ffffnat * 1180) by (nonlinear_arith)
            requires
                m <= 1180,
        ;
        let v: u128 = (bitrate as u128) * (m as u128) / 1000;
        if v > 0xffff_ffff_ffff_ffffu128 {
            0xffff_ffff_ffff_ffffu64
        } else {
            v as u64
        }
    }

    /// The encoder arguments that this tier adds for target `to`: its tuning
    /// knob, then (but for GIF) the scaled video bitrate.
    pub fn to_args(&self, to: &ConverterFormat, gpu: &ConverterGPU, bitrate: u64) -> (r: Vec<String>)
        ensures
            text_views(r@) == self.speed_args(*to, *gpu, bitrate),
    {
        let mut args: Vec<String> = Vec::new();
        match to {
            ConverterFormat::MP4 | ConverterFormat::MKV | ConverterFormat::MOV
            | ConverterFormat::MTS | ConverterFormat::TS | ConverterFormat::M2TS
            | ConverterFormat::FLV | ConverterFormat::F4V | ConverterFormat::M4V
            | ConverterFormat::ThreeGP | ConverterFormat::ThreeG2 | ConverterFormat::H264
            | ConverterFormat::DIVX => {
                push_text(&mut args, "-preset");
                push_text(&mut args, self.preset_str(gpu));
            },
            ConverterFormat::WebM | ConverterFormat::AVI | ConverterFormat::NUT => {
                push_text(&mut args, "-speed");
                push_text(&mut args, self.vpx_str());
            },
            ConverterFormat::OGV => {
                push_text(&mut args, "-speed");
                push_text(&mut args, self.theora_str());
            },
            _ => {},
        }
        assert(text_views(args@) =~= self.tuning_args(*to, *gpu));
        let ghost tuned = text_views(args@);
        if *to != ConverterFormat::GIF {
            push_text(&mut args, "-b:v");
            push_string(&mut args, u64_text(self.scale_bitrate(bitrate)));
        }
        assert(text_views(args@) =~= tuned + self.bitrate_args(*to, bitrate));
        args
    }
}

/// The bitrate multiplier never falls as the tier gets slower, and stays
/// between 0.88 and 1.18.
pub proof fn bitrate_mul_monotone(faster: ConversionSpeed, slower: ConversionSpeed)
    requires
        faster.tier() <= slower.tier(),
    ensures
        faster.bitrate_permille() <= slower.bitrate_permille(),
        880 <= faster.bitrate_permille() <= 1180,
        880 <= slower.bitrate_permille() <= 1180,
{
}

} // verus!
