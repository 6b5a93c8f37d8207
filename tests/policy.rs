use vertd::format::{Conversion, ConversionError, ConverterFormat};
use vertd::gpu::{forced_gpu, gpu_from_lower, parse_gpu, AcceleratorCache, ConverterGPU};
use vertd::speed::ConversionSpeed;
use vertd::text::{parse_u64, trim_ws, u64_text};

fn strs(v: &[&str]) -> Vec<String> {
    v.iter().map(|s| s.to_string()).collect()
}

#[test]
fn gif_args_clamp_frame_rate_and_have_no_bitrate() {
    let cache = AcceleratorCache::new(ConverterGPU::NVIDIA);
    let conv = Conversion::new(ConverterFormat::MP4, ConverterFormat::GIF);
    let args = conv.to_args(&ConversionSpeed::Fast, &cache, 4_000_000, 60).unwrap();
    assert_eq!(
        args,
        strs(&[
            "-filter_complex",
            "fps=24,scale=800:-1:flags=lanczos,split[s0][s1];[s0]palettegen=max_colors=64[p];[s1][p]paletteuse=dither=bayer",
        ])
    );
    assert!(!args.iter().any(|a| a == "-b:v"));
}

#[test]
fn gif_keeps_a_low_frame_rate() {
    let cache = AcceleratorCache::new(ConverterGPU::Intel);
    let conv = Conversion::new(ConverterFormat::MP4, ConverterFormat::GIF);
    let args = conv.to_args(&ConversionSpeed::Medium, &cache, 1000, 12).unwrap();
    assert!(args[1].starts_with("fps=12,scale"));
}

#[test]
fn rmvb_and_rm_are_unsupported() {
    let cache = AcceleratorCache::new(ConverterGPU::AMD);
    for to in [ConverterFormat::RMVB, ConverterFormat::RM] {
        let conv = Conversion::new(ConverterFormat::MP4, to);
        assert_eq!(
            conv.to_args(&ConversionSpeed::Medium, &cache, 1000, 30),
            Err(ConversionError::UnsupportedTarget(to))
        );
    }
    assert_eq!(
        ConversionError::UnsupportedTarget(ConverterFormat::RM).message(),
        "Encoding to RM/RMVB is not supported"
    );
}

#[test]
fn mp4_software_encoder_with_preset_and_bitrate() {
    let cache = AcceleratorCache::new(ConverterGPU::Intel);
    let conv = Conversion::new(ConverterFormat::MKV, ConverterFormat::MP4);
    let args = conv.to_args(&ConversionSpeed::Fast, &cache, 1_000_000, 30).unwrap();
    assert_eq!(
        args,
        strs(&["-c:v", "libx264", "-c:a", "aac", "-strict", "experimental", "-preset", "fast", "-b:v", "940000"])
    );
}

#[test]
fn mp4_uses_confirmed_accelerator() {
    let mut cache = AcceleratorCache::new(ConverterGPU::NVIDIA);
    cache.record("h264_nvenc".to_string(), true);
    let conv = Conversion::new(ConverterFormat::MOV, ConverterFormat::MP4);
    let args = conv.to_args(&ConversionSpeed::VerySlow, &cache, 1000, 30).unwrap();
    assert_eq!(
        args,
        strs(&["-c:v", "h264_nvenc", "-c:a", "aac", "-strict", "experimental", "-preset", "slow", "-b:v", "1180"])
    );
}

#[test]
fn webm_falls_back_along_the_chain() {
    let mut cache = AcceleratorCache::new(ConverterGPU::Intel);
    cache.record("av1_qsv".to_string(), false);
    cache.record("vp9_qsv".to_string(), true);
    let conv = Conversion::new(ConverterFormat::MP4, ConverterFormat::WebM);
    let args = conv.to_args(&ConversionSpeed::UltraFast, &cache, 2000, 30).unwrap();
    assert_eq!(args, strs(&["-c:v", "vp9_qsv", "-c:a", "libvorbis", "-speed", "4", "-b:v", "1760"]));
    let none = AcceleratorCache::new(ConverterGPU::Intel);
    let args = conv.to_args(&ConversionSpeed::VerySlow, &none, 2000, 30).unwrap();
    assert_eq!(args, strs(&["-c:v", "libvpx", "-c:a", "libvorbis", "-speed", "-1", "-b:v", "2360"]));
}

#[test]
fn accelerated_candidates_follow_probe_order() {
    let conv = Conversion::new(ConverterFormat::MP4, ConverterFormat::WebM);
    assert_eq!(
        conv.accelerated_candidates(&ConverterGPU::AMD),
        strs(&["av1_vaapi", "vp9_vaapi", "vp8_vaapi"])
    );
    let wmv = Conversion::new(ConverterFormat::MP4, ConverterFormat::WMV);
    assert_eq!(wmv.accelerated_candidates(&ConverterGPU::Apple), strs(&["wmv2_videotoolbox", "wmv3_videotoolbox"]));
}

#[test]
fn policy_is_deterministic_for_equal_inputs() {
    let mut a = AcceleratorCache::new(ConverterGPU::NVIDIA);
    let mut b = AcceleratorCache::new(ConverterGPU::NVIDIA);
    a.record("h264_nvenc".to_string(), true);
    b.record("h264_nvenc".to_string(), true);
    for to in [ConverterFormat::MP4, ConverterFormat::WebM, ConverterFormat::GIF, ConverterFormat::AMV] {
        let conv = Conversion::new(ConverterFormat::MKV, to);
        assert_eq!(
            conv.to_args(&ConversionSpeed::Slow, &a, 123_456, 30),
            conv.to_args(&ConversionSpeed::Slow, &b, 123_456, 30)
        );
    }
}

#[test]
fn fixed_codec_formats() {
    let cache = AcceleratorCache::new(ConverterGPU::Intel);
    let amv = Conversion::new(ConverterFormat::MP4, ConverterFormat::AMV);
    assert_eq!(
        amv.to_args(&ConversionSpeed::Fast, &cache, 1000, 30).unwrap(),
        strs(&[
            "-c:v", "amv", "-c:a", "adpcm_ima_amv", "-ac", "1", "-ar", "22050", "-r", "25", "-block_size", "882",
            "-b:v", "940",
        ])
    );
    let ogv = Conversion::new(ConverterFormat::MP4, ConverterFormat::OGV);
    assert_eq!(
        ogv.to_args(&ConversionSpeed::Slow, &cache, 1000, 30).unwrap(),
        strs(&["-c:v", "libtheora", "-c:a", "libvorbis", "-speed", "1", "-b:v", "1060"])
    );
    let divx = Conversion::new(ConverterFormat::MP4, ConverterFormat::DIVX);
    assert_eq!(
        divx.to_args(&ConversionSpeed::Medium, &cache, 1000, 30).unwrap(),
        strs(&["-f", "avi", "-c:v", "mpeg4", "-c:a", "libmp3lame", "-preset", "medium", "-b:v", "1000"])
    );
}

#[test]
fn nvidia_collapses_presets() {
    assert_eq!(ConverterFormat::MP4.conversion_into_args(&ConversionSpeed::Slower, &ConverterGPU::NVIDIA, 1000)[1], "slow");
    assert_eq!(ConverterFormat::MP4.conversion_into_args(&ConversionSpeed::Medium, &ConverterGPU::NVIDIA, 1000)[1], "medium");
    assert_eq!(ConverterFormat::MP4.conversion_into_args(&ConversionSpeed::UltraFast, &ConverterGPU::NVIDIA, 1000)[1], "fast");
    assert_eq!(ConverterFormat::MP4.conversion_into_args(&ConversionSpeed::Slower, &ConverterGPU::AMD, 1000)[1], "slower");
}

#[test]
fn untuned_formats_only_get_bitrate() {
    assert_eq!(
        ConverterFormat::MXF.conversion_into_args(&ConversionSpeed::Fast, &ConverterGPU::AMD, 1000),
        strs(&["-b:v", "940"])
    );
    assert!(ConverterFormat::GIF.conversion_into_args(&ConversionSpeed::Fast, &ConverterGPU::AMD, 1000).is_empty());
}

#[test]
fn bitrate_multiplier_rises_with_slower_tiers() {
    let tiers = [
        ConversionSpeed::UltraFast,
        ConversionSpeed::Fast,
        ConversionSpeed::Medium,
        ConversionSpeed::Slow,
        ConversionSpeed::Slower,
        ConversionSpeed::VerySlow,
    ];
    let muls: Vec<u64> = tiers.iter().map(|t| t.to_bitrate_mul()).collect();
    assert_eq!(muls, vec![880, 940, 1000, 1060, 1120, 1180]);
    for w in muls.windows(2) {
        assert!(w[0] <= w[1]);
    }
}

#[test]
fn scaled_bitrate_saturates() {
    assert_eq!(ConversionSpeed::VerySlow.scale_bitrate(u64::MAX), u64::MAX);
    assert_eq!(ConversionSpeed::UltraFast.scale_bitrate(1_000_000), 880_000);
    assert_eq!(ConversionSpeed::Medium.scale_bitrate(0), 0);
}

#[test]
fn format_names_round_trip() {
    assert_eq!(ConverterFormat::parse("mp4"), Some(ConverterFormat::MP4));
    assert_eq!(ConverterFormat::parse("3gp"), Some(ConverterFormat::ThreeGP));
    assert_eq!(ConverterFormat::parse("3g2"), Some(ConverterFormat::ThreeG2));
    assert_eq!(ConverterFormat::parse("rmvb"), Some(ConverterFormat::RMVB));
    assert_eq!(ConverterFormat::parse("MP4"), None);
    assert_eq!(ConverterFormat::parse("png"), None);
    assert_eq!(ConverterFormat::parse(""), None);
    for f in [ConverterFormat::WebM, ConverterFormat::M2TS, ConverterFormat::NUT, ConverterFormat::ThreeG2] {
        assert_eq!(ConverterFormat::parse(f.name()), Some(f));
    }
    assert!(!ConverterFormat::RMVB.supports_target());
    assert!(ConverterFormat::GIF.supports_target());
}

#[test]
fn gpu_names_ignore_case() {
    assert_eq!(parse_gpu("NVIDIA"), Ok(ConverterGPU::NVIDIA));
    assert_eq!(parse_gpu("Amd"), Ok(ConverterGPU::AMD));
    assert_eq!(parse_gpu("intel"), Ok(ConverterGPU::Intel));
    assert_eq!(parse_gpu("apple"), Ok(ConverterGPU::Apple));
    assert_eq!(parse_gpu("Voodoo"), Err("Voodoo. Valid options: amd, intel, nvidia, apple".to_string()));
}

#[test]
fn forced_gpu_prefers_arguments_then_environment() {
    let args = strs(&["vertd", "--gpu", "Intel"]);
    assert_eq!(forced_gpu(&args, Some("nvidia")), Some(ConverterGPU::Intel));
    let bad = strs(&["vertd", "-gpu", "nope"]);
    assert_eq!(forced_gpu(&bad, Some("apple")), Some(ConverterGPU::Apple));
    let missing = strs(&["vertd", "-gpu"]);
    assert_eq!(forced_gpu(&missing, None), None);
    assert_eq!(forced_gpu(&strs(&["vertd"]), Some("bogus")), None);
    assert_eq!(forced_gpu(&strs(&["vertd"]), None), None);
}

#[test]
fn accelerator_cache_keeps_first_result() {
    let mut cache = AcceleratorCache::new(ConverterGPU::AMD);
    assert_eq!(cache.lookup("h264_vaapi"), None);
    assert!(!cache.is_available("h264_vaapi"));
    cache.record("h264_vaapi".to_string(), true);
    cache.record("h264_vaapi".to_string(), false);
    assert_eq!(cache.lookup("h264_vaapi"), Some(true));
    assert!(cache.is_available("h264_vaapi"));
    assert_eq!(cache.gpu(), ConverterGPU::AMD);
    assert_eq!(ConverterGPU::NVIDIA.accelerated_encoder("h264"), "h264_nvenc");
}

#[test]
fn decimal_text_and_parsing() {
    assert_eq!(u64_text(0), "0");
    assert_eq!(u64_text(9_400_000), "9400000");
    assert_eq!(u64_text(u64::MAX), "18446744073709551615");
    assert_eq!(parse_u64("18446744073709551615"), Some(u64::MAX));
    assert_eq!(parse_u64("18446744073709551616"), None);
    assert_eq!(parse_u64("12a"), None);
    assert_eq!(parse_u64(""), None);
    assert_eq!(parse_u64("+17"), Some(17));
    assert_eq!(parse_u64("++1"), None);
    assert_eq!(trim_ws("\u{a0} 9 \u{3000}"), "9");
    assert_eq!(trim_ws("  42\n"), "42");
    assert_eq!(trim_ws(" \t "), "");
}

#[test]
fn gpu_from_lower_names() {
    assert_eq!(gpu_from_lower("nvidia"), Some(ConverterGPU::NVIDIA));
    assert_eq!(gpu_from_lower("apple"), Some(ConverterGPU::Apple));
    assert_eq!(gpu_from_lower("NVIDIA"), None);
    assert_eq!(gpu_from_lower(""), None);
}
