use teres::command::{
    build_audio_filter, build_ffmpeg_command, decimal_text, eq_ignore_case, gpu_vendor, resolve_output_form,
    CommandError, OutputForm, Settings, TimeScale, Vendor,
};

fn unit_scale() -> TimeScale {
    TimeScale {
        input_unit: true,
        input_speedup: "1".to_string(),
        output_unit: true,
        output_speed: "1".to_string(),
        adjust_audio_pitch: false,
    }
}

fn settings() -> Settings {
    Settings {
        quality: 20,
        container: "mp4".to_string(),
        detailed_filename: false,
        gpu: false,
        gpu_type: "nvidia".to_string(),
        custom_ffmpeg_filters: None,
        timescale: unit_scale(),
        interpolation_enabled: true,
        interpolation_fps: "480".to_string(),
        interpolation_program: "svp".to_string(),
        blending_enabled: true,
        blending_output_fps: "60".to_string(),
        blending_amount: "1".to_string(),
    }
}

fn args_of(s: &Settings, stdout: bool) -> Vec<String> {
    build_ffmpeg_command("/tmp/t/script.vpy", "/v/in.mp4", "/v/in_blur.mp4", s, stdout, None)
        .ok()
        .unwrap()
        .ffmpeg_args
}

fn contains_run(args: &[String], run: &[&str]) -> bool {
    args.windows(run.len()).any(|w| w.iter().zip(run.iter()).all(|(a, b)| a == b))
}

#[test]
fn scenario_a_output_scale_uses_atempo() {
    let ts = TimeScale {
        output_unit: false,
        output_speed: "2".to_string(),
        ..unit_scale()
    };
    assert_eq!(build_audio_filter(&ts), "atempo=2");
    let s = Settings { timescale: ts, ..settings() };
    assert!(contains_run(&args_of(&s, false), &["-af", "atempo=2"]));
}

#[test]
fn scenario_b_input_scale_uses_asetrate() {
    let ts = TimeScale {
        input_unit: false,
        input_speedup: "2".to_string(),
        ..unit_scale()
    };
    assert_eq!(build_audio_filter(&ts), "asetrate=48000*2");
}

#[test]
fn both_scales_join_filters_with_comma() {
    let ts = TimeScale {
        input_unit: false,
        input_speedup: "2".to_string(),
        output_unit: false,
        output_speed: "1.5".to_string(),
        adjust_audio_pitch: true,
    };
    assert_eq!(build_audio_filter(&ts), "asetrate=48000*2,asetrate=48000*1.5");
}

#[test]
fn scenario_c_nvidia_encoder_flags() {
    let s = Settings { gpu: true, gpu_type: "NVIDIA".to_string(), ..settings() };
    let args = args_of(&s, false);
    assert!(contains_run(&args, &["-c:v", "h264_nvenc", "-preset", "p7", "-qp", "20"]));
}

#[test]
fn amd_and_intel_encoder_flags() {
    let amd = Settings { gpu: true, gpu_type: "Amd".to_string(), quality: 7, ..settings() };
    assert!(contains_run(
        &args_of(&amd, false),
        &["-c:v", "h264_amf", "-qp_i", "7", "-qp_b", "7", "-qp_p", "7", "-quality", "quality"]
    ));
    let intel = Settings { gpu: true, gpu_type: "intel".to_string(), ..settings() };
    assert!(contains_run(
        &args_of(&intel, false),
        &["-c:v", "h264_qsv", "-global_quality", "20", "-preset", "veryslow"]
    ));
}

#[test]
fn unknown_vendor_gives_no_video_codec() {
    let s = Settings { gpu: true, gpu_type: "matrox".to_string(), ..settings() };
    let args = args_of(&s, false);
    assert!(!args.iter().any(|a| a == "-c:v"));
    assert!(contains_run(&args, &["-c:a", "aac", "-b:a", "320k", "-movflags", "+faststart"]));
    assert_eq!(gpu_vendor("matrox"), Vendor::Unknown);
}

#[test]
fn scenario_d_stdout_without_gpu() {
    let s = settings();
    let s = Settings { detailed_filename: false, ..s };
    let cmd = build_ffmpeg_command("/tmp/t/script.vpy", "/v/in.mp4", "/v/in_blur.mp4", &s, true, None)
        .ok()
        .unwrap();
    assert!(contains_run(&cmd.ffmpeg_args, &["-c:v", "rawvideo"]));
    assert!(!cmd.ffmpeg_args.iter().any(|a| a == "-crf"));
    let n = cmd.ffmpeg_args.len();
    assert_eq!(&cmd.ffmpeg_args[n - 3..], &["-f", "nut", "-"]);
    assert_eq!(cmd.output_filename, "-");
}

#[test]
fn software_encoder_to_file() {
    let cmd = build_ffmpeg_command("/tmp/t/script.vpy", "/v/in.mp4", "/v/in_blur.mp4", &settings(), false, None)
        .ok()
        .unwrap();
    let expected: Vec<&str> = vec![
        "-loglevel", "error", "-hide_banner", "-nostats", "-i", "-", "-i", "/v/in.mp4", "-map",
        "0:v", "-map", "1:a?", "-c:v", "libx264", "-preset", "superfast", "-crf", "20", "-c:a",
        "aac", "-b:a", "320k", "-movflags", "+faststart", "/v/in_blur.mp4",
    ];
    assert_eq!(cmd.ffmpeg_args, expected);
    assert_eq!(cmd.vspipe_args, vec!["/tmp/t/script.vpy", "-", "-p", "-c", "y4m"]);
    assert_eq!(cmd.vspipe_exe, "vspipe");
    assert_eq!(cmd.ffmpeg_exe, "ffmpeg");
    assert_eq!(cmd.output_filename, "/v/in_blur.mp4");
}

#[test]
fn bundled_executables() {
    let cmd = build_ffmpeg_command("s.vpy", "/v/in.mp4", "/v/o.mp4", &settings(), false, Some("C:/teres"))
        .ok()
        .unwrap();
    assert_eq!(cmd.vspipe_exe, "C:/teres/lib/vapoursynth/VSPipe.exe");
    assert_eq!(cmd.ffmpeg_exe, "C:/teres/lib/ffmpeg/ffmpeg.exe");
}

#[test]
fn unit_scales_have_no_audio_filter() {
    let args = args_of(&settings(), false);
    assert!(!args.iter().any(|a| a == "-af"));
}

#[test]
fn custom_filters_drop_encoder_flags() {
    for gpu in [false, true] {
        let s = Settings { gpu, custom_ffmpeg_filters: Some("hqdn3d".to_string()), ..settings() };
        for stdout in [false, true] {
            let args = args_of(&s, stdout);
            for flag in ["-c:v", "-crf", "-qp", "-c:a", "-movflags"] {
                assert!(!args.iter().any(|a| a == flag));
            }
        }
    }
}

#[test]
fn vendor_case_does_not_matter() {
    let a = Settings { gpu: true, gpu_type: "nvidia".to_string(), ..settings() };
    let b = Settings { gpu: true, gpu_type: "NvIdIa".to_string(), ..settings() };
    assert_eq!(args_of(&a, false), args_of(&b, false));
    assert_eq!(gpu_vendor("AMD"), Vendor::Amd);
    assert_eq!(gpu_vendor("InTeL"), Vendor::Intel);
    assert!(eq_ignore_case("NVIDIA", "nvidia"));
    assert!(!eq_ignore_case("nvidiaa", "nvidia"));
}

#[test]
fn output_forms_are_exclusive() {
    let detailed = Settings { detailed_filename: true, ..settings() };
    assert_eq!(resolve_output_form(&detailed, true), OutputForm::Detailed);
    assert_eq!(resolve_output_form(&settings(), true), OutputForm::Stream);
    assert_eq!(resolve_output_form(&settings(), false), OutputForm::Plain);
    let no_blend = Settings { detailed_filename: true, blending_enabled: false, ..settings() };
    assert_eq!(resolve_output_form(&no_blend, false), OutputForm::Plain);
}

#[test]
fn detailed_filename_embeds_parameters() {
    let s = Settings { detailed_filename: true, ..settings() };
    let cmd = build_ffmpeg_command("s.vpy", "/v/in.mp4", "/v/in_blur.mp4", &s, true, None)
        .ok()
        .unwrap();
    assert_eq!(cmd.output_filename, "/v/in_blur-480fps-svp~60fps-1.mp4");
    assert_eq!(cmd.ffmpeg_args.last().unwrap(), "/v/in_blur-480fps-svp~60fps-1.mp4");
    assert!(!cmd.ffmpeg_args.iter().any(|a| a == "nut"));
}

#[test]
fn detailed_filename_without_stem_is_malformed() {
    let s = Settings { detailed_filename: true, ..settings() };
    let r = build_ffmpeg_command("s.vpy", "/v/in.mp4", "/v/", &s, false, None);
    assert_eq!(r.err(), Some(CommandError::MalformedPath));
}

#[test]
fn detailed_filename_keeps_dotted_parameters() {
    let s = Settings { detailed_filename: true, blending_amount: "0.5".to_string(), ..settings() };
    let cmd = build_ffmpeg_command("s.vpy", "/v/in.mp4", "/v/in_blur.mp4", &s, false, None)
        .ok()
        .unwrap();
    assert_eq!(cmd.output_filename, "/v/in_blur-480fps-svp~60fps-0.5.mp4");
    assert_eq!(cmd.ffmpeg_args.last().unwrap(), "/v/in_blur-480fps-svp~60fps-0.5.mp4");
}

#[test]
fn detailed_filename_without_extension() {
    let s = Settings { detailed_filename: true, ..settings() };
    let cmd = build_ffmpeg_command("s.vpy", "/v/in.mp4", "/v/out", &s, false, None)
        .ok()
        .unwrap();
    assert_eq!(cmd.output_filename, "/v/out-480fps-svp~60fps-1");
}

#[test]
fn decimal_text_digits() {
    assert_eq!(decimal_text(0), "0");
    assert_eq!(decimal_text(9), "9");
    assert_eq!(decimal_text(10), "10");
    assert_eq!(decimal_text(1907), "1907");
    assert_eq!(decimal_text(u64::MAX), u64::MAX.to_string());
}
