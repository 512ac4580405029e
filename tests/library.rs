use teres::cleanup::{clean_temp, cleanup_plan, Removal};
use teres::command::{Settings, TimeScale};
use teres::paths::{change_file_name, path_extension, path_file_name, path_file_stem, path_join, path_parent};
use teres::progress::{parse_record, ProgressState};
use teres::render::{Render, Rendering};

fn settings() -> Settings {
    Settings {
        quality: 20,
        container: "mkv".to_string(),
        detailed_filename: false,
        gpu: false,
        gpu_type: String::new(),
        custom_ffmpeg_filters: None,
        timescale: TimeScale {
            input_unit: true,
            input_speedup: "1".to_string(),
            output_unit: true,
            output_speed: "1".to_string(),
            adjust_audio_pitch: false,
        },
        interpolation_enabled: false,
        interpolation_fps: "480".to_string(),
        interpolation_program: "svp".to_string(),
        blending_enabled: false,
        blending_output_fps: "60".to_string(),
        blending_amount: "1".to_string(),
    }
}

#[test]
fn change_file_name_keeps_extension() {
    assert_eq!(change_file_name("/a/b/video.mp4", "other"), "/a/b/other.mp4");
    assert_eq!(change_file_name("video.mkv", "x.y"), "x.mkv");
    assert_eq!(change_file_name("/a/noext", "new.txt"), "/a/new.txt");
    assert_eq!(change_file_name("/a/", "n"), "/a/n");
}

#[test]
fn path_parts() {
    assert_eq!(path_file_name("/a/b.c.d"), Some("b.c.d"));
    assert_eq!(path_file_stem("/a/b.c.d"), Some("b.c"));
    assert_eq!(path_extension("/a/b.c.d"), Some("d"));
    assert_eq!(path_extension("/a/.bashrc"), None);
    assert_eq!(path_file_stem("/a/.bashrc"), Some(".bashrc"));
    assert_eq!(path_file_name("/a/.."), None);
    assert_eq!(path_parent("/a/b"), Some("/a".to_string()));
    assert_eq!(path_parent("/b"), Some("/".to_string()));
    assert_eq!(path_parent("b"), Some(String::new()));
    assert_eq!(path_parent(""), None);
    assert_eq!(path_join("/a", "b"), "/a/b");
    assert_eq!(path_join("", "b"), "b");
}

#[test]
fn render_new_builds_output_path() {
    let r = Render::new("/v/clip.mp4".to_string(), false, settings(), "/t/1/s.vpy".to_string()).unwrap();
    assert_eq!(r.video_folder, "/v");
    assert_eq!(r.input_filename, "clip.mp4");
    assert_eq!(r.output_filepath, "/v/clip_blur.mkv");
    assert!(Render::new(String::new(), false, settings(), "s".to_string()).is_none());
    assert!(Render::new("/v/..".to_string(), false, settings(), "s".to_string()).is_none());
}

#[test]
fn renders_equal_by_video() {
    let a = Render::new("/v/clip.mp4".to_string(), false, settings(), "/t/1/s.vpy".to_string()).unwrap();
    let b = Render::new("/v/clip.mp4".to_string(), true, settings(), "/t/2/s.vpy".to_string()).unwrap();
    let c = Render::new("/v/other.mp4".to_string(), false, settings(), "/t/1/s.vpy".to_string()).unwrap();
    assert!(a == b);
    assert!(a != c);
}

#[test]
fn queue_keeps_order_and_empties() {
    let mut q = Rendering::new();
    assert!(q.take_queued().is_empty());
    for name in ["/v/a.mp4", "/v/b.mp4"] {
        q.queue_render(Render::new(name.to_string(), false, settings(), "/t/s.vpy".to_string()).unwrap());
    }
    assert!(q.renders_queued);
    let jobs = q.take_queued();
    assert_eq!(jobs.len(), 2);
    assert_eq!(jobs[0].video_path, "/v/a.mp4");
    assert_eq!(jobs[1].video_path, "/v/b.mp4");
    assert!(q.queue.is_empty());
    assert!(!q.renders_queued);
}

#[test]
fn parse_progress_records() {
    assert_eq!(parse_record(b"Frame: 12/300"), Some((12, 300)));
    assert_eq!(parse_record(b"\nFrame: 5/9 (2.1 fps)"), Some((5, 9)));
    assert_eq!(parse_record(b"Frame: x Frame: 7/8"), Some((7, 8)));
    assert_eq!(parse_record(b"Script evaluation done"), None);
    assert_eq!(parse_record(b"Frame: 12/"), None);
    assert_eq!(parse_record(b"Frame: /12"), None);
    assert_eq!(parse_record(b""), None);
    assert_eq!(parse_record(b"Frame: 99999999999999999999/1"), None);
}

#[test]
fn total_is_set_once_from_first_marker() {
    let mut st = ProgressState::new();
    let u = st.observe(b"Information: loading");
    assert_eq!((u.set_length, u.set_position), (None, None));
    assert_eq!(st.total, None);
    let u = st.observe(b"Frame: 1/100\r");
    assert_eq!((u.set_length, u.set_position), (Some(100), Some(1)));
    let u = st.observe(b"Frame: 2/200\r");
    assert_eq!((u.set_length, u.set_position), (None, Some(2)));
    assert_eq!(st.total, Some(100));
    let u = st.observe(b"Frame: 1/100\r");
    assert_eq!(u.set_position, Some(1));
    assert_eq!(st.position, 1);
}

#[test]
fn scenario_e_cleanup_removal() {
    let plan = cleanup_plan("/v/clip.mp4", "/tmp/teres/x1/script.vpy").unwrap();
    assert_eq!(plan.removal(1), Removal::Directory("/tmp/teres/x1".to_string()));
    assert_eq!(plan.removal(2), Removal::File("/tmp/teres/x1/script.vpy".to_string()));
    assert_eq!(plan.index_file, "/v/clip.mp4.ffindex");
    assert!(cleanup_plan("/v/clip.mp4", "").is_none());
}

#[test]
fn clean_temp_plans_each_render() {
    let a = Render::new("clip.mp4".to_string(), false, settings(), "/t/a/s.vpy".to_string()).unwrap();
    let b = Render::new("/v/b.mp4".to_string(), false, settings(), String::new()).unwrap();
    let plans = clean_temp(&vec![a, b]);
    assert_eq!(plans.len(), 2);
    let p = plans[0].as_ref().unwrap();
    assert_eq!(p.index_file, "clip.mp4.ffindex");
    assert_eq!(p.temp_dir, "/t/a");
    assert!(plans[1].is_none());
}
