//! The two command lines of a render: the frame server that streams the
//! script's frames as y4m, and the encoder that reads them from its standard
//! input together with the source file's audio.
use vstd::prelude::*;
use crate::paths::{extension, file_stem, path_extension, path_file_stem, path_with_file_name, with_file_name};

verus! {

/// Audio time-scale settings. The scale factors themselves are floating-point
/// values held by the caller; the library sees whether each equals one, and
/// the decimal text that the filters embed.
#[derive(Clone, Debug)]
pub struct TimeScale {
    /// The input scale is exactly one.
    pub input_unit: bool,
    /// Decimal text of the reciprocal of the input scale.
    pub input_speedup: String,
    /// The output scale is exactly one.
    pub output_unit: bool,
    /// Decimal text of the output scale.
    pub output_speed: String,
    pub adjust_audio_pitch: bool,
}

/// What the command builder reads of the render settings.
#[derive(Clone, Debug)]
pub struct Settings {
    pub quality: u64,
    pub container: String,
    pub detailed_filename: bool,
    pub gpu: bool,
    pub gpu_type: String,
    pub custom_ffmpeg_filters: Option<String>,
    pub timescale: TimeScale,
    pub interpolation_enabled: bool,
    pub interpolation_fps: String,
    pub interpolation_program: String,
    pub blending_enabled: bool,
    pub blending_output_fps: String,
    pub blending_amount: String,
}

/// Executables and argument lists of both processes, and the name the
/// output ends up under.
pub struct CommandWithArgs {
    pub ffmpeg_exe: String,
    pub ffmpeg_args: Vec<String>,
    pub vspipe_exe: String,
    pub vspipe_args: Vec<String>,
    pub output_filename: String,
}

#[derive(Clone, Copy, Debug, PartialEq, Eq, Structural)]
pub enum CommandError {
    /// The output path has no file name to build a detailed name from.
    MalformedPath,
}

#[derive(Clone, Copy, Debug, PartialEq, Eq, Structural)]
pub enum Vendor {
    Nvidia,
    Amd,
    Intel,
    Unknown,
}

#[derive(Clone, Copy, Debug, PartialEq, Eq, Structural)]
pub enum OutputForm {
    /// The output file's name carries the interpolation and blending settings.
    Detailed,
    /// The encoder writes a nut stream to its standard output.
    Stream,
    /// The output path as it was given.
    Plain,
}

pub open spec fn texts(v: Seq<String>) -> Seq<Seq<char>> {
    v.map_values(|s: String| s@)
}

pub open spec fn digit(d: nat) -> char {
    seq!['0', '1', '2', '3', '4', '5', '6', '7', '8', '9'][d as int]
}

/// Decimal digits of `n`, without sign or leading zeros.
pub open spec fn decimal(n: nat) -> Seq<char>
    decreases n,
{
    if n < 10 {
        seq![digit(n)]
    } else {
        decimal(n / 10).push(digit(n % 10))
    }
}

/// The code of a character with ASCII upper-case letters folded to lower case.
pub open spec fn fold(c: char) -> u32 {
    if 'A' <= c && c <= 'Z' {
        (c as u32 + 32) as u32
    } else {
        c as u32
    }
}

/// The two texts are equal up to the case of ASCII letters.
pub open spec fn same_ignoring_case(s: Seq<char>, t: Seq<char>) -> bool {
    s.len() == t.len() && forall|i: int| 0 <= i < s.len() ==> fold(s[i]) == fold(t[i])
}

pub open spec fn vendor_of(gpu_type: Seq<char>) -> Vendor {
    if same_ignoring_case(gpu_type, "nvidia"@) {
        Vendor::Nvidia
    } else if same_ignoring_case(gpu_type, "amd"@) {
        Vendor::Amd
    } else if same_ignoring_case(gpu_type, "intel"@) {
        Vendor::Intel
    } else {
        Vendor::Unknown
    }
}

pub open spec fn vspipe_args_of(script: Seq<char>) -> Seq<Seq<char>> {
    seq![script, "-"@, "-p"@, "-c"@, "y4m"@]
}

pub open spec fn input_args(video: Seq<char>) -> Seq<Seq<char>> {
    seq![
        "-loglevel"@, "error"@, "-hide_banner"@, "-nostats"@, "-i"@, "-"@, "-i"@, video,
        "-map"@, "0:v"@, "-map"@, "1:a?"@,
    ]
}

/// The audio filter chain: a resampling for the input scale, then a tempo
/// change (or a second resampling, when the pitch follows) for the output scale.
pub open spec fn audio_filter(ts: TimeScale) -> Seq<char> {
    let first = "asetrate=48000*"@ + ts.input_speedup@;
    let second = if ts.adjust_audio_pitch {
        "asetrate=48000*"@ + ts.output_speed@
    } else {
        "atempo="@ + ts.output_speed@
    };
    if ts.output_unit {
        first
    } else if ts.input_unit {
        second
    } else {
        first + ","@ + second
    }
}

pub open spec fn audio_args(ts: TimeScale) -> Seq<Seq<char>> {
    if ts.input_unit && ts.output_unit {
        seq![]
    } else {
        seq!["-af"@, audio_filter(ts)]
    }
}

pub open spec fn video_codec_args(s: Settings, stdout: bool) -> Seq<Seq<char>> {
    let q = decimal(s.quality as nat);
    if s.gpu {
        match vendor_of(s.gpu_type@) {
            Vendor::Nvidia => seq!["-c:v"@, "h264_nvenc"@, "-preset"@, "p7"@, "-qp"@, q],
            Vendor::Amd => seq![
                "-c:v"@, "h264_amf"@, "-qp_i"@, q, "-qp_b"@, q, "-qp_p"@, q, "-quality"@,
                "quality"@,
            ],
            Vendor::Intel => seq![
                "-c:v"@, "h264_qsv"@, "-global_quality"@, q, "-preset"@, "veryslow"@,
            ],
            Vendor::Unknown => seq![],
        }
    } else if !stdout {
        seq!["-c:v"@, "libx264"@, "-preset"@, "superfast"@, "-crf"@, q]
    } else {
        seq!["-c:v"@, "rawvideo"@]
    }
}

pub open spec fn audio_codec_args() -> Seq<Seq<char>> {
    seq!["-c:a"@, "aac"@, "-b:a"@, "320k"@, "-movflags"@, "+faststart"@]
}

/// Encoder flags; a custom filter override leaves them all to the user.
pub open spec fn encoder_args(s: Settings, stdout: bool) -> Seq<Seq<char>> {
    if s.custom_ffmpeg_filters is Some {
        seq![]
    } else {
        video_codec_args(s, stdout) + audio_codec_args()
    }
}

pub open spec fn output_form(s: Settings, stdout: bool) -> OutputForm {
    if s.detailed_filename && s.interpolation_enabled && s.blending_enabled {
        OutputForm::Detailed
    } else if stdout {
        OutputForm::Stream
    } else {
        OutputForm::Plain
    }
}

pub open spec fn detailed_name(stem: Seq<char>, s: Settings) -> Seq<char> {
    stem + "-"@ + s.interpolation_fps@ + "fps-"@ + s.interpolation_program@ + "~"@
        + s.blending_output_fps@ + "fps-"@ + s.blending_amount@
}

/// The output path renamed to the detailed name, with the extension that
/// the output path had.
pub open spec fn detailed_target(output: Seq<char>, s: Settings) -> Seq<char> {
    let name = detailed_name(file_stem(output).unwrap(), s);
    match extension(output) {
        Some(ext) => with_file_name(output, name + "."@ + ext),
        None => with_file_name(output, name),
    }
}

/// Building the command fails exactly when a detailed name is asked for and
/// the output path has no stem to build it from.
pub open spec fn malformed(output: Seq<char>, s: Settings, stdout: bool) -> bool {
    output_form(s, stdout) == OutputForm::Detailed && file_stem(output) is None
}

pub open spec fn output_target(output: Seq<char>, s: Settings, stdout: bool) -> Seq<char> {
    match output_form(s, stdout) {
        OutputForm::Detailed => detailed_target(output, s),
        OutputForm::Stream => "-"@,
        OutputForm::Plain => output,
    }
}

pub open spec fn output_args(output: Seq<char>, s: Settings, stdout: bool) -> Seq<Seq<char>> {
    match output_form(s, stdout) {
        OutputForm::Stream => seq!["-f"@, "nut"@, "-"@],
        _ => seq![output_target(output, s, stdout)],
    }
}

pub open spec fn ffmpeg_args_of(video: Seq<char>, output: Seq<char>, s: Settings, stdout: bool) -> Seq<
    Seq<char>,
> {
    input_args(video) + audio_args(s.timescale) + encoder_args(s, stdout) + output_args(
        output,
        s,
        stdout,
    )
}

pub open spec fn vspipe_exe_of(install_dir: Option<Seq<char>>) -> Seq<char> {
    match install_dir {
        Some(d) => d + "/lib/vapoursynth/VSPipe.exe"@,
        None => "vspipe"@,
    }
}

pub open spec fn ffmpeg_exe_of(install_dir: Option<Seq<char>>) -> Seq<char> {
    match install_dir {
        Some(d) => d + "/lib/ffmpeg/ffmpeg.exe"@,
        None => "ffmpeg"@,
    }
}

pub open spec fn opt_view(o: Option<&str>) -> Option<Seq<char>> {
    match o {
        Some(d) => Some(d@),
        None => None,
    }
}

/// The digit character for `d`, as a one-character text.
fn digit_text(d: u64) -> (r: &'static str)
    requires
        d < 10,
    ensures
        r@ == seq![digit(d as nat)],
{
    proof {
        reveal_strlit("0");
        reveal_strlit("1");
        reveal_strlit("2");
        reveal_strlit("3");
        reveal_strlit("4");
        reveal_strlit("5");
        reveal_strlit("6");
        reveal_strlit("7");
        reveal_strlit("8");
        reveal_strlit("9");
    }
    let r = match d {
        0 => "0",
        1 => "1",
        2 => "2",
        3 => "3",
        4 => "4",
        5 => "5",
        6 => "6",
        7 => "7",
        8 => "8",
        _ => "9",
    };
    assert(r@ =~= seq![digit(d as nat)]);
    r
}

/// The decimal digits of `n`, with no sign and no leading zeros.
pub fn decimal_text(n: u64) -> (r: String)
    ensures
        r@ == decimal(n as nat),
    decreases n,
{
    if n < 10 {
        String::from_str(digit_text(n))
    } else {
        let mut r = decimal_text(n / 10);
        r.append(digit_text(n % 10));
        assert(r@ =~= decimal(n as nat));
        r
    }
}

fn fold_char(c: char) -> (r: u32)
    ensures
        r == fold(c),
{
    if 'A' <= c && c <= 'Z' {
        c as u32 + 32
    } else {
        c as u32
    }
}

/// Compares two texts up to the case of ASCII letters.
pub fn eq_ignore_case(s: &str, t: &str) -> (r: bool)
    ensures
        r == same_ignoring_case(s@, t@),
{
    let n = s.unicode_len();
    if n != t.unicode_len() {
        return false;
    }
    let mut i: usize = 0;
    while i < n
        invariant
            n == s@.len() == t@.len(),
            i <= n,
            forall|j: int| 0 <= j < i ==> fold(s@[j]) == fold(t@[j]),
        decreases n - i,
    {
        if fold_char(s.get_char(i)) != fold_char(t.get_char(i)) {
            return false;
        }
        i = i + 1;
    }
    true
}

/// The GPU vendor named by `gpu_type`, whatever the case of its letters.
pub fn gpu_vendor(gpu_type: &str) -> (r: Vendor)
    ensures
        r == vendor_of(gpu_type@),
{
    if eq_ignore_case(gpu_type, "nvidia") {
        Vendor::Nvidia
    } else if eq_ignore_case(gpu_type, "amd") {
        Vendor::Amd
    } else if eq_ignore_case(gpu_type, "intel") {
        Vendor::Intel
    } else {
        Vendor::Unknown
    }
}

fn push_text(v: &mut Vec<String>, s: &str)
    ensures
        texts(final(v)@) == texts(old(v)@).push(s@),
{
    v.push(String::from_str(s));
    assert(texts(v@) =~= texts(old(v)@).push(s@));
}

fn push_all(v: &mut Vec<String>, items: &[&str])
    ensures
        texts(final(v)@) == texts(old(v)@) + items@.map_values(|s: &str| s@),
{
    let ghost start = texts(v@);
    let mut i: usize = 0;
    while i < items.len()
        invariant
            i <= items@.len(),
            texts(v@) == start + items@.subrange(0, i as int).map_values(|s: &str| s@),
        decreases items@.len() - i,
    {
        push_text(v, items[i]);
        assert(items@.subrange(0, i + 1).map_values(|s: &str| s@) =~= items@.subrange(
            0,
            i as int,
        ).map_values(|s: &str| s@).push(items@[i as int]@));
        i = i + 1;
    }
    assert(items@.subrange(0, i as int) =~= items@);
}

fn join_texts(a: &str, b: &str) -> (r: String)
    ensures
        r@ == a@ + b@,
{
    let mut r = String::from_str(a);
    r.append(b);
    r
}

/// The audio filter chain for the given time scales.
pub fn build_audio_filter(ts: &TimeScale) -> (r: String)
    ensures
        r@ == audio_filter(*ts),
{
    let first = join_texts("asetrate=48000*", ts.input_speedup.as_str());
    let second = if ts.adjust_audio_pitch {
        join_texts("asetrate=48000*", ts.output_speed.as_str())
    } else {
        join_texts("atempo=", ts.output_speed.as_str())
    };
    if ts.output_unit {
        first
    } else if ts.input_unit {
        second
    } else {
        let mut r = first;
        r.append(",");
        r.append(second.as_str());
        r
    }
}

fn push_audio_args(v: &mut Vec<String>, ts: &TimeScale)
    ensures
        texts(final(v)@) == texts(old(v)@) + audio_args(*ts),
{
    if ts.input_unit && ts.output_unit {
        assert(texts(v@) =~= texts(v@) + audio_args(*ts));
    } else {
        push_text(v, "-af");
        let f = build_audio_filter(ts);
        push_text(v, f.as_str());
        assert(texts(v@) =~= texts(old(v)@) + audio_args(*ts));
    }
}

fn push_video_codec_args(v: &mut Vec<String>, s: &Settings, stdout: bool)
    ensures
        texts(final(v)@) == texts(old(v)@) + video_codec_args(*s, stdout),
{
    let q = decimal_text(s.quality);
    let q = q.as_str();
    if s.gpu {
        match gpu_vendor(s.gpu_type.as_str()) {
            Vendor::Nvidia => {
                push_all(v, &["-c:v", "h264_nvenc", "-preset", "p7", "-qp", q]);
            },
            Vendor::Amd => {
                push_all(
                    v,
                    &["-c:v", "h264_amf", "-qp_i", q, "-qp_b", q, "-qp_p", q, "-quality", "quality"],
                );
            },
            Vendor::Intel => {
                push_all(v, &["-c:v", "h264_qsv", "-global_quality", q, "-preset", "veryslow"]);
            },
            Vendor::Unknown => {},
        }
    } else if !stdout {
        push_all(v, &["-c:v", "libx264", "-preset", "superfast", "-crf", q]);
    } else {
        push_all(v, &["-c:v", "rawvideo"]);
    }
    assert(texts(v@) =~= texts(old(v)@) + video_codec_args(*s, stdout));
}

fn push_encoder_args(v: &mut Vec<String>, s: &Settings, stdout: bool)
    ensures
        texts(final(v)@) == texts(old(v)@) + encoder_args(*s, stdout),
{
    if s.custom_ffmpeg_filters.is_some() {
        assert(texts(v@) =~= texts(v@) + encoder_args(*s, stdout));
    } else {
        push_video_codec_args(v, s, stdout);
        push_all(v, &["-c:a", "aac", "-b:a", "320k", "-movflags", "+faststart"]);
        assert(texts(v@) =~= texts(old(v)@) + encoder_args(*s, stdout));
    }
}

/// Which of the three output forms the settings call for.
pub fn resolve_output_form(s: &Settings, stdout: bool) -> (r: OutputForm)
    ensures
        r == output_form(*s, stdout),
{
    if s.detailed_filename && s.interpolation_enabled && s.blending_enabled {
        OutputForm::Detailed
    } else if stdout {
        OutputForm::Stream
    } else {
        OutputForm::Plain
    }
}

fn build_detailed_name(stem: &str, s: &Settings) -> (r: String)
    ensures
        r@ == detailed_name(stem@, *s),
{
    let mut r = String::from_str(stem);
    r.append("-");
    r.append(s.interpolation_fps.as_str());
    r.append("fps-");
    r.append(s.interpolation_program.as_str());
    r.append("~");
    r.append(s.blending_output_fps.as_str());
    r.append("fps-");
    r.append(s.blending_amount.as_str());
    r
}

/// The output target, and the flags that go before it.
fn push_output_args(v: &mut Vec<String>, output: &str, s: &Settings, stdout: bool) -> (r: Result<
    String,
    CommandError,
>)
    ensures
        match r {
            Ok(name) => !malformed(output@, *s, stdout) && name@ == output_target(
                output@,
                *s,
                stdout,
            ) && texts(final(v)@) == texts(old(v)@) + output_args(output@, *s, stdout),
            Err(e) => malformed(output@, *s, stdout) && e == CommandError::MalformedPath,
        },
{
    let name = match resolve_output_form(s, stdout) {
        OutputForm::Detailed => match path_file_stem(output) {
            Some(stem) => {
                let mut detailed = build_detailed_name(stem, s);
                match path_extension(output) {
                    Some(ext) => {
                        detailed.append(".");
                        detailed.append(ext);
                    },
                    None => {},
                }
                path_with_file_name(output, detailed.as_str())
            },
            None => {
                return Err(CommandError::MalformedPath);
            },
        },
        OutputForm::Stream => {
            push_all(v, &["-f", "nut"]);
            String::from_str("-")
        },
        OutputForm::Plain => String::from_str(output),
    };
    push_text(v, name.as_str());
    assert(texts(v@) =~= texts(old(v)@) + output_args(output@, *s, stdout));
    Ok(name)
}

fn exe_path(install_dir: Option<&str>, bundled: &str, bare: &str) -> (r: String)
    ensures
        r@ == match install_dir {
            Some(d) => d@ + bundled@,
            None => bare@,
        },
{
    match install_dir {
        Some(d) => join_texts(d, bundled),
        None => String::from_str(bare),
    }
}

/// Builds both command lines of a render. `install_dir` is the directory of
/// the running program when the bundled executables are to be used.
pub fn build_ffmpeg_command(
    script_path: &str,
    video_path: &str,
    output_path: &str,
    settings: &Settings,
    stdout: bool,
    install_dir: Option<&str>,
) -> (r: Result<CommandWithArgs, CommandError>)
    ensures
        match r {
            Ok(c) => {
                &&& !malformed(output_path@, *settings, stdout)
                &&& texts(c.ffmpeg_args@) == ffmpeg_args_of(
                    video_path@,
                    output_path@,
                    *settings,
                    stdout,
                )
                &&& texts(c.vspipe_args@) == vspipe_args_of(script_path@)
                &&& c.ffmpeg_exe@ == ffmpeg_exe_of(opt_view(install_dir))
                &&& c.vspipe_exe@ == vspipe_exe_of(opt_view(install_dir))
                &&& c.output_filename@ == output_target(output_path@, *settings, stdout)
            },
            Err(e) => malformed(output_path@, *settings, stdout) && e == CommandError::MalformedPath,
        },
{
    let vspipe_exe = exe_path(install_dir, "/lib/vapoursynth/VSPipe.exe", "vspipe");
    let ffmpeg_exe = exe_path(install_dir, "/lib/ffmpeg/ffmpeg.exe", "ffmpeg");
    let mut vspipe_args: Vec<String> = Vec::new();
    push_all(&mut vspipe_args, &[script_path, "-", "-p", "-c", "y4m"]);
    let mut ffmpeg_args: Vec<String> = Vec::new();
    push_all(
        &mut ffmpeg_args,
        &[
            "-loglevel",
            "error",
            "-hide_banner",
            "-nostats",
            "-i",
            "-",
            "-i",
            video_path,
            "-map",
            "0:v",
            "-map",
            "1:a?",
        ],
    );
    push_audio_args(&mut ffmpeg_args, &settings.timescale);
    push_encoder_args(&mut ffmpeg_args, settings, stdout);
    let output_filename = match push_output_args(&mut ffmpeg_args, output_path, settings, stdout) {
        Ok(name) => name,
        Err(e) => {
            return Err(e);
        },
    };
    assert(texts(ffmpeg_args@) =~= ffmpeg_args_of(video_path@, output_path@, *settings, stdout));
    Ok(CommandWithArgs { ffmpeg_exe, ffmpeg_args, vspipe_exe, vspipe_args, output_filename })
}

/// With both time scales at one there is no audio filter: the encoder's
/// arguments are its inputs, the encoder flags and the output, with no `-af`.
pub proof fn lemma_unit_scales_no_audio_filter(
    video: Seq<char>,
    output: Seq<char>,
    s: Settings,
    stdout: bool,
)
    requires
        s.timescale.input_unit,
        s.timescale.output_unit,
    ensures
        audio_args(s.timescale) == Seq::<Seq<char>>::empty(),
        ffmpeg_args_of(video, output, s, stdout) == input_args(video) + encoder_args(s, stdout)
            + output_args(output, s, stdout),
{
    assert(input_args(video) + audio_args(s.timescale) =~= input_args(video));
}

/// A custom filter override leaves out every encoder flag that the GPU and
/// software branches would add.
pub proof fn lemma_custom_filters_no_encoder_flags(
    video: Seq<char>,
    output: Seq<char>,
    s: Settings,
    stdout: bool,
)
    requires
        s.custom_ffmpeg_filters is Some,
    ensures
        encoder_args(s, stdout) == Seq::<Seq<char>>::empty(),
        ffmpeg_args_of(video, output, s, stdout) == input_args(video) + audio_args(s.timescale)
            + output_args(output, s, stdout),
{
    let a = input_args(video) + audio_args(s.timescale);
    assert(a + encoder_args(s, stdout) =~= a);
}

proof fn lemma_same_ignoring_case_trans(a: Seq<char>, b: Seq<char>, c: Seq<char>)
    requires
        same_ignoring_case(a, b),
        same_ignoring_case(a, c),
    ensures
        same_ignoring_case(b, c),
{
}

/// GPU vendor names that differ only in the case of their letters give the
/// same encoder flags.
pub proof fn lemma_vendor_case_insensitive(s1: Settings, s2: Settings, stdout: bool)
    requires
        same_ignoring_case(s1.gpu_type@, s2.gpu_type@),
        s1.gpu == s2.gpu,
        s1.quality == s2.quality,
        s1.custom_ffmpeg_filters == s2.custom_ffmpeg_filters,
    ensures
        vendor_of(s1.gpu_type@) == vendor_of(s2.gpu_type@),
        encoder_args(s1, stdout) == encoder_args(s2, stdout),
{
    lemma_vendor_case_insensitive_vendor(s1, s2);
}

/// Settings that differ only in the case of the GPU vendor's letters give the
/// same command: the same encoder arguments and the same output name.
pub proof fn lemma_vendor_case_same_command(
    video: Seq<char>,
    output: Seq<char>,
    s1: Settings,
    s2: Settings,
    stdout: bool,
)
    requires
        same_ignoring_case(s1.gpu_type@, s2.gpu_type@),
        s2 == (Settings { gpu_type: s2.gpu_type, ..s1 }),
    ensures
        malformed(output, s1, stdout) == malformed(output, s2, stdout),
        ffmpeg_args_of(video, output, s1, stdout) == ffmpeg_args_of(video, output, s2, stdout),
        output_target(output, s1, stdout) == output_target(output, s2, stdout),
{
    lemma_vendor_case_insensitive_vendor(s1, s2);
    assert(detailed_name(file_stem(output).unwrap(), s1) == detailed_name(
        file_stem(output).unwrap(),
        s2,
    ));
}

proof fn lemma_vendor_case_insensitive_vendor(s1: Settings, s2: Settings)
    requires
        same_ignoring_case(s1.gpu_type@, s2.gpu_type@),
    ensures
        vendor_of(s1.gpu_type@) == vendor_of(s2.gpu_type@),
{
    let (a, b) = (s1.gpu_type@, s2.gpu_type@);
    assert(same_ignoring_case(b, a));
    if same_ignoring_case(a, "nvidia"@) {
        lemma_same_ignoring_case_trans(a, b, "nvidia"@);
    }
    if same_ignoring_case(b, "nvidia"@) {
        lemma_same_ignoring_case_trans(b, a, "nvidia"@);
    }
    if same_ignoring_case(a, "amd"@) {
        lemma_same_ignoring_case_trans(a, b, "amd"@);
    }
    if same_ignoring_case(b, "amd"@) {
        lemma_same_ignoring_case_trans(b, a, "amd"@);
    }
    if same_ignoring_case(a, "intel"@) {
        lemma_same_ignoring_case_trans(a, b, "intel"@);
    }
    if same_ignoring_case(b, "intel"@) {
        lemma_same_ignoring_case_trans(b, a, "intel"@);
    }
}

/// Exactly one output form applies to each combination of settings, and each
/// gives its own output arguments: the detailed file name, the nut stream to
/// standard output, or the plain path.
pub proof fn lemma_output_form_exclusive(output: Seq<char>, s: Settings, stdout: bool)
    ensures
        (output_form(s, stdout) == OutputForm::Detailed) == (s.detailed_filename
            && s.interpolation_enabled && s.blending_enabled),
        (output_form(s, stdout) == OutputForm::Stream) == (!(s.detailed_filename
            && s.interpolation_enabled && s.blending_enabled) && stdout),
        (output_form(s, stdout) == OutputForm::Plain) == (!(s.detailed_filename
            && s.interpolation_enabled && s.blending_enabled) && !stdout),
        output_form(s, stdout) == OutputForm::Detailed ==> output_args(output, s, stdout) == seq![
            detailed_target(output, s),
        ],
        output_form(s, stdout) == OutputForm::Stream ==> output_args(output, s, stdout) == seq![
            "-f"@,
            "nut"@,
            "-"@,
        ],
        output_form(s, stdout) == OutputForm::Plain ==> output_args(output, s, stdout) == seq![
            output,
        ],
{
}

} // verus!
