use ffmpeg_sys::flags::TOGGLE_COUNT;
use ffmpeg_sys::steps::{plan, Action, BuildConfig, Phase, Presence, Step};

fn config() -> BuildConfig {
    BuildConfig {
        output: "/o".to_string(),
        search: "/w/o/dist".to_string(),
        version: "0.1".to_string(),
        target: "x86_64-unknown-linux-gnu".to_string(),
        host: "x86_64-unknown-linux-gnu".to_string(),
        jobs: 2,
        enabled: vec![false; TOGGLE_COUNT],
    }
}

fn describe(s: &Step) -> (Phase, String) {
    let what = match &s.action {
        Action::CreateDir(d) => format!("mkdir {}", d),
        Action::Run(i) => format!("{} in {}", i.program, i.dir),
        Action::Rename(a, b) => format!("mv {} {}", a, b),
        Action::RemoveDir(d) => format!("rm {}", d),
    };
    (s.phase, what)
}

#[test]
fn plan_is_empty_when_executables_exist() {
    let have = Presence { executables: true, nasm: false, x264: false, source: false };
    assert!(plan(&config(), &have).is_empty());
}

#[test]
fn plan_from_scratch() {
    let have = Presence { executables: false, nasm: false, x264: false, source: false };
    let steps: Vec<_> = plan(&config(), &have).iter().map(describe).collect();
    let want: Vec<(Phase, &str)> = vec![
        (Phase::Prepare, "mkdir /o"),
        (Phase::Nasm, "wget in /o"),
        (Phase::Nasm, "tar in /o"),
        (Phase::Nasm, "rm in /o"),
        (Phase::Nasm, "mv in /o"),
        (Phase::Nasm, "./configure in /o/nasm"),
        (Phase::Nasm, "make in /o/nasm"),
        (Phase::Nasm, "make in /o/nasm"),
        (Phase::X264, "git in /o"),
        (Phase::X264, "./configure in /o/x264"),
        (Phase::X264, "make in /o/x264"),
        (Phase::X264, "make in /o/x264"),
        (Phase::Fetch, "git in /o"),
        (Phase::Build, "./configure in /o/ffmpeg-0.1"),
        (Phase::Build, "make in /o/ffmpeg-0.1"),
        (Phase::Build, "mv /o/ffmpeg-0.1/ffmpeg /o/ffmpeg"),
        (Phase::Build, "mv /o/ffmpeg-0.1/ffprobe /o/ffprobe"),
        (Phase::Build, "rm /o/ffmpeg-0.1"),
    ];
    let want: Vec<(Phase, String)> = want.into_iter().map(|(p, s)| (p, s.to_string())).collect();
    assert_eq!(steps, want);
}

#[test]
fn plan_skips_fetched_sources() {
    let have = Presence { executables: false, nasm: true, x264: true, source: true };
    let steps: Vec<_> = plan(&config(), &have).iter().map(describe).collect();
    let want: Vec<(Phase, &str)> = vec![
        (Phase::Prepare, "mkdir /o"),
        (Phase::Nasm, "./configure in /o/nasm"),
        (Phase::Nasm, "make in /o/nasm"),
        (Phase::Nasm, "make in /o/nasm"),
        (Phase::X264, "./configure in /o/x264"),
        (Phase::X264, "make in /o/x264"),
        (Phase::X264, "make in /o/x264"),
        (Phase::Build, "./configure in /o/ffmpeg-0.1"),
        (Phase::Build, "make in /o/ffmpeg-0.1"),
        (Phase::Build, "mv /o/ffmpeg-0.1/ffmpeg /o/ffmpeg"),
        (Phase::Build, "mv /o/ffmpeg-0.1/ffprobe /o/ffprobe"),
        (Phase::Build, "rm /o/ffmpeg-0.1"),
    ];
    let want: Vec<(Phase, String)> = want.into_iter().map(|(p, s)| (p, s.to_string())).collect();
    assert_eq!(steps, want);
}

#[test]
fn plan_fetch_uses_version() {
    let have = Presence { executables: false, nasm: true, x264: true, source: false };
    let steps = plan(&config(), &have);
    let fetches: Vec<&Step> = steps.iter().filter(|s| s.phase == Phase::Fetch).collect();
    assert_eq!(fetches.len(), 1);
    match &fetches[0].action {
        Action::Run(i) => assert_eq!(i.args.last().map(|s| s.as_str()), Some("ffmpeg-0.1")),
        _ => panic!("fetch is not a command"),
    }
}

#[test]
fn plan_passes_cross_prefix_to_configure() {
    let mut c = config();
    c.target = "aarch64-unknown-linux-gnu".to_string();
    c.enabled[0] = true;
    let have = Presence { executables: false, nasm: true, x264: true, source: true };
    let steps = plan(&c, &have);
    match &steps[7].action {
        Action::Run(i) => {
            assert_eq!(i.program, "./configure");
            assert!(i.args.contains(&"--cross-prefix=aarch64-unknown-linux-gnu-".to_string()));
            assert_eq!(i.args.last().map(|s| s.as_str()), Some("--enable-gpl"));
        }
        _ => panic!("configure is not a command"),
    }
}

#[test]
fn failure_messages() {
    assert_eq!(Phase::Prepare.failure_message(), "failed to create build directory");
    assert_eq!(Phase::Nasm.failure_message(), "build nasm failed");
    assert_eq!(Phase::X264.failure_message(), "build x264 failed");
    assert_eq!(Phase::Fetch.failure_message(), "fetch failed");
    assert_eq!(Phase::Build.failure_message(), "build failed");
}
