use ffmpeg_sys::plan::{
    bin_path, build, build_libx264, build_nasm, configure_args, cross_prefix, fetch, fetch_libx264,
    fetch_nasm, join_path, nasm_path, search_path, source_path, x264_path, Invocation,
};
use ffmpeg_sys::flags::TOGGLE_COUNT;

fn shape(i: &Invocation) -> (String, String, Vec<String>) {
    (i.program.clone(), i.dir.clone(), i.args.clone())
}

fn owned(v: &[&str]) -> Vec<String> {
    v.iter().map(|s| s.to_string()).collect()
}

#[test]
fn join_path_adds_one_separator() {
    assert_eq!(join_path("a", "b"), "a/b");
    assert_eq!(join_path("a/", "b"), "a/b");
    assert_eq!(join_path("", "b"), "b");
    assert_eq!(join_path("/out", "ffmpeg-0.1"), "/out/ffmpeg-0.1");
}

#[test]
fn search_path_under_working_directory() {
    assert_eq!(search_path("/work", "target/out"), "/work/target/out/dist");
    assert_eq!(search_path("/work", "/abs/out"), "/abs/out/dist");
    assert_eq!(search_path("/work/", "out"), "/work/out/dist");
}

#[test]
fn directories_under_output() {
    assert_eq!(nasm_path("/o"), "/o/nasm");
    assert_eq!(x264_path("/o"), "/o/x264");
    assert_eq!(bin_path("/o"), "/o/bin");
    assert_eq!(source_path("/o", "0.1"), "/o/ffmpeg-0.1");
}

#[test]
fn cross_prefix_only_for_other_target() {
    assert_eq!(cross_prefix("x86_64-unknown-linux-gnu", "x86_64-unknown-linux-gnu"), None);
    assert_eq!(
        cross_prefix("aarch64-unknown-linux-gnu", "x86_64-unknown-linux-gnu"),
        Some("--cross-prefix=aarch64-unknown-linux-gnu-".to_string())
    );
}

#[test]
fn fetch_clones_ffmpeg() {
    assert_eq!(
        shape(&fetch("/o", "0.1")),
        (
            "git".to_string(),
            "/o".to_string(),
            owned(&["clone", "-b", "ts-offset", "--depth=1", "https://github.com/ngotchac/FFmpeg.git", "ffmpeg-0.1"])
        )
    );
}

#[test]
fn fetch_nasm_downloads_and_unpacks() {
    let c: Vec<_> = fetch_nasm("/o").iter().map(shape).collect();
    assert_eq!(
        c,
        vec![
            (
                "wget".to_string(),
                "/o".to_string(),
                owned(&["https://www.nasm.us/pub/nasm/releasebuilds/2.14.02/nasm-2.14.02.tar.gz"])
            ),
            ("tar".to_string(), "/o".to_string(), owned(&["xzvf", "nasm-2.14.02.tar.gz"])),
            ("rm".to_string(), "/o".to_string(), owned(&["-f", "nasm-2.14.02.tar.gz"])),
            ("mv".to_string(), "/o".to_string(), owned(&["nasm-2.14.02", "nasm"])),
        ]
    );
}

#[test]
fn build_nasm_configures_makes_installs() {
    let c: Vec<_> = build_nasm("/o", "/w/o/dist", 8).iter().map(shape).collect();
    assert_eq!(
        c,
        vec![
            ("./configure".to_string(), "/o/nasm".to_string(), owned(&["--prefix=/w/o/dist", "--bindir=/o/bin"])),
            ("make".to_string(), "/o/nasm".to_string(), owned(&["-j", "8"])),
            ("make".to_string(), "/o/nasm".to_string(), owned(&["install"])),
        ]
    );
}

#[test]
fn fetch_libx264_clones_stable() {
    assert_eq!(
        shape(&fetch_libx264("/o")),
        (
            "git".to_string(),
            "/o".to_string(),
            owned(&["clone", "--depth=1", "git://git.videolan.org/x264.git", "-b", "stable"])
        )
    );
}

#[test]
fn build_libx264_static_without_cli() {
    let c: Vec<_> = build_libx264("/o", "/s", 12).iter().map(shape).collect();
    assert_eq!(
        c,
        vec![
            (
                "./configure".to_string(),
                "/o/x264".to_string(),
                owned(&["--prefix=/s", "--bindir=/o/bin", "--enable-static", "--enable-pic", "--disable-cli"])
            ),
            ("make".to_string(), "/o/x264".to_string(), owned(&["-j", "12"])),
            ("make".to_string(), "/o/x264".to_string(), owned(&["install"])),
        ]
    );
}

const FIXED: [&str; 7] = [
    "--disable-doc",
    "--disable-ffplay",
    "--disable-debug",
    "--enable-stripping",
    "--enable-static",
    "--disable-shared",
    "--enable-pic",
];

#[test]
fn configure_args_native_without_features() {
    let on = vec![false; TOGGLE_COUNT];
    let a = configure_args("/s", "x86_64-unknown-linux-gnu", "x86_64-unknown-linux-gnu", &on);
    let mut want = owned(&[
        "--prefix=/s",
        "--extra-cflags=\"-I/s/include\"",
        "--extra-ldflags=\"-L/s/lib\"",
        "--extra-libs=-ldl",
        "--pkg-config-flags=\"--static\"",
        "--extra-ldexeflags=\"-static\"",
    ]);
    want.extend(owned(&FIXED));
    assert_eq!(a, want);
}

#[test]
fn configure_args_cross_with_features() {
    let mut on = vec![false; TOGGLE_COUNT];
    on[1] = true;
    on[9] = true;
    on[49] = true;
    let a = configure_args("/s", "arm-linux-androideabi", "x86_64-unknown-linux-gnu", &on);
    assert_eq!(a.len(), 6 + 1 + 7 + 3);
    assert_eq!(a[6], "--cross-prefix=arm-linux-androideabi-");
    assert_eq!(a[7..14].to_vec(), owned(&FIXED));
    assert_eq!(a[14..].to_vec(), owned(&["--enable-version3", "--enable-swresample", "--enable-libx264"]));
}

#[test]
fn build_configures_then_makes_in_source() {
    let on = vec![true; TOGGLE_COUNT];
    let c = build("/o", "/s", "0.1", "t", "t", 4, &on);
    assert_eq!(c.len(), 2);
    assert_eq!(c[0].program, "./configure");
    assert_eq!(c[0].dir, "/o/ffmpeg-0.1");
    assert_eq!(c[0].args.len(), 6 + 7 + 57);
    assert_eq!(c[0].args[13 + 57 - 1], "--enable-pic");
    assert_eq!(shape(&c[1]), ("make".to_string(), "/o/ffmpeg-0.1".to_string(), owned(&["-j", "4"])));
}
