use vstd::prelude::*;

use crate::flags::{enabled_options, push_enabled, texts, toggle_table, toggles, TOGGLE_COUNT};
use crate::version::{decimal, decimal_text, source_dir_name, source_dir_text};

verus! {

/// `name` placed under the directory `base`, with one `/` between them: the
/// path that joining a relative name to `base` gives on Unix.
pub open spec fn joined(base: Seq<char>, name: Seq<char>) -> Seq<char> {
    if base.len() == 0 || base.last() == '/' {
        base + name
    } else {
        base + seq!['/'] + name
    }
}

/// The path of the relative name `name` under the directory `base`.
pub fn join_path(base: &str, name: &str) -> (r: String)
    ensures
        r@ == joined(base@, name@),
{
    let n = base.unicode_len();
    let mut r = String::from_str(base);
    if n > 0 && base.get_char(n - 1) != '/' {
        proof {
            reveal_strlit("/");
        }
        r.append("/");
    }
    r.append(name);
    r
}

/// `name` pushed onto `base`: an absolute `name` stands alone, a relative
/// one is joined under `base`.
pub open spec fn pushed(base: Seq<char>, name: Seq<char>) -> Seq<char> {
    if name.len() > 0 && name[0] == '/' {
        name
    } else {
        joined(base, name)
    }
}

/// The prefix where the dependencies install: `dist` under the output
/// directory, which is taken relative to the working directory `cwd`.
pub open spec fn search_dir(cwd: Seq<char>, output: Seq<char>) -> Seq<char> {
    joined(pushed(cwd, output), "dist"@)
}

/// The prefix where the dependencies install, from the working directory
/// and the output directory.
pub fn search_path(cwd: &str, output: &str) -> (r: String)
    ensures
        r@ == search_dir(cwd@, output@),
{
    let base = if output.unicode_len() > 0 && output.get_char(0) == '/' {
        String::from_str(output)
    } else {
        join_path(cwd, output)
    };
    join_path(base.as_str(), "dist")
}

fn cat(a: &str, b: &str) -> (r: String)
    ensures
        r@ == a@ + b@,
{
    let mut r = String::from_str(a);
    r.append(b);
    r
}

/// A program to run, the directory to run it in, and its arguments.
pub struct Invocation {
    pub program: String,
    pub dir: String,
    pub args: Vec<String>,
}

pub struct InvocationView {
    pub program: Seq<char>,
    pub dir: Seq<char>,
    pub args: Seq<Seq<char>>,
}

impl View for Invocation {
    type V = InvocationView;

    open spec fn view(&self) -> InvocationView {
        InvocationView { program: self.program@, dir: self.dir@, args: texts(self.args@) }
    }
}

/// The command that runs `program` in `dir` with `args`.
pub open spec fn invocation(program: Seq<char>, dir: Seq<char>, args: Seq<Seq<char>>) -> InvocationView {
    InvocationView { program, dir, args }
}

fn push_arg(v: &mut Vec<String>, a: String)
    ensures
        texts(final(v)@) == texts(old(v)@).push(a@),
{
    v.push(a);
    assert(texts(v@) =~= texts(old(v)@).push(a@));
}

fn push_str(v: &mut Vec<String>, a: &str)
    ensures
        texts(final(v)@) == texts(old(v)@).push(a@),
{
    push_arg(v, String::from_str(a));
}

/// Where the nasm sources go.
pub open spec fn nasm_dir(output: Seq<char>) -> Seq<char> {
    joined(output, "nasm"@)
}

/// Where x264's sources go.
pub open spec fn x264_dir(output: Seq<char>) -> Seq<char> {
    joined(output, "x264"@)
}

/// Where the programs that the build installs go.
pub open spec fn bin_dir(output: Seq<char>) -> Seq<char> {
    joined(output, "bin"@)
}

/// Where FFmpeg's sources of `version` go.
pub open spec fn source_dir(output: Seq<char>, version: Seq<char>) -> Seq<char> {
    joined(output, source_dir_text(version))
}

/// The directory under `output` that holds the nasm sources.
pub fn nasm_path(output: &str) -> (r: String)
    ensures
        r@ == nasm_dir(output@),
{
    join_path(output, "nasm")
}

/// The directory under `output` that holds x264's sources.
pub fn x264_path(output: &str) -> (r: String)
    ensures
        r@ == x264_dir(output@),
{
    join_path(output, "x264")
}

/// The directory under `output` where the build installs programs.
pub fn bin_path(output: &str) -> (r: String)
    ensures
        r@ == bin_dir(output@),
{
    join_path(output, "bin")
}

/// The directory under `output` that holds FFmpeg's sources of `version`.
pub fn source_path(output: &str, version: &str) -> (r: String)
    ensures
        r@ == source_dir(output@, version@),
{
    let name = source_dir_name(version);
    join_path(output, name.as_str())
}

/// The URL of the FFmpeg sources.
pub open spec fn ffmpeg_repository() -> Seq<char> {
    "https://github.com/ngotchac/FFmpeg.git"@
}

/// Clones the FFmpeg sources of `version` into the directory under `output`.
pub open spec fn ffmpeg_fetch(output: Seq<char>, version: Seq<char>) -> InvocationView {
    invocation(
        "git"@,
        output,
        seq!["clone"@, "-b"@, "ts-offset"@, "--depth=1"@, ffmpeg_repository(), source_dir_text(version)],
    )
}

/// The command that clones FFmpeg's sources of `version` under `output`.
pub fn fetch(output: &str, version: &str) -> (r: Invocation)
    ensures
        r@ == ffmpeg_fetch(output@, version@),
{
    let mut args: Vec<String> = Vec::new();
    push_str(&mut args, "clone");
    push_str(&mut args, "-b");
    push_str(&mut args, "ts-offset");
    push_str(&mut args, "--depth=1");
    push_str(&mut args, "https://github.com/ngotchac/FFmpeg.git");
    push_arg(&mut args, source_dir_name(version));
    let r = Invocation { program: String::from_str("git"), dir: String::from_str(output), args };
    assert(r@.args =~= ffmpeg_fetch(output@, version@).args);
    r
}

/// The nasm release archive.
pub open spec fn nasm_archive() -> Seq<char> {
    "nasm-2.14.02.tar.gz"@
}

/// The directory that the nasm archive unpacks to.
pub open spec fn nasm_unpacked() -> Seq<char> {
    "nasm-2.14.02"@
}

/// Downloads and unpacks the nasm sources into `nasm` under `output`.
pub open spec fn nasm_fetch(output: Seq<char>) -> Seq<InvocationView> {
    seq![
        invocation(
            "wget"@,
            output,
            seq!["https://www.nasm.us/pub/nasm/releasebuilds/2.14.02/nasm-2.14.02.tar.gz"@],
        ),
        invocation("tar"@, output, seq!["xzvf"@, nasm_archive()]),
        invocation("rm"@, output, seq!["-f"@, nasm_archive()]),
        invocation("mv"@, output, seq![nasm_unpacked(), "nasm"@]),
    ]
}

/// What each command of `s` runs.
pub open spec fn views(s: Seq<Invocation>) -> Seq<InvocationView> {
    s.map_values(|i: Invocation| i@)
}

fn push_run(v: &mut Vec<Invocation>, i: Invocation)
    ensures
        views(final(v)@) == views(old(v)@).push(i@),
{
    v.push(i);
    assert(views(v@) =~= views(old(v)@).push(i@));
}

fn run_in(program: &str, dir: &str, args: Vec<String>) -> (r: Invocation)
    ensures
        r@ == invocation(program@, dir@, texts(args@)),
{
    Invocation { program: String::from_str(program), dir: String::from_str(dir), args }
}

/// The commands that download and unpack the nasm sources under `output`.
pub fn fetch_nasm(output: &str) -> (r: Vec<Invocation>)
    ensures
        views(r@) == nasm_fetch(output@),
{
    let mut r: Vec<Invocation> = Vec::new();
    let mut a: Vec<String> = Vec::new();
    push_str(&mut a, "https://www.nasm.us/pub/nasm/releasebuilds/2.14.02/nasm-2.14.02.tar.gz");
    assert(texts(a@) =~= nasm_fetch(output@)[0].args);
    push_run(&mut r, run_in("wget", output, a));
    let mut a: Vec<String> = Vec::new();
    push_str(&mut a, "xzvf");
    push_str(&mut a, "nasm-2.14.02.tar.gz");
    assert(texts(a@) =~= nasm_fetch(output@)[1].args);
    push_run(&mut r, run_in("tar", output, a));
    let mut a: Vec<String> = Vec::new();
    push_str(&mut a, "-f");
    push_str(&mut a, "nasm-2.14.02.tar.gz");
    assert(texts(a@) =~= nasm_fetch(output@)[2].args);
    push_run(&mut r, run_in("rm", output, a));
    let mut a: Vec<String> = Vec::new();
    push_str(&mut a, "nasm-2.14.02");
    push_str(&mut a, "nasm");
    assert(texts(a@) =~= nasm_fetch(output@)[3].args);
    push_run(&mut r, run_in("mv", output, a));
    assert(views(r@) =~= nasm_fetch(output@));
    r
}

/// `make -j <jobs>` in `dir`.
pub open spec fn make_jobs(dir: Seq<char>, jobs: u64) -> InvocationView {
    invocation("make"@, dir, seq!["-j"@, decimal_text(jobs as nat)])
}

/// `make install` in `dir`.
pub open spec fn make_install(dir: Seq<char>) -> InvocationView {
    invocation("make"@, dir, seq!["install"@])
}

fn make(dir: &str, jobs: u64) -> (r: Invocation)
    ensures
        r@ == make_jobs(dir@, jobs),
{
    let mut a: Vec<String> = Vec::new();
    push_str(&mut a, "-j");
    push_arg(&mut a, decimal(jobs));
    let r = run_in("make", dir, a);
    assert(r@.args =~= make_jobs(dir@, jobs).args);
    r
}

fn install(dir: &str) -> (r: Invocation)
    ensures
        r@ == make_install(dir@),
{
    let mut a: Vec<String> = Vec::new();
    push_str(&mut a, "install");
    let r = run_in("make", dir, a);
    assert(r@.args =~= make_install(dir@).args);
    r
}

/// Configures, builds and installs nasm: under the prefix `search`, with its
/// programs in `bin` under `output`.
pub open spec fn nasm_build(output: Seq<char>, search: Seq<char>, jobs: u64) -> Seq<InvocationView> {
    seq![
        invocation(
            "./configure"@,
            nasm_dir(output),
            seq!["--prefix="@ + search, "--bindir="@ + bin_dir(output)],
        ),
        make_jobs(nasm_dir(output), jobs),
        make_install(nasm_dir(output)),
    ]
}

/// The commands that configure, build and install nasm, whose sources are
/// under `output`.
pub fn build_nasm(output: &str, search: &str, jobs: u64) -> (r: Vec<Invocation>)
    ensures
        views(r@) == nasm_build(output@, search@, jobs),
{
    let dir = nasm_path(output);
    let bin = bin_path(output);
    let mut r: Vec<Invocation> = Vec::new();
    let mut a: Vec<String> = Vec::new();
    push_arg(&mut a, cat("--prefix=", search));
    push_arg(&mut a, cat("--bindir=", bin.as_str()));
    assert(texts(a@) =~= nasm_build(output@, search@, jobs)[0].args);
    push_run(&mut r, run_in("./configure", dir.as_str(), a));
    push_run(&mut r, make(dir.as_str(), jobs));
    push_run(&mut r, install(dir.as_str()));
    assert(views(r@) =~= nasm_build(output@, search@, jobs));
    r
}

/// Clones x264's stable branch into `x264` under `output`.
pub open spec fn x264_fetch(output: Seq<char>) -> InvocationView {
    invocation(
        "git"@,
        output,
        seq!["clone"@, "--depth=1"@, "git://git.videolan.org/x264.git"@, "-b"@, "stable"@],
    )
}

/// The command that clones x264's sources under `output`.
pub fn fetch_libx264(output: &str) -> (r: Invocation)
    ensures
        r@ == x264_fetch(output@),
{
    let mut a: Vec<String> = Vec::new();
    push_str(&mut a, "clone");
    push_str(&mut a, "--depth=1");
    push_str(&mut a, "git://git.videolan.org/x264.git");
    push_str(&mut a, "-b");
    push_str(&mut a, "stable");
    let r = run_in("git", output, a);
    assert(r@.args =~= x264_fetch(output@).args);
    r
}

/// Configures, builds and installs x264 as a static, position-independent
/// library without its command line program.
pub open spec fn x264_build(output: Seq<char>, search: Seq<char>, jobs: u64) -> Seq<InvocationView> {
    seq![
        invocation(
            "./configure"@,
            x264_dir(output),
            seq![
                "--prefix="@ + search,
                "--bindir="@ + bin_dir(output),
                "--enable-static"@,
                "--enable-pic"@,
                "--disable-cli"@,
            ],
        ),
        make_jobs(x264_dir(output), jobs),
        make_install(x264_dir(output)),
    ]
}

/// The commands that configure, build and install x264, whose sources are
/// under `output`.
pub fn build_libx264(output: &str, search: &str, jobs: u64) -> (r: Vec<Invocation>)
    ensures
        views(r@) == x264_build(output@, search@, jobs),
{
    let dir = x264_path(output);
    let bin = bin_path(output);
    let mut r: Vec<Invocation> = Vec::new();
    let mut a: Vec<String> = Vec::new();
    push_arg(&mut a, cat("--prefix=", search));
    push_arg(&mut a, cat("--bindir=", bin.as_str()));
    push_str(&mut a, "--enable-static");
    push_str(&mut a, "--enable-pic");
    push_str(&mut a, "--disable-cli");
    assert(texts(a@) =~= x264_build(output@, search@, jobs)[0].args);
    push_run(&mut r, run_in("./configure", dir.as_str(), a));
    push_run(&mut r, make(dir.as_str(), jobs));
    push_run(&mut r, install(dir.as_str()));
    assert(views(r@) =~= x264_build(output@, search@, jobs));
    r
}

/// The option that names the toolchain prefix when the target is not the
/// host: none when they are the same.
pub open spec fn cross_options(target: Seq<char>, host: Seq<char>) -> Seq<Seq<char>> {
    if target == host {
        seq![]
    } else {
        seq!["--cross-prefix="@ + target + "-"@]
    }
}

/// The options that point FFmpeg's `configure` at the prefix `search`.
pub open spec fn search_options(search: Seq<char>) -> Seq<Seq<char>> {
    seq![
        "--prefix="@ + search,
        "--extra-cflags=\"-I"@ + joined(search, "include"@) + "\""@,
        "--extra-ldflags=\"-L"@ + joined(search, "lib"@) + "\""@,
        "--extra-libs=-ldl"@,
        "--pkg-config-flags=\"--static\""@,
        "--extra-ldexeflags=\"-static\""@,
    ]
}

/// The options that every build passes: no documentation, no player, no
/// debug information, stripped, static and position-independent.
pub open spec fn fixed_options() -> Seq<Seq<char>> {
    seq![
        "--disable-doc"@,
        "--disable-ffplay"@,
        "--disable-debug"@,
        "--enable-stripping"@,
        "--enable-static"@,
        "--disable-shared"@,
        "--enable-pic"@,
    ]
}

/// Every option of FFmpeg's `configure`; `on` tells which toggles are set.
pub open spec fn configure_options(
    search: Seq<char>,
    target: Seq<char>,
    host: Seq<char>,
    on: Seq<bool>,
) -> Seq<Seq<char>> {
    search_options(search) + cross_options(target, host) + fixed_options() + enabled_options(
        toggle_table(),
        on,
    )
}

/// The option that names the toolchain prefix of `target` when it differs
/// from `host`.
pub fn cross_prefix(target: &str, host: &str) -> (r: Option<String>)
    ensures
        r is None <==> target@ == host@,
        r matches Some(a) ==> seq![a@] == cross_options(target@, host@),
{
    let t = String::from_str(target);
    let h = String::from_str(host);
    if t == h {
        None
    } else {
        let mut a = String::from_str("--cross-prefix=");
        a.append(target);
        proof {
            reveal_strlit("-");
        }
        a.append("-");
        Some(a)
    }
}

/// The options of FFmpeg's `configure`: the prefix `search`, the cross
/// toolchain when `target` is not `host`, the fixed options, then the
/// toggles whose entry in `on` holds.
pub fn configure_args(search: &str, target: &str, host: &str, on: &Vec<bool>) -> (r: Vec<String>)
    requires
        on.len() == TOGGLE_COUNT,
    ensures
        texts(r@) == configure_options(search@, target@, host@, on@),
{
    let mut a: Vec<String> = Vec::new();
    push_arg(&mut a, cat("--prefix=", search));
    let headers = join_path(search, "include");
    let mut flag = cat("--extra-cflags=\"-I", headers.as_str());
    flag.append("\"");
    push_arg(&mut a, flag);
    let lib = join_path(search, "lib");
    let mut flag = cat("--extra-ldflags=\"-L", lib.as_str());
    flag.append("\"");
    push_arg(&mut a, flag);
    push_str(&mut a, "--extra-libs=-ldl");
    push_str(&mut a, "--pkg-config-flags=\"--static\"");
    push_str(&mut a, "--extra-ldexeflags=\"-static\"");
    assert(texts(a@) =~= search_options(search@));
    let ghost head = texts(a@);
    match cross_prefix(target, host) {
        Some(c) => push_arg(&mut a, c),
        None => {},
    }
    assert(texts(a@) =~= head + cross_options(target@, host@));
    let ghost middle = texts(a@);
    push_str(&mut a, "--disable-doc");
    push_str(&mut a, "--disable-ffplay");
    push_str(&mut a, "--disable-debug");
    push_str(&mut a, "--enable-stripping");
    push_str(&mut a, "--enable-static");
    push_str(&mut a, "--disable-shared");
    push_str(&mut a, "--enable-pic");
    assert(texts(a@) =~= middle + fixed_options());
    let t = toggles();
    push_enabled(&mut a, &t, on);
    assert(texts(a@) =~= configure_options(search@, target@, host@, on@));
    a
}

/// Configures and builds FFmpeg in its source directory.
pub open spec fn ffmpeg_build(
    output: Seq<char>,
    search: Seq<char>,
    version: Seq<char>,
    target: Seq<char>,
    host: Seq<char>,
    jobs: u64,
    on: Seq<bool>,
) -> Seq<InvocationView> {
    seq![
        invocation(
            "./configure"@,
            source_dir(output, version),
            configure_options(search, target, host, on),
        ),
        make_jobs(source_dir(output, version), jobs),
    ]
}

/// The commands that configure and build FFmpeg, whose sources of `version`
/// are under `output`.
pub fn build(
    output: &str,
    search: &str,
    version: &str,
    target: &str,
    host: &str,
    jobs: u64,
    on: &Vec<bool>,
) -> (r: Vec<Invocation>)
    requires
        on.len() == TOGGLE_COUNT,
    ensures
        views(r@) == ffmpeg_build(output@, search@, version@, target@, host@, jobs, on@),
{
    let dir = source_path(output, version);
    let mut r: Vec<Invocation> = Vec::new();
    push_run(&mut r, run_in("./configure", dir.as_str(), configure_args(search, target, host, on)));
    push_run(&mut r, make(dir.as_str(), jobs));
    assert(views(r@) =~= ffmpeg_build(output@, search@, version@, target@, host@, jobs, on@));
    r
}

} // verus!
