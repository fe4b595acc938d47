use vstd::prelude::*;

use crate::flags::TOGGLE_COUNT;
use crate::install::{executable_name, install_path, Executable};
use crate::plan::{
    build, build_libx264, build_nasm, fetch, fetch_libx264, fetch_nasm, ffmpeg_build, ffmpeg_fetch,
    joined, nasm_build, nasm_fetch, source_dir, source_path, views, x264_build,
    x264_fetch, Invocation, InvocationView,
};

verus! {

/// The stage of the build that a step belongs to; a failure is reported by
/// its stage.
#[derive(Debug, Clone, Copy, PartialEq, Eq, Structural)]
pub enum Phase {
    Prepare,
    Nasm,
    X264,
    Fetch,
    Build,
}

/// The message by which a failure in `phase` is reported.
pub open spec fn failure_text(phase: Phase) -> Seq<char> {
    match phase {
        Phase::Prepare => "failed to create build directory"@,
        Phase::Nasm => "build nasm failed"@,
        Phase::X264 => "build x264 failed"@,
        Phase::Fetch => "fetch failed"@,
        Phase::Build => "build failed"@,
    }
}

impl Phase {
    /// The message by which a failure in this stage is reported.
    pub fn failure_message(&self) -> (r: &'static str)
        ensures
            r@ == failure_text(*self),
    {
        match self {
            Phase::Prepare => "failed to create build directory",
            Phase::Nasm => "build nasm failed",
            Phase::X264 => "build x264 failed",
            Phase::Fetch => "fetch failed",
            Phase::Build => "build failed",
        }
    }
}

/// One thing the build does.
pub enum Action {
    /// Create a directory and its parents.
    CreateDir(String),
    /// Run a command; it fails when the program cannot be started or exits
    /// with failure.
    Run(Invocation),
    /// Move a file.
    Rename(String, String),
    /// Remove a directory and all it holds.
    RemoveDir(String),
}

pub enum ActionView {
    CreateDir(Seq<char>),
    Run(InvocationView),
    Rename(Seq<char>, Seq<char>),
    RemoveDir(Seq<char>),
}

impl View for Action {
    type V = ActionView;

    open spec fn view(&self) -> ActionView {
        match self {
            Action::CreateDir(d) => ActionView::CreateDir(d@),
            Action::Run(i) => ActionView::Run(i@),
            Action::Rename(a, b) => ActionView::Rename(a@, b@),
            Action::RemoveDir(d) => ActionView::RemoveDir(d@),
        }
    }
}

/// An action and the stage it belongs to.
pub struct Step {
    pub phase: Phase,
    pub action: Action,
}

pub struct StepView {
    pub phase: Phase,
    pub action: ActionView,
}

impl View for Step {
    type V = StepView;

    open spec fn view(&self) -> StepView {
        StepView { phase: self.phase, action: self.action@ }
    }
}

/// What each step of `s` does.
pub open spec fn step_views(s: Seq<Step>) -> Seq<StepView> {
    s.map_values(|x: Step| x@)
}

/// Each command of `s`, run in `phase`.
pub open spec fn runs(phase: Phase, s: Seq<InvocationView>) -> Seq<StepView> {
    s.map_values(|i: InvocationView| StepView { phase, action: ActionView::Run(i) })
}

/// What a build is made from: the directory it works in and leaves the
/// executables in, the prefix the dependencies install to, FFmpeg's version,
/// the target and host triples, how many jobs `make` runs, and which
/// toggles are set.
pub struct BuildConfig {
    pub output: String,
    pub search: String,
    pub version: String,
    pub target: String,
    pub host: String,
    pub jobs: u64,
    pub enabled: Vec<bool>,
}

pub struct BuildConfigView {
    pub output: Seq<char>,
    pub search: Seq<char>,
    pub version: Seq<char>,
    pub target: Seq<char>,
    pub host: Seq<char>,
    pub jobs: u64,
    pub enabled: Seq<bool>,
}

impl View for BuildConfig {
    type V = BuildConfigView;

    open spec fn view(&self) -> BuildConfigView {
        BuildConfigView {
            output: self.output@,
            search: self.search@,
            version: self.version@,
            target: self.target@,
            host: self.host@,
            jobs: self.jobs,
            enabled: self.enabled@,
        }
    }
}

/// What an earlier build left: the `ffmpeg` executable in the output
/// directory, and the directories of the nasm, x264 and FFmpeg sources.
#[derive(Debug, Clone, Copy, PartialEq, Eq, Structural)]
pub struct Presence {
    pub executables: bool,
    pub nasm: bool,
    pub x264: bool,
    pub source: bool,
}

/// Moves `e` out of FFmpeg's source directory `src` into `output`.
pub open spec fn move_out(src: Seq<char>, output: Seq<char>, e: Executable) -> StepView {
    StepView {
        phase: Phase::Build,
        action: ActionView::Rename(
            joined(src, executable_name(e)),
            joined(output, executable_name(e)),
        ),
    }
}

/// Moves the executables out of FFmpeg's source directory into the output
/// directory, then removes the sources.
pub open spec fn finish_steps(output: Seq<char>, version: Seq<char>) -> Seq<StepView> {
    let src = source_dir(output, version);
    seq![
        move_out(src, output, Executable::Ffmpeg),
        move_out(src, output, Executable::Ffprobe),
        StepView { phase: Phase::Build, action: ActionView::RemoveDir(src) },
    ]
}

/// The steps of a build, in order. Nothing is done when the executables are
/// there; otherwise the output directory is made, nasm and x264 are built,
/// FFmpeg is fetched and built, and its executables are moved out. Sources
/// that are already there are not fetched again.
pub open spec fn build_steps(c: BuildConfigView, have: Presence) -> Seq<StepView> {
    if have.executables {
        seq![]
    } else {
        seq![StepView { phase: Phase::Prepare, action: ActionView::CreateDir(c.output) }] + runs(
            Phase::Nasm,
            (if have.nasm { seq![] } else { nasm_fetch(c.output) }) + nasm_build(
                c.output,
                c.search,
                c.jobs,
            ),
        ) + runs(
            Phase::X264,
            (if have.x264 { seq![] } else { seq![x264_fetch(c.output)] }) + x264_build(
                c.output,
                c.search,
                c.jobs,
            ),
        ) + runs(
            Phase::Fetch,
            if have.source { seq![] } else { seq![ffmpeg_fetch(c.output, c.version)] },
        ) + runs(
            Phase::Build,
            ffmpeg_build(c.output, c.search, c.version, c.target, c.host, c.jobs, c.enabled),
        ) + finish_steps(c.output, c.version)
    }
}

fn push_step(v: &mut Vec<Step>, phase: Phase, action: Action)
    ensures
        step_views(final(v)@) == step_views(old(v)@).push(StepView { phase, action: action@ }),
{
    v.push(Step { phase, action });
    assert(step_views(v@) =~= step_views(old(v)@).push(StepView { phase, action: action@ }));
}

fn push_runs(v: &mut Vec<Step>, phase: Phase, cmds: Vec<Invocation>)
    ensures
        step_views(final(v)@) == step_views(old(v)@) + runs(phase, views(cmds@)),
{
    let mut rest = cmds;
    let ghost all = views(cmds@);
    while rest.len() > 0
        invariant
            views(rest@) == all.subrange(all.len() - rest@.len(), all.len() as int),
            rest@.len() <= all.len(),
            all == views(cmds@),
            step_views(v@) == step_views(old(v)@) + runs(
                phase,
                all.subrange(0, all.len() - rest@.len()),
            ),
        decreases rest.len(),
    {
        let ghost k = all.len() - rest@.len();
        let ghost before = rest@;
        let i = rest.remove(0);
        proof {
            assert(views(before)[0] == i@);
            assert(views(rest@) =~= views(before).drop_first());
        }
        push_step(v, phase, Action::Run(i));
        proof {
            assert(all[k] == i@);
            assert(runs(phase, all.subrange(0, k + 1)) =~= runs(phase, all.subrange(0, k)).push(
                StepView { phase, action: ActionView::Run(i@) },
            ));
        }
    }
    assert(all.subrange(0, all.len() as int) =~= all);
}

/// The steps of a build from `config`, given what an earlier build left.
pub fn plan(config: &BuildConfig, have: &Presence) -> (r: Vec<Step>)
    requires
        config.enabled.len() == TOGGLE_COUNT,
    ensures
        step_views(r@) == build_steps(config@, *have),
{
    let mut v: Vec<Step> = Vec::new();
    if have.executables {
        assert(step_views(v@) =~= build_steps(config@, *have));
        return v;
    }
    let out = config.output.as_str();
    let search = config.search.as_str();
    push_step(&mut v, Phase::Prepare, Action::CreateDir(String::from_str(out)));
    let ghost s0 = step_views(v@);
    if !have.nasm {
        push_runs(&mut v, Phase::Nasm, fetch_nasm(out));
    }
    push_runs(&mut v, Phase::Nasm, build_nasm(out, search, config.jobs));
    let ghost s1 = step_views(v@);
    assert(s1 =~= s0 + runs(
        Phase::Nasm,
        (if have.nasm { seq![] } else { nasm_fetch(config.output@) }) + nasm_build(
            config.output@,
            config.search@,
            config.jobs,
        ),
    ));
    if !have.x264 {
        let mut one: Vec<Invocation> = Vec::new();
        one.push(fetch_libx264(out));
        assert(views(one@) =~= seq![x264_fetch(config.output@)]);
        push_runs(&mut v, Phase::X264, one);
    }
    push_runs(&mut v, Phase::X264, build_libx264(out, search, config.jobs));
    let ghost s2 = step_views(v@);
    assert(s2 =~= s1 + runs(
        Phase::X264,
        (if have.x264 { seq![] } else { seq![x264_fetch(config.output@)] }) + x264_build(
            config.output@,
            config.search@,
            config.jobs,
        ),
    ));
    let mut one: Vec<Invocation> = Vec::new();
    if !have.source {
        one.push(fetch(out, config.version.as_str()));
    }
    assert(views(one@) =~= if have.source {
        seq![]
    } else {
        seq![ffmpeg_fetch(config.output@, config.version@)]
    });
    push_runs(&mut v, Phase::Fetch, one);
    push_runs(
        &mut v,
        Phase::Build,
        build(
            out,
            search,
            config.version.as_str(),
            config.target.as_str(),
            config.host.as_str(),
            config.jobs,
            &config.enabled,
        ),
    );
    let ghost s3 = step_views(v@);
    let src = source_path(out, config.version.as_str());
    push_step(
        &mut v,
        Phase::Build,
        Action::Rename(
            install_path(src.as_str(), Executable::Ffmpeg),
            install_path(out, Executable::Ffmpeg),
        ),
    );
    push_step(
        &mut v,
        Phase::Build,
        Action::Rename(
            install_path(src.as_str(), Executable::Ffprobe),
            install_path(out, Executable::Ffprobe),
        ),
    );
    push_step(&mut v, Phase::Build, Action::RemoveDir(src));
    assert(step_views(v@) =~= s3 + finish_steps(config.output@, config.version@));
    assert(step_views(v@) =~= build_steps(config@, *have));
    v
}

} // verus!
