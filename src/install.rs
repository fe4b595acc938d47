use vstd::prelude::*;

use crate::plan::{join_path, joined};

verus! {

/// One of the two programs that the build produces and that can be
/// installed.
#[derive(Debug, Clone, Copy, PartialEq, Eq, Structural)]
pub enum Executable {
    Ffmpeg,
    Ffprobe,
}

/// The file name of an executable.
pub open spec fn executable_name(e: Executable) -> Seq<char> {
    match e {
        Executable::Ffmpeg => "ffmpeg"@,
        Executable::Ffprobe => "ffprobe"@,
    }
}

impl Executable {
    /// The file name of this executable.
    pub fn file_name(&self) -> (r: &'static str)
        ensures
            r@ == executable_name(*self),
    {
        match self {
            Executable::Ffmpeg => "ffmpeg",
            Executable::Ffprobe => "ffprobe",
        }
    }
}

/// The file that installing `e` into the directory `dir` writes: the
/// executable's file name under `dir`.
pub fn install_path(dir: &str, e: Executable) -> (r: String)
    ensures
        r@ == joined(dir@, executable_name(e)),
{
    join_path(dir, e.file_name())
}

/// Writing a whole file: the file at `path` is created, or emptied when it
/// is there, and comes to hold `bytes`.
pub struct FileWrite {
    pub path: String,
    pub bytes: Vec<u8>,
}

pub struct FileWriteView {
    pub path: Seq<char>,
    pub bytes: Seq<u8>,
}

impl View for FileWrite {
    type V = FileWriteView;

    open spec fn view(&self) -> FileWriteView {
        FileWriteView { path: self.path@, bytes: self.bytes@ }
    }
}

/// What the files hold, by path, once `w` has been carried out: the file
/// at its path holds exactly its bytes, whatever it held before, and every
/// other file is as it was.
pub open spec fn after_write(files: Map<Seq<char>, Seq<u8>>, w: FileWriteView) -> Map<
    Seq<char>,
    Seq<u8>,
> {
    files.insert(w.path, w.bytes)
}

/// Installing `e` into `dir`: its file under `dir` comes to hold `image`.
pub open spec fn install_write_view(dir: Seq<char>, e: Executable, image: Seq<u8>) -> FileWriteView {
    FileWriteView { path: joined(dir, executable_name(e)), bytes: image }
}

/// The write that installs the executable `e`, whose bytes are `image`,
/// into the directory `dir`.
pub fn install_write(dir: &str, e: Executable, image: Vec<u8>) -> (r: FileWrite)
    ensures
        r@ == install_write_view(dir@, e, image@),
{
    FileWrite { path: install_path(dir, e), bytes: image }
}

/// Installing writes the executable's bytes, exactly and whole, to its file
/// under the directory, whatever that file held before.
pub proof fn law_install_writes_image(
    files: Map<Seq<char>, Seq<u8>>,
    dir: Seq<char>,
    e: Executable,
    image: Seq<u8>,
)
    ensures
        after_write(files, install_write_view(dir, e, image)).contains_key(
            joined(dir, executable_name(e)),
        ),
        after_write(files, install_write_view(dir, e, image))[joined(dir, executable_name(e))]
            == image,
{
}

/// Installing changes no file but the executable's own.
pub proof fn law_install_touches_one_file(
    files: Map<Seq<char>, Seq<u8>>,
    dir: Seq<char>,
    e: Executable,
    image: Seq<u8>,
    other: Seq<char>,
)
    requires
        other != joined(dir, executable_name(e)),
    ensures
        after_write(files, install_write_view(dir, e, image)).contains_key(other)
            == files.contains_key(other),
        files.contains_key(other) ==> after_write(files, install_write_view(dir, e, image))[other]
            == files[other],
{
}

/// Installing the same executable twice leaves what installing it once
/// leaves.
pub proof fn law_install_twice(
    files: Map<Seq<char>, Seq<u8>>,
    dir: Seq<char>,
    e: Executable,
    image: Seq<u8>,
)
    ensures
        after_write(
            after_write(files, install_write_view(dir, e, image)),
            install_write_view(dir, e, image),
        ) == after_write(files, install_write_view(dir, e, image)),
{
    let w = install_write_view(dir, e, image);
    assert(after_write(after_write(files, w), w) =~= after_write(files, w));
}

/// `ffmpeg` and `ffprobe` go to two different files of the same directory.
pub proof fn law_executables_apart(dir: Seq<char>)
    ensures
        joined(dir, executable_name(Executable::Ffmpeg)) != joined(
            dir,
            executable_name(Executable::Ffprobe),
        ),
{
    reveal_strlit("ffmpeg");
    reveal_strlit("ffprobe");
    assert(joined(dir, executable_name(Executable::Ffmpeg)).len() + 1 == joined(
        dir,
        executable_name(Executable::Ffprobe),
    ).len());
}

/// Installing `ffmpeg` and then `ffprobe` into one directory leaves each
/// file holding its own executable's bytes.
pub proof fn law_install_both(
    files: Map<Seq<char>, Seq<u8>>,
    dir: Seq<char>,
    ffmpeg: Seq<u8>,
    ffprobe: Seq<u8>,
)
    ensures
        ({
            let after = after_write(
                after_write(files, install_write_view(dir, Executable::Ffmpeg, ffmpeg)),
                install_write_view(dir, Executable::Ffprobe, ffprobe),
            );
            &&& after[joined(dir, executable_name(Executable::Ffmpeg))] == ffmpeg
            &&& after[joined(dir, executable_name(Executable::Ffprobe))] == ffprobe
        }),
{
    law_executables_apart(dir);
}

} // verus!
