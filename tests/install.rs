use ffmpeg_sys::install::{install_path, install_write, Executable};

#[test]
fn file_names() {
    assert_eq!(Executable::Ffmpeg.file_name(), "ffmpeg");
    assert_eq!(Executable::Ffprobe.file_name(), "ffprobe");
}

#[test]
fn install_path_under_directory() {
    assert_eq!(install_path("/tmp/_ffmpeg_bin", Executable::Ffmpeg), "/tmp/_ffmpeg_bin/ffmpeg");
    assert_eq!(install_path("/tmp/_ffmpeg_bin/", Executable::Ffprobe), "/tmp/_ffmpeg_bin/ffprobe");
    assert_eq!(install_path("", Executable::Ffmpeg), "ffmpeg");
    assert_eq!(install_path("bin", Executable::Ffprobe), "bin/ffprobe");
}

#[test]
fn install_write_targets_file_with_image() {
    let w = install_write("/tmp/_ffmpeg_bin", Executable::Ffprobe, vec![0x7f, b'E', b'L', b'F']);
    assert_eq!(w.path, "/tmp/_ffmpeg_bin/ffprobe");
    assert_eq!(w.bytes, vec![0x7f, b'E', b'L', b'F']);
}

#[test]
fn install_writes_keep_executables_apart() {
    let a = install_write("bin", Executable::Ffmpeg, vec![1]);
    let b = install_write("bin", Executable::Ffprobe, vec![2]);
    assert_ne!(a.path, b.path);
    assert_eq!(a.path, "bin/ffmpeg");
    assert_eq!(b.bytes, vec![2]);
}
