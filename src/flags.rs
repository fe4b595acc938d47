use vstd::prelude::*;

verus! {

/// The upper-case form of a text, as Unicode defines it.
pub uninterp spec fn upper_of(s: Seq<char>) -> Seq<char>;

/// Every character of `s` is ASCII.
pub open spec fn is_ascii_text(s: Seq<char>) -> bool {
    forall|i: int| 0 <= i < s.len() ==> (#[trigger] s[i] as u32) < 128
}

/// The upper case of an ASCII character: `a` to `z` become `A` to `Z`, and
/// any other character is kept.
pub open spec fn ascii_upper_char(c: char) -> char {
    if 'a' <= c && c <= 'z' {
        ((c as u32 - 32) as u32) as char
    } else {
        c
    }
}

/// The upper case of an ASCII text, character by character.
pub open spec fn ascii_upper(s: Seq<char>) -> Seq<char> {
    s.map_values(|c: char| ascii_upper_char(c))
}

/// Relies on `str::to_uppercase`: the result depends on the characters
/// alone, and on ASCII text it is the ASCII upper case (Unicode's upper case
/// mapping of `a` to `z` is `A` to `Z`, and it keeps every other ASCII
/// character).
#[verifier::external_body]
fn uppercase(s: &str) -> (r: String)
    ensures
        r@ == upper_of(s@),
        is_ascii_text(s@) ==> r@ == ascii_upper(s@),
{
    s.to_uppercase()
}

/// One of FFmpeg's libraries, and whether a feature of this package turns
/// it on or off.
pub struct Library {
    pub name: &'static str,
    pub is_feature: bool,
}

/// FFmpeg's libraries, in the order in which they are configured.
pub open spec fn library_table() -> Seq<(Seq<char>, bool)> {
    seq![
        ("avcodec"@, true),
        ("avdevice"@, true),
        ("avfilter"@, true),
        ("avformat"@, true),
        ("avresample"@, true),
        ("avutil"@, false),
        ("postproc"@, true),
        ("swresample"@, true),
        ("swscale"@, true),
    ]
}

pub open spec fn library_view(l: Library) -> (Seq<char>, bool) {
    (l.name@, l.is_feature)
}

fn push_library(v: &mut Vec<Library>, name: &'static str, is_feature: bool)
    ensures
        final(v)@ == old(v)@.push(Library { name, is_feature }),
{
    v.push(Library { name, is_feature });
}

/// FFmpeg's libraries.
pub fn libraries() -> (r: Vec<Library>)
    ensures
        r@.map_values(|l: Library| library_view(l)) == library_table(),
{
    let mut v: Vec<Library> = Vec::new();
    push_library(&mut v, "avcodec", true);
    push_library(&mut v, "avdevice", true);
    push_library(&mut v, "avfilter", true);
    push_library(&mut v, "avformat", true);
    push_library(&mut v, "avresample", true);
    push_library(&mut v, "avutil", false);
    push_library(&mut v, "postproc", true);
    push_library(&mut v, "swresample", true);
    push_library(&mut v, "swscale", true);
    assert(v@.map_values(|l: Library| library_view(l)) =~= library_table());
    v
}

/// An option of FFmpeg's `configure` that a feature of this package turns
/// on: `--enable-<name>` is passed when the feature `<feature>` is set.
pub struct Toggle {
    pub feature: String,
    pub name: String,
}

pub open spec fn toggle_view(t: Toggle) -> (Seq<char>, Seq<char>) {
    (t.feature@, t.name@)
}

/// The feature and the name of each toggle of `s`.
pub open spec fn toggle_views(s: Seq<Toggle>) -> Seq<(Seq<char>, Seq<char>)> {
    s.map_values(|t: Toggle| toggle_view(t))
}

/// The toggles of the libraries in `libs` that a feature turns on, in order:
/// the feature of a library is its name in upper case.
pub open spec fn library_toggles(libs: Seq<(Seq<char>, bool)>) -> Seq<(Seq<char>, Seq<char>)>
    decreases libs.len(),
{
    if libs.len() == 0 {
        seq![]
    } else {
        let rest = library_toggles(libs.drop_last());
        if libs.last().1 {
            rest.push((upper_of(libs.last().0), libs.last().0))
        } else {
            rest
        }
    }
}

/// The license toggles, which come first.
pub open spec fn license_toggles() -> Seq<(Seq<char>, Seq<char>)> {
    seq![
        ("BUILD_LICENSE_GPL"@, "gpl"@),
        ("BUILD_LICENSE_VERSION3"@, "version3"@),
        ("BUILD_LICENSE_NONFREE"@, "nonfree"@),
    ]
}

/// The toggles of TLS libraries and of outside filters.
pub open spec fn filter_toggles() -> Seq<(Seq<char>, Seq<char>)> {
    seq![
        ("BUILD_LIB_GNUTLS"@, "gnutls"@),
        ("BUILD_LIB_OPENSSL"@, "openssl"@),
        ("BUILD_LIB_FONTCONFIG"@, "fontconfig"@),
        ("BUILD_LIB_FREI0R"@, "frei0r"@),
        ("BUILD_LIB_LADSPA"@, "ladspa"@),
        ("BUILD_LIB_ASS"@, "libass"@),
        ("BUILD_LIB_FREETYPE"@, "libfreetype"@),
        ("BUILD_LIB_FRIBIDI"@, "libfribidi"@),
        ("BUILD_LIB_OPENCV"@, "libopencv"@),
    ]
}

/// The toggles of outside encoders and decoders.
pub open spec fn codec_toggles() -> Seq<(Seq<char>, Seq<char>)> {
    seq![
        ("BUILD_LIB_AACPLUS"@, "libaacplus"@),
        ("BUILD_LIB_CELT"@, "libcelt"@),
        ("BUILD_LIB_DCADEC"@, "libdcadec"@),
        ("BUILD_LIB_FAAC"@, "libfaac"@),
        ("BUILD_LIB_FDK_AAC"@, "libfdk-aac"@),
        ("BUILD_LIB_GSM"@, "libgsm"@),
        ("BUILD_LIB_ILBC"@, "libilbc"@),
        ("BUILD_LIB_VAZAAR"@, "libvazaar"@),
        ("BUILD_LIB_MP3LAME"@, "libmp3lame"@),
        ("BUILD_LIB_OPENCORE_AMRNB"@, "libopencore-amrnb"@),
        ("BUILD_LIB_OPENCORE_AMRWB"@, "libopencore-amrwb"@),
        ("BUILD_LIB_OPENH264"@, "libopenh264"@),
        ("BUILD_LIB_OPENH265"@, "libopenh265"@),
        ("BUILD_LIB_OPENJPEG"@, "libopenjpeg"@),
        ("BUILD_LIB_OPUS"@, "libopus"@),
        ("BUILD_LIB_SCHROEDINGER"@, "libschroedinger"@),
        ("BUILD_LIB_SHINE"@, "libshine"@),
        ("BUILD_LIB_SNAPPY"@, "libsnappy"@),
        ("BUILD_LIB_SPEEX"@, "libspeex"@),
        ("BUILD_LIB_STAGEFRIGHT_H264"@, "libstagefright-h264"@),
        ("BUILD_LIB_THEORA"@, "libtheora"@),
        ("BUILD_LIB_TWOLAME"@, "libtwolame"@),
        ("BUILD_LIB_UTVIDEO"@, "libutvideo"@),
        ("BUILD_LIB_VO_AACENC"@, "libvo-aacenc"@),
        ("BUILD_LIB_VO_AMRWBENC"@, "libvo-amrwbenc"@),
        ("BUILD_LIB_VORBIS"@, "libvorbis"@),
        ("BUILD_LIB_VPX"@, "libvpx"@),
        ("BUILD_LIB_WAVPACK"@, "libwavpack"@),
        ("BUILD_LIB_WEBP"@, "libwebp"@),
        ("BUILD_LIB_X264"@, "libx264"@),
        ("BUILD_LIB_X265"@, "libx265"@),
        ("BUILD_LIB_AVS"@, "libavs"@),
        ("BUILD_LIB_XVID"@, "libxvid"@),
    ]
}

/// The toggles of outside protocols and other build options.
pub open spec fn misc_toggles() -> Seq<(Seq<char>, Seq<char>)> {
    seq![
        ("BUILD_NVENC"@, "nvenc"@),
        ("BUILD_LIB_SMBCLIENT"@, "libsmbclient"@),
        ("BUILD_LIB_SSH"@, "libssh"@),
        ("BUILD_PIC"@, "pic"@),
    ]
}

/// The toggles of outside libraries and build options, which come last.
pub open spec fn external_toggles() -> Seq<(Seq<char>, Seq<char>)> {
    filter_toggles() + codec_toggles() + misc_toggles()
}

/// Every toggle, in the order in which its option is passed.
pub open spec fn toggle_table() -> Seq<(Seq<char>, Seq<char>)> {
    license_toggles() + library_toggles(library_table()) + external_toggles()
}

/// How many toggles there are.
pub const TOGGLE_COUNT: usize = 57;

fn push_toggle(v: &mut Vec<Toggle>, feature: &str, name: &str)
    ensures
        toggle_views(final(v)@) == toggle_views(old(v)@).push((feature@, name@)),
{
    v.push(Toggle { feature: String::from_str(feature), name: String::from_str(name) });
    assert(toggle_views(v@) =~= toggle_views(old(v)@).push((feature@, name@)));
}

fn push_library_toggles(v: &mut Vec<Toggle>, libs: &Vec<Library>)
    ensures
        forall|j: int|
            0 <= j < libs@.len() && libs@[j].is_feature && is_ascii_text(#[trigger] libs@[j].name@)
                ==> upper_of(libs@[j].name@) == ascii_upper(libs@[j].name@),
        toggle_views(final(v)@) == toggle_views(old(v)@) + library_toggles(
            libs@.map_values(|l: Library| library_view(l)),
        ),
{
    let mut i: usize = 0;
    while i < libs.len()
        invariant
            i <= libs.len(),
            forall|j: int|
                0 <= j < i && libs@[j].is_feature && is_ascii_text(#[trigger] libs@[j].name@)
                    ==> upper_of(libs@[j].name@) == ascii_upper(libs@[j].name@),
            toggle_views(v@) == toggle_views(old(v)@) + library_toggles(
                libs@.subrange(0, i as int).map_values(|l: Library| library_view(l)),
            ),
        decreases libs.len() - i,
    {
        let lib = &libs[i];
        let ghost before = v@;
        if lib.is_feature {
            let feature = uppercase(lib.name);
            v.push(Toggle { feature, name: String::from_str(lib.name) });
            assert(toggle_views(v@) =~= toggle_views(before).push((upper_of(lib.name@), lib.name@)));
        }
        proof {
            let next = libs@.subrange(0, i + 1).map_values(|l: Library| library_view(l));
            assert(next.drop_last() =~= libs@.subrange(0, i as int).map_values(
                |l: Library| library_view(l),
            ));
        }
        i = i + 1;
    }
    assert(libs@.subrange(0, i as int) =~= libs@);
}

fn push_filter_toggles(v: &mut Vec<Toggle>)
    ensures
        toggle_views(final(v)@) == toggle_views(old(v)@) + filter_toggles(),
{
    let ghost start = toggle_views(v@);
    push_toggle(v, "BUILD_LIB_GNUTLS", "gnutls");
    push_toggle(v, "BUILD_LIB_OPENSSL", "openssl");
    push_toggle(v, "BUILD_LIB_FONTCONFIG", "fontconfig");
    push_toggle(v, "BUILD_LIB_FREI0R", "frei0r");
    push_toggle(v, "BUILD_LIB_LADSPA", "ladspa");
    push_toggle(v, "BUILD_LIB_ASS", "libass");
    push_toggle(v, "BUILD_LIB_FREETYPE", "libfreetype");
    push_toggle(v, "BUILD_LIB_FRIBIDI", "libfribidi");
    push_toggle(v, "BUILD_LIB_OPENCV", "libopencv");
    assert(toggle_views(v@) =~= start + filter_toggles());
}

fn push_codec_toggles(v: &mut Vec<Toggle>)
    ensures
        toggle_views(final(v)@) == toggle_views(old(v)@) + codec_toggles(),
{
    let ghost start = toggle_views(v@);
    push_toggle(v, "BUILD_LIB_AACPLUS", "libaacplus");
    push_toggle(v, "BUILD_LIB_CELT", "libcelt");
    push_toggle(v, "BUILD_LIB_DCADEC", "libdcadec");
    push_toggle(v, "BUILD_LIB_FAAC", "libfaac");
    push_toggle(v, "BUILD_LIB_FDK_AAC", "libfdk-aac");
    push_toggle(v, "BUILD_LIB_GSM", "libgsm");
    push_toggle(v, "BUILD_LIB_ILBC", "libilbc");
    push_toggle(v, "BUILD_LIB_VAZAAR", "libvazaar");
    push_toggle(v, "BUILD_LIB_MP3LAME", "libmp3lame");
    push_toggle(v, "BUILD_LIB_OPENCORE_AMRNB", "libopencore-amrnb");
    push_toggle(v, "BUILD_LIB_OPENCORE_AMRWB", "libopencore-amrwb");
    push_toggle(v, "BUILD_LIB_OPENH264", "libopenh264");
    push_toggle(v, "BUILD_LIB_OPENH265", "libopenh265");
    push_toggle(v, "BUILD_LIB_OPENJPEG", "libopenjpeg");
    push_toggle(v, "BUILD_LIB_OPUS", "libopus");
    push_toggle(v, "BUILD_LIB_SCHROEDINGER", "libschroedinger");
    push_toggle(v, "BUILD_LIB_SHINE", "libshine");
    push_toggle(v, "BUILD_LIB_SNAPPY", "libsnappy");
    push_toggle(v, "BUILD_LIB_SPEEX", "libspeex");
    push_toggle(v, "BUILD_LIB_STAGEFRIGHT_H264", "libstagefright-h264");
    push_toggle(v, "BUILD_LIB_THEORA", "libtheora");
    push_toggle(v, "BUILD_LIB_TWOLAME", "libtwolame");
    push_toggle(v, "BUILD_LIB_UTVIDEO", "libutvideo");
    push_toggle(v, "BUILD_LIB_VO_AACENC", "libvo-aacenc");
    push_toggle(v, "BUILD_LIB_VO_AMRWBENC", "libvo-amrwbenc");
    push_toggle(v, "BUILD_LIB_VORBIS", "libvorbis");
    push_toggle(v, "BUILD_LIB_VPX", "libvpx");
    push_toggle(v, "BUILD_LIB_WAVPACK", "libwavpack");
    push_toggle(v, "BUILD_LIB_WEBP", "libwebp");
    push_toggle(v, "BUILD_LIB_X264", "libx264");
    push_toggle(v, "BUILD_LIB_X265", "libx265");
    push_toggle(v, "BUILD_LIB_AVS", "libavs");
    push_toggle(v, "BUILD_LIB_XVID", "libxvid");
    assert(toggle_views(v@) =~= start + codec_toggles());
}

fn push_misc_toggles(v: &mut Vec<Toggle>)
    ensures
        toggle_views(final(v)@) == toggle_views(old(v)@) + misc_toggles(),
{
    let ghost start = toggle_views(v@);
    push_toggle(v, "BUILD_NVENC", "nvenc");
    push_toggle(v, "BUILD_LIB_SMBCLIENT", "libsmbclient");
    push_toggle(v, "BUILD_LIB_SSH", "libssh");
    push_toggle(v, "BUILD_PIC", "pic");
    assert(toggle_views(v@) =~= start + misc_toggles());
}

proof fn lemma_library_toggles_len()
    ensures
        library_toggles(library_table()).len() == 8,
{
    reveal_with_fuel(library_toggles, 10);
}

/// The toggles of the libraries, as `configure` sees them.
pub open spec fn library_features() -> Seq<(Seq<char>, Seq<char>)> {
    seq![
        ("AVCODEC"@, "avcodec"@),
        ("AVDEVICE"@, "avdevice"@),
        ("AVFILTER"@, "avfilter"@),
        ("AVFORMAT"@, "avformat"@),
        ("AVRESAMPLE"@, "avresample"@),
        ("POSTPROC"@, "postproc"@),
        ("SWRESAMPLE"@, "swresample"@),
        ("SWSCALE"@, "swscale"@),
    ]
}

/// The names of the libraries are ASCII, and their upper case is the
/// ASCII one.
proof fn lemma_library_features()
    requires
        forall|j: int|
            0 <= j < library_table().len() && library_table()[j].1 && is_ascii_text(
                #[trigger] library_table()[j].0,
            ) ==> upper_of(library_table()[j].0) == ascii_upper(library_table()[j].0),
    ensures
        library_toggles(library_table()) == library_features(),
{
    reveal_strlit("avcodec");
    reveal_strlit("AVCODEC");
    reveal_strlit("avdevice");
    reveal_strlit("AVDEVICE");
    reveal_strlit("avfilter");
    reveal_strlit("AVFILTER");
    reveal_strlit("avformat");
    reveal_strlit("AVFORMAT");
    reveal_strlit("avresample");
    reveal_strlit("AVRESAMPLE");
    reveal_strlit("postproc");
    reveal_strlit("POSTPROC");
    reveal_strlit("swresample");
    reveal_strlit("SWRESAMPLE");
    reveal_strlit("swscale");
    reveal_strlit("SWSCALE");
    reveal_strlit("avutil");
    let t = library_table();
    assert forall|j: int| 0 <= j < t.len() implies is_ascii_text(#[trigger] t[j].0) by {
    }
    assert(ascii_upper("avcodec"@) =~= "AVCODEC"@);
    assert(ascii_upper("avdevice"@) =~= "AVDEVICE"@);
    assert(ascii_upper("avfilter"@) =~= "AVFILTER"@);
    assert(ascii_upper("avformat"@) =~= "AVFORMAT"@);
    assert(ascii_upper("avresample"@) =~= "AVRESAMPLE"@);
    assert(ascii_upper("postproc"@) =~= "POSTPROC"@);
    assert(ascii_upper("swresample"@) =~= "SWRESAMPLE"@);
    assert(ascii_upper("swscale"@) =~= "SWSCALE"@);
    reveal_with_fuel(library_toggles, 10);
    assert(library_toggles(t) =~= library_features());
}

/// Every toggle: the licenses, the libraries that a feature turns on, then
/// outside libraries and build options.
pub fn toggles() -> (r: Vec<Toggle>)
    ensures
        toggle_views(r@) == toggle_table(),
        toggle_views(r@).subrange(3, 11) == library_features(),
        r.len() == TOGGLE_COUNT,
{
    let mut v: Vec<Toggle> = Vec::new();
    push_toggle(&mut v, "BUILD_LICENSE_GPL", "gpl");
    push_toggle(&mut v, "BUILD_LICENSE_VERSION3", "version3");
    push_toggle(&mut v, "BUILD_LICENSE_NONFREE", "nonfree");
    assert(toggle_views(v@) =~= license_toggles());
    let libs = libraries();
    push_library_toggles(&mut v, &libs);
    proof {
        assert(libs@.map_values(|l: Library| library_view(l)) == library_table());
        assert forall|j: int|
            0 <= j < library_table().len() && library_table()[j].1 && is_ascii_text(
                #[trigger] library_table()[j].0,
            ) implies upper_of(library_table()[j].0) == ascii_upper(library_table()[j].0) by {
            assert(library_view(libs@[j]) == library_table()[j]);
        }
        lemma_library_features();
    }
    let ghost head = toggle_views(v@);
    push_filter_toggles(&mut v);
    push_codec_toggles(&mut v);
    push_misc_toggles(&mut v);
    proof {
        lemma_library_toggles_len();
        assert(toggle_views(v@) =~= head + external_toggles());
        assert(toggle_views(v@) =~= toggle_table());
        assert(toggle_views(v@).subrange(3, 11) =~= library_features());
        assert(v@.len() == toggle_views(v@).len());
    }
    v
}

/// The environment variable that is set when the package is built with the
/// feature `feature`.
pub open spec fn feature_variable_text(feature: Seq<char>) -> Seq<char> {
    "CARGO_FEATURE_"@ + feature
}

/// The environment variable that tells whether the feature `feature` is set.
pub fn feature_variable(feature: &str) -> (r: String)
    ensures
        r@ == feature_variable_text(feature@),
{
    let mut r = String::from_str("CARGO_FEATURE_");
    r.append(feature);
    r
}

/// The option of `configure` that turns `name` on.
pub open spec fn enable_text(name: Seq<char>) -> Seq<char> {
    "--enable-"@ + name
}

/// The text of each string of `s`.
pub open spec fn texts(s: Seq<String>) -> Seq<Seq<char>> {
    s.map_values(|x: String| x@)
}

/// Adds `--enable-<name>` to `args` when `enabled` holds.
pub fn switch(args: &mut Vec<String>, enabled: bool, name: &str)
    ensures
        texts(final(args)@) == if enabled {
            texts(old(args)@).push(enable_text(name@))
        } else {
            texts(old(args)@)
        },
{
    if enabled {
        let mut a = String::from_str("--enable-");
        a.append(name);
        args.push(a);
        assert(texts(args@) =~= texts(old(args)@).push(enable_text(name@)));
    }
}

/// The options that turn on the toggles of `t` whose entry in `on` holds, in
/// the order of `t`; the entry of `on` at each position belongs to the
/// toggle at the same position.
pub open spec fn enabled_options(t: Seq<(Seq<char>, Seq<char>)>, on: Seq<bool>) -> Seq<Seq<char>>
    recommends
        t.len() == on.len(),
    decreases t.len(),
{
    if t.len() == 0 || on.len() == 0 {
        seq![]
    } else {
        let rest = enabled_options(t.drop_last(), on.drop_last());
        if on.last() {
            rest.push(enable_text(t.last().1))
        } else {
            rest
        }
    }
}

/// Adds to `args` the option of each toggle whose entry in `on` holds.
pub fn push_enabled(args: &mut Vec<String>, toggles: &Vec<Toggle>, on: &Vec<bool>)
    requires
        toggles.len() == on.len(),
    ensures
        texts(final(args)@) == texts(old(args)@) + enabled_options(toggle_views(toggles@), on@),
{
    let mut i: usize = 0;
    while i < toggles.len()
        invariant
            i <= toggles.len() == on.len(),
            texts(args@) == texts(old(args)@) + enabled_options(
                toggle_views(toggles@.subrange(0, i as int)),
                on@.subrange(0, i as int),
            ),
        decreases toggles.len() - i,
    {
        let ghost before = texts(args@);
        switch(args, on[i], toggles[i].name.as_str());
        proof {
            let t = toggle_views(toggles@.subrange(0, i + 1));
            let o = on@.subrange(0, i + 1);
            assert(t.drop_last() =~= toggle_views(toggles@.subrange(0, i as int)));
            assert(o.drop_last() =~= on@.subrange(0, i as int));
            assert(t.last() == toggle_view(toggles@[i as int]));
            assert(texts(old(args)@) + enabled_options(t, o) =~= texts(args@));
        }
        i = i + 1;
    }
    assert(toggles@.subrange(0, i as int) =~= toggles@);
    assert(on@.subrange(0, i as int) =~= on@);
}

} // verus!
