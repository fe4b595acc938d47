use vstd::prelude::*;

verus! {

/// The value of an ASCII decimal digit.
pub open spec fn digit_value(c: char) -> int {
    c as int - '0' as int
}

pub open spec fn is_digit(c: char) -> bool {
    '0' <= c && c <= '9'
}

/// The number that a sequence of decimal digits denotes, most significant first.
pub open spec fn decimal_value(s: Seq<char>) -> int
    decreases s.len(),
{
    if s.len() == 0 {
        0
    } else {
        10 * decimal_value(s.drop_last()) + digit_value(s.last())
    }
}

/// The digits of `s` after an optional leading `+`.
pub open spec fn unsigned_digits(s: Seq<char>) -> Seq<char> {
    if s.len() > 0 && s[0] == '+' {
        s.drop_first()
    } else {
        s
    }
}

/// `s` is the text of an unsigned decimal number: an optional `+`, then one or
/// more digits.
pub open spec fn is_unsigned_decimal(s: Seq<char>) -> bool {
    let d = unsigned_digits(s);
    &&& d.len() > 0
    &&& forall|i: int| 0 <= i < d.len() ==> is_digit(#[trigger] d[i])
}

/// The `u8` that `s` denotes: an optional `+` and at least one decimal digit,
/// with a value no greater than 255; otherwise none.
pub open spec fn u8_of(s: Seq<char>) -> Option<u8> {
    if is_unsigned_decimal(s) && decimal_value(unsigned_digits(s)) <= 255 {
        Some(decimal_value(unsigned_digits(s)) as u8)
    } else {
        None
    }
}

/// Reads `s` as a `u8`, accepting what `str::parse::<u8>` accepts.
pub fn parse_u8(s: &str) -> (r: Option<u8>)
    ensures
        r == u8_of(s@),
{
    let n = s.unicode_len();
    let mut i: usize = 0;
    if n > 0 && s.get_char(0) == '+' {
        i = 1;
    }
    let start = i;
    if i == n {
        return None;
    }
    let mut acc: u32 = 0;
    while i < n
        invariant
            start <= i <= n,
            n == s@.len(),
            start == (if s@.len() > 0 && s@[0] == '+' { 1int } else { 0int }),
            start < n,
            forall|j: int| start <= j < i ==> is_digit(#[trigger] s@[j]),
            acc as int == decimal_value(s@.subrange(start as int, i as int)),
            acc <= 255,
        decreases n - i,
    {
        let c = s.get_char(i);
        if !('0' <= c && c <= '9') {
            proof {
                let d = unsigned_digits(s@);
                assert(d[i - start] == c);
            }
            return None;
        }
        let next = acc * 10 + (c as u32 - '0' as u32);
        proof {
            let t = s@.subrange(start as int, i as int + 1);
            assert(t.drop_last() =~= s@.subrange(start as int, i as int));
        }
        if next > 255 {
            proof {
                if is_unsigned_decimal(s@) {
                    lemma_prefix_bound(unsigned_digits(s@), i - start + 1);
                    assert(unsigned_digits(s@).subrange(0, i - start + 1)
                        =~= s@.subrange(start as int, i as int + 1));
                }
            }
            return None;
        }
        acc = next;
        i = i + 1;
    }
    proof {
        assert(unsigned_digits(s@) =~= s@.subrange(start as int, n as int));
    }
    Some(acc as u8)
}

/// A number's digits are worth at least as much as any prefix of them.
proof fn lemma_prefix_bound(d: Seq<char>, k: int)
    requires
        0 <= k <= d.len(),
        forall|i: int| 0 <= i < d.len() ==> is_digit(#[trigger] d[i]),
    ensures
        decimal_value(d) >= decimal_value(d.subrange(0, k)),
        decimal_value(d.subrange(0, k)) >= 0,
    decreases d.len(),
{
    if d.len() == 0 {
    } else if k == d.len() {
        assert(d.subrange(0, k) =~= d);
        lemma_nonneg(d);
    } else {
        lemma_prefix_bound(d.drop_last(), k);
        assert(d.drop_last().subrange(0, k) =~= d.subrange(0, k));
        lemma_nonneg(d.drop_last());
    }
}

proof fn lemma_nonneg(d: Seq<char>)
    requires
        forall|i: int| 0 <= i < d.len() ==> is_digit(#[trigger] d[i]),
    ensures
        decimal_value(d) >= 0,
    decreases d.len(),
{
    if d.len() > 0 {
        lemma_nonneg(d.drop_last());
    }
}

/// The character of a decimal digit.
pub open spec fn digit_char(d: nat) -> char
    recommends
        d < 10,
{
    ((d + '0' as nat) as u32) as char
}

/// The shortest decimal text of `n`.
pub open spec fn decimal_text(n: nat) -> Seq<char>
    decreases n,
{
    if n < 10 {
        seq![digit_char(n)]
    } else {
        decimal_text(n / 10) + seq![digit_char(n % 10)]
    }
}

fn digit_str(d: u8) -> (r: &'static str)
    requires
        d < 10,
    ensures
        r@ == seq![digit_char(d as nat)],
{
    proof {
        reveal_strlit("0");
        reveal_strlit("1");
        reveal_strlit("2");
        reveal_strlit("3");
        reveal_strlit("4");
        reveal_strlit("5");
        reveal_strlit("6");
        reveal_strlit("7");
        reveal_strlit("8");
        reveal_strlit("9");
    }
    let r = match d {
        0 => "0",
        1 => "1",
        2 => "2",
        3 => "3",
        4 => "4",
        5 => "5",
        6 => "6",
        7 => "7",
        8 => "8",
        _ => "9",
    };
    assert(r@ =~= seq![digit_char(d as nat)]);
    r
}

/// Writes `n` in decimal, with no leading zero.
pub fn decimal(n: u64) -> (r: String)
    ensures
        r@ == decimal_text(n as nat),
    decreases n,
{
    if n < 10 {
        digit_str_owned(n)
    } else {
        let mut r = decimal(n / 10);
        let last = digit_str_owned(n % 10);
        r.append(last.as_str());
        r
    }
}

fn digit_str_owned(d: u64) -> (r: String)
    requires
        d < 10,
    ensures
        r@ == seq![digit_char(d as nat)],
{
    String::from_str(digit_str(d as u8))
}

/// Why a package version could not be read.
#[derive(Debug, Clone, Copy, PartialEq, Eq, Structural)]
pub enum VersionError {
    /// The major number is not a `u8`.
    Major,
    /// The minor number is not a `u8`.
    Minor,
}

/// The text `major.minor` of the two numbers.
pub open spec fn version_text(major: u8, minor: u8) -> Seq<char> {
    decimal_text(major as nat) + seq!['.'] + decimal_text(minor as nat)
}

/// The version `major.minor` from the package's major and minor version
/// numbers as text; each must be a `u8`.
pub fn version(major: &str, minor: &str) -> (r: Result<String, VersionError>)
    ensures
        r is Ok <==> (u8_of(major@) is Some && u8_of(minor@) is Some),
        r matches Ok(v) ==> v@ == version_text(u8_of(major@)->0, u8_of(minor@)->0),
        r == Err::<String, VersionError>(VersionError::Major) <==> u8_of(major@) is None,
        r == Err::<String, VersionError>(VersionError::Minor) <==> (u8_of(major@) is Some
            && u8_of(minor@) is None),
{
    let a = match parse_u8(major) {
        Some(a) => a,
        None => return Err(VersionError::Major),
    };
    let b = match parse_u8(minor) {
        Some(b) => b,
        None => return Err(VersionError::Minor),
    };
    let mut r = decimal(a as u64);
    proof {
        reveal_strlit(".");
    }
    r.append(".");
    let t = decimal(b as u64);
    r.append(t.as_str());
    Ok(r)
}

/// The name of the directory that holds FFmpeg's sources of a version:
/// `ffmpeg-` and the version.
pub open spec fn source_dir_text(version: Seq<char>) -> Seq<char> {
    "ffmpeg-"@ + version
}

/// The name of the directory that holds FFmpeg's sources of `version`.
pub fn source_dir_name(version: &str) -> (r: String)
    ensures
        r@ == source_dir_text(version@),
{
    let mut r = String::from_str("ffmpeg-");
    r.append(version);
    r
}

} // verus!
