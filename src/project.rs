//! Project settings: output resolution, format and frame rate.
use crate::text::str_eq;
use vstd::prelude::*;

verus! {

#[derive(Clone, Copy, Debug, PartialEq, Eq, Structural)]
pub enum Resolution {
    FourK,
    FullHD,
    HD,
    Vertical,
    Custom { width: u32, height: u32 },
}

impl Resolution {
    pub open spec fn width_spec(&self) -> u32 {
        match self {
            Resolution::FourK => 3840,
            Resolution::FullHD => 1920,
            Resolution::HD => 1280,
            Resolution::Vertical => 1080,
            Resolution::Custom { width, .. } => *width,
        }
    }

    pub open spec fn height_spec(&self) -> u32 {
        match self {
            Resolution::FourK => 2160,
            Resolution::FullHD => 1080,
            Resolution::HD => 720,
            Resolution::Vertical => 1920,
            Resolution::Custom { height, .. } => *height,
        }
    }

    pub fn width(&self) -> (r: u32)
        ensures
            r == self.width_spec(),
    {
        match self {
            Resolution::FourK => 3840,
            Resolution::FullHD => 1920,
            Resolution::HD => 1280,
            Resolution::Vertical => 1080,
            Resolution::Custom { width, .. } => *width,
        }
    }

    pub fn height(&self) -> (r: u32)
        ensures
            r == self.height_spec(),
    {
        match self {
            Resolution::FourK => 2160,
            Resolution::FullHD => 1080,
            Resolution::HD => 720,
            Resolution::Vertical => 1920,
            Resolution::Custom { height, .. } => *height,
        }
    }

    /// Reads a resolution name (see `resolution_of`).
    pub fn parse(res: &str) -> (r: Resolution)
        ensures
            r == resolution_of(res@),
    {
        if str_eq(res, "4K") {
            Resolution::FourK
        } else if str_eq(res, "1080p") {
            Resolution::FullHD
        } else if str_eq(res, "720p") {
            Resolution::HD
        } else if str_eq(res, "9:16") || str_eq(res, "tiktok") || str_eq(res, "reels") {
            Resolution::Vertical
        } else {
            match find_single_x(res) {
                Some(k) => {
                    let n = res.unicode_len();
                    let w = parse_u32(res.substring_char(0, k));
                    let h = parse_u32(res.substring_char(k + 1, n));
                    Resolution::Custom {
                        width: match w {
                            Some(v) => v,
                            None => 1920,
                        },
                        height: match h {
                            Some(v) => v,
                            None => 1080,
                        },
                    }
                },
                None => Resolution::FullHD,
            }
        }
    }
}

#[derive(Clone, Copy, Debug, PartialEq, Eq, Structural)]
pub enum OutputFormat {
    MP4,
    MOV,
    GIF,
    WEBP,
    PNGSequence,
}

#[derive(Clone, Copy, Debug, PartialEq, Eq, Structural)]
pub struct ProjectConfig {
    pub resolution: Resolution,
    pub fps: u32,
    pub output_format: OutputFormat,
}

/// Whether `c` is an ASCII decimal digit.
pub open spec fn is_digit(c: char) -> bool {
    '0' <= c <= '9'
}

/// Value of a string of decimal digits.
pub open spec fn digits_value(s: Seq<char>) -> int
    decreases s.len(),
{
    if s.len() == 0 {
        0
    } else {
        10 * digits_value(s.drop_last()) + (s.last() as int - '0' as int)
    }
}

/// What an unsigned integer parser reads: an optional `+`, then one or
/// more decimal digits whose value fits in `u32`.
pub open spec fn parse_u32_spec(s: Seq<char>) -> Option<u32> {
    digits_u32(unsigned_body(s))
}

/// `s` without one leading `+`.
pub open spec fn unsigned_body(s: Seq<char>) -> Seq<char> {
    if s.len() > 0 && s[0] == '+' {
        s.drop_first()
    } else {
        s
    }
}

/// The value of `body` if it is one or more digits and fits in `u32`.
pub open spec fn digits_u32(body: Seq<char>) -> Option<u32> {
    if body.len() > 0 && (forall|i: int| 0 <= i < body.len() ==> is_digit(#[trigger] body[i]))
        && digits_value(body) <= u32::MAX {
        Some(digits_value(body) as u32)
    } else {
        None
    }
}

proof fn lemma_digits_value_nonneg(s: Seq<char>)
    requires
        forall|i: int| 0 <= i < s.len() ==> is_digit(#[trigger] s[i]),
    ensures
        digits_value(s) >= 0,
    decreases s.len(),
{
    if s.len() > 0 {
        lemma_digits_value_nonneg(s.drop_last());
    }
}

/// Reads a decimal `u32` (see `parse_u32_spec`).
pub fn parse_u32(s: &str) -> (r: Option<u32>)
    ensures
        r == parse_u32_spec(s@),
{
    let n = s.unicode_len();
    let start: usize = if n > 0 && s.get_char(0) == '+' {
        1
    } else {
        0
    };
    let ghost body = unsigned_body(s@);
    assert(body =~= s@.subrange(start as int, n as int));
    if start == n {
        assert(parse_u32_spec(s@) is None);
        return None;
    }
    let mut v: u64 = 0;
    let mut i: usize = start;
    while i < n
        invariant
            start <= i <= n == s@.len(),
            body == unsigned_body(s@),
            body == s@.subrange(start as int, n as int),
            forall|k: int| start <= k < i ==> is_digit(#[trigger] s@[k]),
            v == digits_value(s@.subrange(start as int, i as int)),
            v <= u32::MAX,
        decreases n - i,
    {
        let c = s.get_char(i);
        let ghost pre = s@.subrange(start as int, i as int);
        assert(s@.subrange(start as int, i as int + 1).drop_last() =~= pre);
        if !('0' <= c && c <= '9') {
            proof {
                let idx = (i - start) as int;
                assert(body[idx] == c);
                assert(!(forall|j: int| 0 <= j < body.len() ==> is_digit(#[trigger] body[j])));
                assert(digits_u32(body) is None);
            }
            return None;
        }
        let d = (c as u64) - ('0' as u64);
        let nv = v * 10 + d;
        assert(nv == digits_value(s@.subrange(start as int, i as int + 1)));
        if nv > u32::MAX as u64 {
            proof {
                let k = (i - start + 1) as int;
                if forall|j: int| 0 <= j < body.len() ==> is_digit(#[trigger] body[j]) {
                    lemma_prefix_value_bound(body, k);
                    assert(body.subrange(0, k) =~= s@.subrange(start as int, i as int + 1));
                    assert(digits_value(body) > u32::MAX);
                }
                assert(digits_u32(body) is None);
            }
            return None;
        }
        v = nv;
        i = i + 1;
    }
    assert(s@.subrange(start as int, n as int) == body);
    assert forall|j: int| 0 <= j < body.len() implies is_digit(#[trigger] body[j]) by {
        assert(body[j] == s@[start + j]);
    }
    Some(v as u32)
}

/// A longer run of digits is worth at least as much as its prefix.
proof fn lemma_prefix_value_bound(s: Seq<char>, k: int)
    requires
        0 <= k <= s.len(),
        forall|i: int| 0 <= i < s.len() ==> is_digit(#[trigger] s[i]),
    ensures
        digits_value(s) >= digits_value(s.subrange(0, k)),
    decreases s.len(),
{
    if k < s.len() {
        assert(s.drop_last().subrange(0, k) =~= s.subrange(0, k));
        lemma_prefix_value_bound(s.drop_last(), k);
        lemma_digits_value_nonneg(s.drop_last());
    } else {
        assert(s.subrange(0, k) =~= s);
    }
}

/// Index of the only `x` in `s`, if it has exactly one.
pub open spec fn single_x(s: Seq<char>) -> Option<int> {
    if exists|k: int|
        0 <= k < s.len() && s[k] == 'x' && forall|j: int|
            0 <= j < s.len() && j != k ==> s[j] != 'x' {
        Some(
            choose|k: int|
                0 <= k < s.len() && s[k] == 'x' && forall|j: int|
                    0 <= j < s.len() && j != k ==> s[j] != 'x',
        )
    } else {
        None
    }
}

fn find_single_x(s: &str) -> (r: Option<usize>)
    ensures
        r is Some <==> single_x(s@) is Some,
        r is Some ==> r->0 == single_x(s@)->0 && r->0 < s@.len(),
{
    let n = s.unicode_len();
    let mut found: Option<usize> = None;
    let mut i: usize = 0;
    while i < n
        invariant
            i <= n == s@.len(),
            found is None ==> forall|j: int| 0 <= j < i ==> s@[j] != 'x',
            found is Some ==> found->0 < i && s@[found->0 as int] == 'x' && forall|j: int|
                0 <= j < i && j != found->0 ==> s@[j] != 'x',
        decreases n - i,
    {
        if s.get_char(i) == 'x' {
            if found.is_some() {
                proof {
                    let a = found->0 as int;
                    if single_x(s@) is Some {
                        let k = single_x(s@)->0;
                        assert(s@[a] == 'x' && s@[i as int] == 'x');
                    }
                }
                return None;
            }
            found = Some(i);
        }
        i = i + 1;
    }
    proof {
        if found is Some {
            let k = found->0 as int;
            assert(0 <= k < s@.len() && s@[k] == 'x' && forall|j: int|
                0 <= j < s@.len() && j != k ==> s@[j] != 'x');
            let c = single_x(s@)->0;
            if c != k {
                assert(s@[c] == 'x');
            }
        }
    }
    found
}

/// The resolution a name selects: `4K`, `1080p`, `720p`, `9:16` (or
/// `tiktok`, `reels`) by name; `WxH` with exactly one `x` as a custom size,
/// each side that does not read as a `u32` falling back to 1920 by 1080;
/// anything else full HD.
pub open spec fn resolution_of(res: Seq<char>) -> Resolution {
    if res == "4K"@ {
        Resolution::FourK
    } else if res == "1080p"@ {
        Resolution::FullHD
    } else if res == "720p"@ {
        Resolution::HD
    } else if res == "9:16"@ || res == "tiktok"@ || res == "reels"@ {
        Resolution::Vertical
    } else if single_x(res) is Some {
        let k = single_x(res)->0;
        let w = parse_u32_spec(res.subrange(0, k));
        let h = parse_u32_spec(res.subrange(k + 1, res.len() as int));
        Resolution::Custom {
            width: if w is Some {
                w->0
            } else {
                1920
            },
            height: if h is Some {
                h->0
            } else {
                1080
            },
        }
    } else {
        Resolution::FullHD
    }
}

/// Frame rate, width and height of the resolution named `res`.
pub fn setup_project(res: &str, fps: u32) -> (r: (u32, u32, u32))
    ensures
        r == (fps, resolution_of(res@).width_spec(), resolution_of(res@).height_spec()),
{
    let resolution = Resolution::parse(res);
    (fps, resolution.width(), resolution.height())
}

} // verus!
