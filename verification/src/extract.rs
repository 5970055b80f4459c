//! Extraction of the code snippet from a raw command message.
//!
//! A command arrives as the full message text: the command prefix character,
//! the command word, and the snippet, usually wrapped in backtick fences and
//! often tagged for syntax highlighting. The snippet is recovered by
//! trimming surrounding whitespace, stripping the prefix character and the
//! command word, trimming again, and peeling the fence: leading
//! ```` ```swift ```` markers and backticks on both ends.

use vstd::prelude::*;

verus! {

/// The characters the trimming steps treat as whitespace: the Unicode
/// White_Space set.
pub open spec fn is_blank(c: char) -> bool {
    c as u32 == 0x20 || (0x9 <= c as u32 && c as u32 <= 0xD) || c as u32 == 0x85 || c as u32
        == 0xA0 || c as u32 == 0x1680 || (0x2000 <= c as u32 && c as u32 <= 0x200A) || c as u32
        == 0x2028 || c as u32 == 0x2029 || c as u32 == 0x202F || c as u32 == 0x205F || c as u32
        == 0x3000
}

/// Decides whether a character is whitespace.
pub fn is_blank_char(c: char) -> (r: bool)
    ensures
        r == is_blank(c),
{
    let u = c as u32;
    u == 0x20 || (0x9 <= u && u <= 0xD) || u == 0x85 || u == 0xA0 || u == 0x1680 || (0x2000 <= u
        && u <= 0x200A) || u == 0x2028 || u == 0x2029 || u == 0x202F || u == 0x205F || u == 0x3000
}

/// The sequence with its leading whitespace removed.
pub open spec fn trim_start(s: Seq<char>) -> Seq<char>
    decreases s.len(),
{
    if s.len() > 0 && is_blank(s[0]) {
        trim_start(s.drop_first())
    } else {
        s
    }
}

/// The sequence with its trailing whitespace removed.
pub open spec fn trim_end(s: Seq<char>) -> Seq<char>
    decreases s.len(),
{
    if s.len() > 0 && is_blank(s.last()) {
        trim_end(s.drop_last())
    } else {
        s
    }
}

/// The sequence with whitespace removed from both ends.
pub open spec fn trimmed(s: Seq<char>) -> Seq<char> {
    trim_end(trim_start(s))
}

/// The sequence with every leading occurrence of one character removed.
pub open spec fn strip_leading(s: Seq<char>, c: char) -> Seq<char>
    decreases s.len(),
{
    if s.len() > 0 && s[0] == c {
        strip_leading(s.drop_first(), c)
    } else {
        s
    }
}

/// The sequence with every trailing occurrence of one character removed.
pub open spec fn strip_trailing(s: Seq<char>, c: char) -> Seq<char>
    decreases s.len(),
{
    if s.len() > 0 && s.last() == c {
        strip_trailing(s.drop_last(), c)
    } else {
        s
    }
}

/// The sequence with every repetition of a non-empty prefix removed from the
/// front; an empty pattern removes nothing.
pub open spec fn strip_prefix_runs(s: Seq<char>, p: Seq<char>) -> Seq<char>
    decreases s.len(),
{
    if 0 < p.len() <= s.len() && s.take(p.len() as int) == p {
        strip_prefix_runs(s.skip(p.len() as int), p)
    } else {
        s
    }
}

/// The snippet recovered from a raw command message: trim, strip the
/// command prefix character and the command word, trim again, and peel the
/// highlighting marker and the backtick fence.
pub open spec fn extracted(content: Seq<char>, command: Seq<char>) -> Seq<char> {
    strip_trailing(
        strip_leading(
            strip_prefix_runs(
                trimmed(strip_prefix_runs(strip_leading(trimmed(content), '~'), command)),
                "```swift"@,
            ),
            '`',
        ),
        '`',
    )
}

/// Moves the window's left edge past leading whitespace.
fn scan_trim_start(s: &str, lo: usize, hi: usize) -> (r: usize)
    requires
        lo <= hi,
        hi as int <= s@.len(),
    ensures
        lo <= r <= hi,
        s@.subrange(r as int, hi as int) == trim_start(s@.subrange(lo as int, hi as int)),
{
    let mut cur: usize = lo;
    while cur < hi && is_blank_char(s.get_char(cur))
        invariant
            lo <= cur <= hi,
            hi as int <= s@.len(),
            trim_start(s@.subrange(cur as int, hi as int)) == trim_start(
                s@.subrange(lo as int, hi as int),
            ),
        decreases hi - cur,
    {
        proof {
            let w = s@.subrange(cur as int, hi as int);
            assert(w.drop_first() =~= s@.subrange(cur + 1, hi as int));
        }
        cur += 1;
    }
    proof {
        let w = s@.subrange(cur as int, hi as int);
        assert(trim_start(w) == w);
    }
    cur
}

/// Moves the window's right edge past trailing whitespace.
fn scan_trim_end(s: &str, lo: usize, hi: usize) -> (r: usize)
    requires
        lo <= hi,
        hi as int <= s@.len(),
    ensures
        lo <= r <= hi,
        s@.subrange(lo as int, r as int) == trim_end(s@.subrange(lo as int, hi as int)),
{
    let mut cur: usize = hi;
    while cur > lo && is_blank_char(s.get_char(cur - 1))
        invariant
            lo <= cur <= hi,
            hi as int <= s@.len(),
            trim_end(s@.subrange(lo as int, cur as int)) == trim_end(
                s@.subrange(lo as int, hi as int),
            ),
        decreases cur,
    {
        proof {
            let w = s@.subrange(lo as int, cur as int);
            assert(w.drop_last() =~= s@.subrange(lo as int, cur - 1));
        }
        cur -= 1;
    }
    proof {
        let w = s@.subrange(lo as int, cur as int);
        assert(trim_end(w) == w);
    }
    cur
}

/// Moves the window's left edge past every leading occurrence of one
/// character.
fn scan_strip_leading(s: &str, lo: usize, hi: usize, c: char) -> (r: usize)
    requires
        lo <= hi,
        hi as int <= s@.len(),
    ensures
        lo <= r <= hi,
        s@.subrange(r as int, hi as int) == strip_leading(s@.subrange(lo as int, hi as int), c),
{
    let mut cur: usize = lo;
    while cur < hi && s.get_char(cur) == c
        invariant
            lo <= cur <= hi,
            hi as int <= s@.len(),
            strip_leading(s@.subrange(cur as int, hi as int), c) == strip_leading(
                s@.subrange(lo as int, hi as int),
                c,
            ),
        decreases hi - cur,
    {
        proof {
            let w = s@.subrange(cur as int, hi as int);
            assert(w.drop_first() =~= s@.subrange(cur + 1, hi as int));
        }
        cur += 1;
    }
    proof {
        let w = s@.subrange(cur as int, hi as int);
        assert(strip_leading(w, c) == w);
    }
    cur
}

/// Moves the window's right edge past every trailing occurrence of one
/// character.
fn scan_strip_trailing(s: &str, lo: usize, hi: usize, c: char) -> (r: usize)
    requires
        lo <= hi,
        hi as int <= s@.len(),
    ensures
        lo <= r <= hi,
        s@.subrange(lo as int, r as int) == strip_trailing(s@.subrange(lo as int, hi as int), c),
{
    let mut cur: usize = hi;
    while cur > lo && s.get_char(cur - 1) == c
        invariant
            lo <= cur <= hi,
            hi as int <= s@.len(),
            strip_trailing(s@.subrange(lo as int, cur as int), c) == strip_trailing(
                s@.subrange(lo as int, hi as int),
                c,
            ),
        decreases cur,
    {
        proof {
            let w = s@.subrange(lo as int, cur as int);
            assert(w.drop_last() =~= s@.subrange(lo as int, cur - 1));
        }
        cur -= 1;
    }
    proof {
        let w = s@.subrange(lo as int, cur as int);
        assert(strip_trailing(w, c) == w);
    }
    cur
}

/// Decides whether the window starts with the whole pattern.
fn starts_with_at(s: &str, lo: usize, hi: usize, p: &str) -> (r: bool)
    requires
        lo <= hi,
        hi as int <= s@.len(),
    ensures
        r == (p@.len() <= hi - lo && s@.subrange(lo as int, hi as int).take(p@.len() as int)
            == p@),
{
    let pn: usize = p.unicode_len();
    if pn > hi - lo {
        return false;
    }
    let mut j: usize = 0;
    while j < pn
        invariant
            j <= pn,
            pn as nat == p@.len(),
            lo <= hi,
            hi as int <= s@.len(),
            pn <= hi - lo,
            forall|k: int| 0 <= k < j ==> s@[lo + k] == p@[k],
        decreases pn - j,
    {
        if s.get_char(lo + j) != p.get_char(j) {
            proof {
                let w = s@.subrange(lo as int, hi as int).take(pn as int);
                assert(w[j as int] == s@[lo + j]);
            }
            return false;
        }
        j += 1;
    }
    proof {
        assert(s@.subrange(lo as int, hi as int).take(pn as int) =~= p@);
    }
    true
}

/// Moves the window's left edge past every repetition of the pattern.
fn scan_strip_prefix_runs(s: &str, lo: usize, hi: usize, p: &str) -> (r: usize)
    requires
        lo <= hi,
        hi as int <= s@.len(),
    ensures
        lo <= r <= hi,
        s@.subrange(r as int, hi as int) == strip_prefix_runs(
            s@.subrange(lo as int, hi as int),
            p@,
        ),
{
    let pn: usize = p.unicode_len();
    if pn == 0 {
        return lo;
    }
    let mut cur: usize = lo;
    while starts_with_at(s, cur, hi, p)
        invariant
            lo <= cur <= hi,
            hi as int <= s@.len(),
            pn as nat == p@.len(),
            pn > 0,
            strip_prefix_runs(s@.subrange(cur as int, hi as int), p@) == strip_prefix_runs(
                s@.subrange(lo as int, hi as int),
                p@,
            ),
        decreases hi - cur,
    {
        proof {
            let w = s@.subrange(cur as int, hi as int);
            assert(w.skip(pn as int) =~= s@.subrange(cur + pn, hi as int));
        }
        cur += pn;
    }
    proof {
        let w = s@.subrange(cur as int, hi as int);
        assert(strip_prefix_runs(w, p@) == w);
    }
    cur
}

/// Recovers the code snippet from a raw command message: the text after the
/// command prefix and the command word, with surrounding whitespace and the
/// backtick fence removed.
pub fn extract_message_code<'a>(content: &'a str, command: &str) -> (r: &'a str)
    ensures
        r@ == extracted(content@, command@),
{
    let n: usize = content.unicode_len();
    let mut lo: usize = 0;
    let mut hi: usize = n;
    proof {
        assert(content@.subrange(0, n as int) =~= content@);
    }
    lo = scan_trim_start(content, lo, hi);
    hi = scan_trim_end(content, lo, hi);
    lo = scan_strip_leading(content, lo, hi, '~');
    lo = scan_strip_prefix_runs(content, lo, hi, command);
    lo = scan_trim_start(content, lo, hi);
    hi = scan_trim_end(content, lo, hi);
    lo = scan_strip_prefix_runs(content, lo, hi, "```swift");
    lo = scan_strip_leading(content, lo, hi, '`');
    hi = scan_strip_trailing(content, lo, hi, '`');
    content.substring_char(lo, hi)
}

} // verus!
