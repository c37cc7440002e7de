//! Character-level text utilities the parser is built on: line splitting,
//! whitespace tokenization, substring search, trimming and decimal
//! rendering, each specified over `Seq<char>`.

use vstd::prelude::*;

verus! {

/// Whether `c` has the Unicode `White_Space` property, the set that both
/// whitespace splitting and trimming go by.
pub open spec fn spec_is_ws(c: char) -> bool {
    let u = c as u32;
    u == 0x9 || u == 0xA || u == 0xB || u == 0xC || u == 0xD || u == 0x20 || u == 0x85 || u == 0xA0
        || u == 0x1680 || (0x2000 <= u && u <= 0x200A) || u == 0x2028 || u == 0x2029 || u == 0x202F
        || u == 0x205F || u == 0x3000
}

/// Whether `c` has the Unicode `White_Space` property.
pub fn is_ws(c: char) -> (r: bool)
    ensures
        r == spec_is_ws(c),
{
    let u = c as u32;
    u == 0x9 || u == 0xA || u == 0xB || u == 0xC || u == 0xD || u == 0x20 || u == 0x85 || u == 0xA0
        || u == 0x1680 || (0x2000 <= u && u <= 0x200A) || u == 0x2028 || u == 0x2029 || u == 0x202F
        || u == 0x205F || u == 0x3000
}

/// `line` without a single trailing carriage return, if it has one.
pub open spec fn chomp_cr(line: Seq<char>) -> Seq<char> {
    if line.len() > 0 && line.last() == '\r' {
        line.drop_last()
    } else {
        line
    }
}

/// The line accumulated so far (`cur`) followed by the lines of `s`, cut as
/// `str::lines` cuts them: each `\n` ends a line, a `\r` directly before
/// the `\n` is dropped, and a final line without `\n` is kept as it stands.
pub open spec fn lines_acc(s: Seq<char>, cur: Seq<char>) -> Seq<Seq<char>>
    decreases s.len(),
{
    if s.len() == 0 {
        if cur.len() == 0 {
            Seq::empty()
        } else {
            seq![cur]
        }
    } else if s[0] == '\n' {
        seq![chomp_cr(cur)] + lines_acc(s.drop_first(), Seq::empty())
    } else {
        lines_acc(s.drop_first(), cur.push(s[0]))
    }
}

/// The lines of `s`, as `str::lines` yields them.
pub open spec fn spec_lines(s: Seq<char>) -> Seq<Seq<char>> {
    lines_acc(s, Seq::empty())
}

/// Each range in `r` lies within a text of length `n`.
pub open spec fn ranges_wf(r: Seq<(usize, usize)>, n: nat) -> bool {
    forall|i: int| 0 <= i < r.len() ==> #[trigger] r[i].0 <= r[i].1 <= n
}

/// The pieces of `s` that the ranges in `r` cut out.
pub open spec fn ranges_cut(r: Seq<(usize, usize)>, s: Seq<char>) -> Seq<Seq<char>> {
    r.map_values(|p: (usize, usize)| s.subrange(p.0 as int, p.1 as int))
}

/// Cuts `s` into its lines, returned as character index ranges into `s`.
pub fn line_ranges(s: &str) -> (r: Vec<(usize, usize)>)
    ensures
        ranges_wf(r@, s@.len()),
        ranges_cut(r@, s@) == spec_lines(s@),
{
    let n = s.unicode_len();
    let mut out: Vec<(usize, usize)> = Vec::new();
    let mut start: usize = 0;
    let mut i: usize = 0;
    proof {
        assert(s@.skip(0) =~= s@);
        assert(s@.subrange(0, 0) =~= Seq::<char>::empty());
        assert(ranges_cut(out@, s@) =~= Seq::<Seq<char>>::empty());
    }
    while i < n
        invariant
            n == s@.len(),
            start <= i <= n,
            ranges_wf(out@, s@.len()),
            ranges_cut(out@, s@) + lines_acc(
                s@.skip(i as int),
                s@.subrange(start as int, i as int),
            ) == spec_lines(s@),
        decreases n - i,
    {
        let c = s.get_char(i);
        proof {
            assert(s@.skip(i as int)[0] == s@[i as int]);
            assert(s@.skip(i as int).drop_first() =~= s@.skip(i as int + 1));
        }
        if c == '\n' {
            let ghost cur = s@.subrange(start as int, i as int);
            let end = if i > start && s.get_char(i - 1) == '\r' {
                proof {
                    assert(cur.last() == s@[i as int - 1]);
                    assert(cur.drop_last() =~= s@.subrange(start as int, i as int - 1));
                }
                i - 1
            } else {
                i
            };
            proof {
                assert(chomp_cr(cur) =~= s@.subrange(start as int, end as int));
            }
            out.push((start, end));
            proof {
                assert(ranges_cut(out@, s@) =~= ranges_cut(out@.drop_last(), s@).push(
                    s@.subrange(start as int, end as int),
                ));
                assert(s@.subrange(i as int + 1, i as int + 1) =~= Seq::<char>::empty());
                assert(ranges_cut(out@, s@) + lines_acc(
                    s@.skip(i as int + 1),
                    Seq::<char>::empty(),
                ) =~= spec_lines(s@));
            }
            start = i + 1;
        } else {
            proof {
                assert(s@.subrange(start as int, i as int).push(s@[i as int]) =~= s@.subrange(
                    start as int,
                    i as int + 1,
                ));
            }
        }
        i += 1;
    }
    if start < n {
        out.push((start, n));
        proof {
            assert(ranges_cut(out@, s@) =~= ranges_cut(out@.drop_last(), s@).push(
                s@.subrange(start as int, n as int),
            ));
            assert(s@.skip(n as int).len() == 0);
            assert(ranges_cut(out@, s@) =~= spec_lines(s@));
        }
    } else {
        proof {
            assert(s@.skip(n as int).len() == 0);
            assert(s@.subrange(start as int, i as int).len() == 0);
            assert(ranges_cut(out@, s@) + lines_acc(
                s@.skip(i as int),
                s@.subrange(start as int, i as int),
            ) =~= ranges_cut(out@, s@));
        }
    }
    out
}

/// The token accumulated so far (`cur`) followed by the whitespace-separated
/// tokens of `s`, as `str::split_whitespace` yields them.
pub open spec fn tok_acc(s: Seq<char>, cur: Seq<char>) -> Seq<Seq<char>>
    decreases s.len(),
{
    if s.len() == 0 {
        if cur.len() == 0 {
            Seq::empty()
        } else {
            seq![cur]
        }
    } else if spec_is_ws(s[0]) {
        (if cur.len() == 0 {
            Seq::empty()
        } else {
            seq![cur]
        }) + tok_acc(s.drop_first(), Seq::empty())
    } else {
        tok_acc(s.drop_first(), cur.push(s[0]))
    }
}

/// The whitespace-separated tokens of `s`.
pub open spec fn spec_tokens(s: Seq<char>) -> Seq<Seq<char>> {
    tok_acc(s, Seq::empty())
}

/// Cuts `s` into its whitespace-separated tokens, returned as character
/// index ranges into `s`.
pub fn token_ranges(s: &str) -> (r: Vec<(usize, usize)>)
    ensures
        ranges_wf(r@, s@.len()),
        ranges_cut(r@, s@) == spec_tokens(s@),
{
    let n = s.unicode_len();
    let mut out: Vec<(usize, usize)> = Vec::new();
    let mut start: usize = 0;
    let mut i: usize = 0;
    proof {
        assert(s@.skip(0) =~= s@);
        assert(s@.subrange(0, 0) =~= Seq::<char>::empty());
        assert(ranges_cut(out@, s@) =~= Seq::<Seq<char>>::empty());
    }
    while i < n
        invariant
            n == s@.len(),
            start <= i <= n,
            ranges_wf(out@, s@.len()),
            ranges_cut(out@, s@) + tok_acc(
                s@.skip(i as int),
                s@.subrange(start as int, i as int),
            ) == spec_tokens(s@),
        decreases n - i,
    {
        let c = s.get_char(i);
        proof {
            assert(s@.skip(i as int)[0] == s@[i as int]);
            assert(s@.skip(i as int).drop_first() =~= s@.skip(i as int + 1));
        }
        if is_ws(c) {
            let ghost cur = s@.subrange(start as int, i as int);
            if i > start {
                out.push((start, i));
                proof {
                    assert(ranges_cut(out@, s@) =~= ranges_cut(out@.drop_last(), s@).push(cur));
                }
            }
            proof {
                assert(s@.subrange(i as int + 1, i as int + 1) =~= Seq::<char>::empty());
                assert(ranges_cut(out@, s@) + tok_acc(
                    s@.skip(i as int + 1),
                    Seq::<char>::empty(),
                ) =~= spec_tokens(s@));
            }
            start = i + 1;
        } else {
            proof {
                assert(s@.subrange(start as int, i as int).push(s@[i as int]) =~= s@.subrange(
                    start as int,
                    i as int + 1,
                ));
            }
        }
        i += 1;
    }
    if start < n {
        out.push((start, n));
        proof {
            assert(ranges_cut(out@, s@) =~= ranges_cut(out@.drop_last(), s@).push(
                s@.subrange(start as int, n as int),
            ));
            assert(s@.skip(n as int).len() == 0);
            assert(ranges_cut(out@, s@) =~= spec_tokens(s@));
        }
    } else {
        proof {
            assert(s@.skip(n as int).len() == 0);
            assert(s@.subrange(start as int, i as int).len() == 0);
            assert(ranges_cut(out@, s@) + tok_acc(
                s@.skip(i as int),
                s@.subrange(start as int, i as int),
            ) =~= ranges_cut(out@, s@));
        }
    }
    out
}

/// Index of the first occurrence of `k` inside `s`, or `-1` if there is
/// none; the empty needle occurs at index 0.
pub open spec fn spec_find(s: Seq<char>, k: Seq<char>) -> int
    decreases s.len(),
{
    if k.len() <= s.len() && s.take(k.len() as int) == k {
        0
    } else if s.len() == 0 {
        -1
    } else {
        let r = spec_find(s.drop_first(), k);
        if r < 0 {
            -1
        } else {
            1 + r
        }
    }
}

/// A needle longer than the text never occurs in it.
proof fn lemma_find_too_short(s: Seq<char>, k: Seq<char>)
    requires
        k.len() > s.len(),
    ensures
        spec_find(s, k) == -1,
    decreases s.len(),
{
    if s.len() > 0 {
        lemma_find_too_short(s.drop_first(), k);
    }
}

/// A found occurrence lies within the text.
pub proof fn lemma_find_in_range(s: Seq<char>, k: Seq<char>)
    requires
        spec_find(s, k) >= 0,
    ensures
        spec_find(s, k) + k.len() <= s.len(),
        s.subrange(spec_find(s, k), spec_find(s, k) + k.len() as int) == k,
    decreases s.len(),
{
    if k.len() <= s.len() && s.take(k.len() as int) == k {
        assert(s.subrange(0, k.len() as int) =~= s.take(k.len() as int));
    } else {
        lemma_find_in_range(s.drop_first(), k);
        let r = spec_find(s.drop_first(), k);
        assert(s.drop_first().subrange(r, r + k.len() as int) =~= s.subrange(
            1 + r,
            1 + r + k.len() as int,
        ));
    }
}

/// Whether `k` occurs in `s` at index `i`.
fn match_at(s: &str, k: &str, i: usize) -> (r: bool)
    requires
        i + k@.len() <= s@.len(),
    ensures
        r == (s@.subrange(i as int, i as int + k@.len() as int) == k@),
{
    let n = s.unicode_len();
    let m = k.unicode_len();
    let mut j: usize = 0;
    while j < m
        invariant
            n == s@.len(),
            m == k@.len(),
            i + m <= n,
            j <= m,
            forall|t: int| 0 <= t < j ==> s@[i + t] == k@[t],
        decreases m - j,
    {
        if s.get_char(i + j) != k.get_char(j) {
            proof {
                assert(s@.subrange(i as int, i as int + k@.len() as int)[j as int] == s@[i as int
                    + j as int]);
            }
            return false;
        }
        j += 1;
    }
    proof {
        assert(s@.subrange(i as int, i as int + k@.len() as int) =~= k@);
    }
    true
}

/// Finds the first occurrence of `k` inside `s`, as `str::find` and
/// `str::split_once` do, as a character index.
pub fn find_sub(s: &str, k: &str) -> (r: Option<usize>)
    ensures
        match r {
            Some(i) => spec_find(s@, k@) == i && i + k@.len() <= s@.len(),
            None => spec_find(s@, k@) == -1,
        },
{
    let n = s.unicode_len();
    let m = k.unicode_len();
    if m > n {
        proof {
            lemma_find_too_short(s@, k@);
        }
        return None;
    }
    if m == 0 {
        proof {
            assert(s@.take(0) =~= k@);
        }
        return Some(0);
    }
    let mut i: usize = 0;
    proof {
        assert(s@.skip(0) =~= s@);
    }
    while i <= n - m
        invariant
            n == s@.len(),
            m == k@.len(),
            1 <= m <= n,
            i <= n - m + 1,
            spec_find(s@, k@) == (if spec_find(s@.skip(i as int), k@) < 0 {
                -1
            } else {
                i + spec_find(s@.skip(i as int), k@)
            }),
        decreases n - i,
    {
        if match_at(s, k, i) {
            proof {
                assert(s@.skip(i as int).take(m as int) =~= s@.subrange(
                    i as int,
                    i as int + m as int,
                ));
            }
            return Some(i);
        }
        proof {
            assert(s@.skip(i as int).take(m as int) =~= s@.subrange(i as int, i as int + m as int));
            assert(s@.skip(i as int).len() > 0) by {
                if s@.skip(i as int).len() == 0 {
                    assert(s@.skip(i as int).take(m as int) =~= k@);
                }
            };
            assert(s@.skip(i as int).drop_first() =~= s@.skip(i as int + 1));
        }
        i += 1;
    }
    proof {
        assert(s@.skip(i as int).len() == n - i);
        lemma_find_too_short(s@.skip(i as int), k@);
    }
    None
}

/// The decimal digit character for a value below ten.
pub open spec fn spec_digit(d: int) -> char
    recommends
        0 <= d < 10,
{
    if d == 0 {
        '0'
    } else if d == 1 {
        '1'
    } else if d == 2 {
        '2'
    } else if d == 3 {
        '3'
    } else if d == 4 {
        '4'
    } else if d == 5 {
        '5'
    } else if d == 6 {
        '6'
    } else if d == 7 {
        '7'
    } else if d == 8 {
        '8'
    } else {
        '9'
    }
}

/// The decimal rendering of `n`, most significant digit first, without
/// leading zeros (except for `n == 0` itself).
pub open spec fn spec_dec(n: nat) -> Seq<char>
    decreases n,
{
    if n < 10 {
        seq![spec_digit(n as int)]
    } else {
        spec_dec(n / 10).push(spec_digit((n % 10) as int))
    }
}

/// Every character of a decimal rendering is an ASCII digit.
pub proof fn lemma_dec_ascii(n: nat)
    ensures
        vstd::utf8::is_ascii_chars(spec_dec(n)),
    decreases n,
{
    if n >= 10 {
        lemma_dec_ascii(n / 10);
    }
}

/// The single-character token of a decimal digit.
fn digit_str(d: u64) -> (r: &'static str)
    requires
        d < 10,
    ensures
        r@ == seq![spec_digit(d as int)],
{
    proof {
        reveal_strlit("0");
        reveal_strlit("1");
        reveal_strlit("2");
        reveal_strlit("3");
        reveal_strlit("4");
        reveal_strlit("5");
        reveal_strlit("6");
        reveal_strlit("7");
        reveal_strlit("8");
        reveal_strlit("9");
        assert("0"@ =~= seq!['0']);
        assert("1"@ =~= seq!['1']);
        assert("2"@ =~= seq!['2']);
        assert("3"@ =~= seq!['3']);
        assert("4"@ =~= seq!['4']);
        assert("5"@ =~= seq!['5']);
        assert("6"@ =~= seq!['6']);
        assert("7"@ =~= seq!['7']);
        assert("8"@ =~= seq!['8']);
        assert("9"@ =~= seq!['9']);
    }
    match d {
        0 => "0",
        1 => "1",
        2 => "2",
        3 => "3",
        4 => "4",
        5 => "5",
        6 => "6",
        7 => "7",
        8 => "8",
        _ => "9",
    }
}

/// Renders `n` in decimal, as `usize` values are displayed.
pub fn dec_u64(n: u64) -> (r: String)
    ensures
        r@ == spec_dec(n as nat),
    decreases n,
{
    if n < 10 {
        let s = String::from_str(digit_str(n));
        s
    } else {
        let mut s = dec_u64(n / 10);
        s.append(digit_str(n % 10));
        proof {
            assert(spec_dec((n / 10) as nat).push(spec_digit((n % 10) as int)) =~= spec_dec(
                (n / 10) as nat,
            ) + seq![spec_digit((n % 10) as int)]);
        }
        s
    }
}

/// `s` without leading whitespace.
pub open spec fn spec_ltrim(s: Seq<char>) -> Seq<char>
    decreases s.len(),
{
    if s.len() > 0 && spec_is_ws(s[0]) {
        spec_ltrim(s.drop_first())
    } else {
        s
    }
}

/// `s` without trailing whitespace.
pub open spec fn spec_rtrim(s: Seq<char>) -> Seq<char>
    decreases s.len(),
{
    if s.len() > 0 && spec_is_ws(s.last()) {
        spec_rtrim(s.drop_last())
    } else {
        s
    }
}

/// `s` without leading and trailing whitespace, as `str::trim` yields it.
pub open spec fn spec_trim(s: Seq<char>) -> Seq<char> {
    spec_rtrim(spec_ltrim(s))
}

/// Narrows the range `[from, to)` of `s` to its whitespace-trimmed core.
pub fn trim_range(s: &str, from: usize, to: usize) -> (r: (usize, usize))
    requires
        from <= to <= s@.len(),
    ensures
        from <= r.0 <= r.1 <= to,
        s@.subrange(r.0 as int, r.1 as int) == spec_trim(s@.subrange(from as int, to as int)),
{
    let mut a = from;
    while a < to && is_ws(s.get_char(a))
        invariant
            from <= a <= to <= s@.len(),
            spec_ltrim(s@.subrange(a as int, to as int)) == spec_ltrim(
                s@.subrange(from as int, to as int),
            ),
        decreases to - a,
    {
        proof {
            assert(s@.subrange(a as int, to as int)[0] == s@[a as int]);
            assert(s@.subrange(a as int, to as int).drop_first() =~= s@.subrange(
                a as int + 1,
                to as int,
            ));
        }
        a += 1;
    }
    proof {
        if a < to {
            assert(s@.subrange(a as int, to as int)[0] == s@[a as int]);
        }
        assert(spec_ltrim(s@.subrange(a as int, to as int)) == s@.subrange(a as int, to as int));
    }
    let mut b = to;
    while b > a && is_ws(s.get_char(b - 1))
        invariant
            from <= a <= b <= to <= s@.len(),
            spec_ltrim(s@.subrange(from as int, to as int)) == s@.subrange(a as int, to as int),
            spec_rtrim(s@.subrange(a as int, b as int)) == spec_rtrim(
                s@.subrange(a as int, to as int),
            ),
        decreases b,
    {
        proof {
            assert(s@.subrange(a as int, b as int).last() == s@[b as int - 1]);
            assert(s@.subrange(a as int, b as int).drop_last() =~= s@.subrange(
                a as int,
                b as int - 1,
            ));
        }
        b -= 1;
    }
    proof {
        if b > a {
            assert(s@.subrange(a as int, b as int).last() == s@[b as int - 1]);
        }
        assert(spec_rtrim(s@.subrange(a as int, b as int)) == s@.subrange(a as int, b as int));
    }
    (a, b)
}

} // verus!
