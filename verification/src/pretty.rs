//! Pretty number formatting.
//!
//! A number is rendered as its decimal digits, split into chunks of (up to)
//! three digits from the least-significant end. Each chunk is preceded by an
//! ANSI style marker; the markers alternate between "reset" and "underline"
//! so that chunk boundaries are visible without separator characters. The
//! least-significant chunk always gets the "reset" marker, so the string
//! never ends with an open underline.

use vstd::prelude::*;

verus! {

/// A non-negative number with exactly two decimal digits of precision,
/// stored as a count of hundredths.
#[derive(Clone, Copy, PartialEq, Eq, Structural, Debug)]
pub struct Fix2 {
    pub hundredths: u64,
}

/// The character for a single decimal digit.
pub open spec fn digit_char(d: nat) -> char {
    if d == 0 {
        '0'
    } else if d == 1 {
        '1'
    } else if d == 2 {
        '2'
    } else if d == 3 {
        '3'
    } else if d == 4 {
        '4'
    } else if d == 5 {
        '5'
    } else if d == 6 {
        '6'
    } else if d == 7 {
        '7'
    } else if d == 8 {
        '8'
    } else {
        '9'
    }
}

/// The decimal representation of `n`, most significant digit first.
pub open spec fn dec_spec(n: nat) -> Seq<char>
    decreases n,
{
    if n < 10 {
        seq![digit_char(n)]
    } else {
        dec_spec(n / 10).push(digit_char(n % 10))
    }
}

/// The ANSI style marker put in front of a chunk: "reset" closes any
/// emphasis, "underline" opens it.
pub open spec fn marker_spec(reset: bool) -> Seq<char> {
    if reset {
        seq!['\u{1B}', '[', '0', 'm']
    } else {
        seq!['\u{1B}', '[', '4', 'm']
    }
}

/// The digits of `d` from index `i` on, with a style marker in front of each
/// chunk of three digits (counted from the right). A chunk whose distance
/// from the right end is even gets the "reset" marker, an odd one gets
/// "underline", so the rightmost chunk is always unemphasised.
pub open spec fn grouped_from(d: Seq<char>, i: int) -> Seq<char>
    decreases d.len() - i,
{
    if i < 0 || i >= d.len() {
        Seq::empty()
    } else {
        let p = d.len() - 1 - i;
        let head = if i == 0 || p % 3 == 2 {
            marker_spec((p / 3) % 2 == 0)
        } else {
            Seq::<char>::empty()
        };
        head + seq![d[i]] + grouped_from(d, i + 1)
    }
}

/// A digit string with all its chunk markers.
pub open spec fn grouped_spec(d: Seq<char>) -> Seq<char> {
    grouped_from(d, 0)
}

/// What the formatter produces for the unsigned number `n`.
pub open spec fn pretty_spec(n: nat) -> Seq<char> {
    grouped_spec(dec_spec(n))
}

/// The two fractional digits of a count of hundredths.
pub open spec fn frac2_spec(h: nat) -> Seq<char> {
    seq![digit_char((h / 10) % 10), digit_char(h % 10)]
}

/// What the formatter produces for a two-decimal number: the grouped integer
/// part, a decimal point, and the two fractional digits, unstyled.
pub open spec fn pretty_fix2_spec(h: nat) -> Seq<char> {
    pretty_spec(h / 100) + seq!['.'] + frac2_spec(h)
}

/// An ungrouped rendering of a two-decimal number, used for elapsed times.
pub open spec fn plain_fix2_spec(h: nat) -> Seq<char> {
    dec_spec(h / 100) + seq!['.'] + frac2_spec(h)
}

fn digit_str(d: u64) -> (s: &'static str)
    requires
        d < 10,
    ensures
        s@ == seq![digit_char(d as nat)],
{
    let s: &'static str = if d == 0 {
        "0"
    } else if d == 1 {
        "1"
    } else if d == 2 {
        "2"
    } else if d == 3 {
        "3"
    } else if d == 4 {
        "4"
    } else if d == 5 {
        "5"
    } else if d == 6 {
        "6"
    } else if d == 7 {
        "7"
    } else if d == 8 {
        "8"
    } else {
        "9"
    };
    proof {
        reveal_strlit("0");
        reveal_strlit("1");
        reveal_strlit("2");
        reveal_strlit("3");
        reveal_strlit("4");
        reveal_strlit("5");
        reveal_strlit("6");
        reveal_strlit("7");
        reveal_strlit("8");
        reveal_strlit("9");
        assert(s@ =~= seq![digit_char(d as nat)]);
    }
    s
}

fn marker_str(reset: bool) -> (s: &'static str)
    ensures
        s@ == marker_spec(reset),
{
    let s: &'static str = if reset {
        "\u{1B}[0m"
    } else {
        "\u{1B}[4m"
    };
    proof {
        reveal_strlit("\u{1B}[0m");
        reveal_strlit("\u{1B}[4m");
        assert(s@ =~= marker_spec(reset));
    }
    s
}

/// The digit characters for a sequence of digit values.
pub open spec fn digit_chars(v: Seq<u64>) -> Seq<char> {
    v.map_values(|x: u64| digit_char(x as nat))
}

fn dec_digits(n: u64) -> (v: Vec<u64>)
    ensures
        digit_chars(v@) == dec_spec(n as nat),
        v@.len() >= 1,
        forall|j: int| 0 <= j < v@.len() ==> v@[j] < 10,
    decreases n,
{
    if n < 10 {
        let mut v: Vec<u64> = Vec::new();
        v.push(n);
        proof {
            assert(digit_chars(v@) =~= dec_spec(n as nat));
        }
        v
    } else {
        proof {
            assert(n / 10 < n) by (nonlinear_arith)
                requires
                    n >= 10,
            ;
        }
        let mut v = dec_digits(n / 10);
        v.push(n % 10);
        proof {
            assert(digit_chars(v@) =~= dec_spec(n as nat));
        }
        v
    }
}

fn render_grouped(v: &Vec<u64>) -> (out: String)
    requires
        v@.len() >= 1,
        forall|j: int| 0 <= j < v@.len() ==> v@[j] < 10,
    ensures
        out@ == grouped_spec(digit_chars(v@)),
{
    let ghost d: Seq<char> = digit_chars(v@);
    proof {
        assert(d.len() == v@.len());
    }
    let mut out = String::new();
    let len: usize = v.len();
    let mut i: usize = 0;
    while i < len
        invariant
            len == v@.len(),
            1 <= len,
            i <= len,
            d == digit_chars(v@),
            d.len() == len,
            forall|j: int| 0 <= j < v@.len() ==> v@[j] < 10,
            grouped_spec(d) == out@ + grouped_from(d, i as int),
        decreases len - i,
    {
        let ghost i0 = i as int;
        let ghost out0 = out@;
        let p: usize = len - 1 - i;
        if i == 0 || p % 3 == 2 {
            out.append(marker_str((p / 3) % 2 == 0));
        }
        out.append(digit_str(v[i]));
        proof {
            assert(d[i0] == digit_char(v@[i0] as nat));
            let head = if i0 == 0 || (d.len() - 1 - i0) % 3 == 2 {
                marker_spec(((d.len() - 1 - i0) / 3) % 2 == 0)
            } else {
                Seq::<char>::empty()
            };
            assert(grouped_from(d, i0) == head + seq![d[i0]] + grouped_from(d, i0 + 1));
            assert(out@ =~= out0 + head + seq![d[i0]]);
            assert(out0 + head + seq![d[i0]] + grouped_from(d, i0 + 1) =~= out0 + grouped_from(
                d,
                i0,
            ));
        }
        i += 1;
    }
    proof {
        assert(grouped_from(d, len as int) =~= Seq::<char>::empty());
        assert(out@ + grouped_from(d, len as int) =~= out@);
    }
    out
}

/// Formatter for unsigned numbers: the decimal digits of `n`, grouped into
/// chunks of three with alternating emphasis markers.
pub fn pretty_u64(n: u64) -> (s: String)
    ensures
        s@ == pretty_spec(n as nat),
{
    let v = dec_digits(n);
    render_grouped(&v)
}

/// The plain (ungrouped, unstyled) decimal rendering of `n`.
pub fn plain_u64(n: u64) -> (s: String)
    ensures
        s@ == dec_spec(n as nat),
{
    let v = dec_digits(n);
    let ghost d: Seq<char> = digit_chars(v@);
    let mut out = String::new();
    let len: usize = v.len();
    let mut i: usize = 0;
    while i < len
        invariant
            len == v@.len(),
            d == digit_chars(v@),
            d.len() == len,
            i <= len,
            forall|j: int| 0 <= j < v@.len() ==> v@[j] < 10,
            out@ == d.take(i as int),
        decreases len - i,
    {
        out.append(digit_str(v[i]));
        proof {
            assert(d[i as int] == digit_char(v@[i as int] as nat));
            assert(d.take(i as int).push(d[i as int]) =~= d.take(i as int + 1));
        }
        i += 1;
    }
    proof {
        assert(d.take(len as int) =~= d);
    }
    out
}

/// Formatter for two-decimal numbers: grouped integer part, then a decimal
/// point and the two fractional digits.
pub fn pretty_fix2(x: Fix2) -> (s: String)
    ensures
        s@ == pretty_fix2_spec(x.hundredths as nat),
{
    let mut s = pretty_u64(x.hundredths / 100);
    s.append(".");
    s.append(digit_str((x.hundredths / 10) % 10));
    s.append(digit_str(x.hundredths % 10));
    proof {
        reveal_strlit(".");
        assert(s@ =~= pretty_fix2_spec(x.hundredths as nat));
    }
    s
}

/// The ungrouped two-decimal rendering, used for elapsed times.
pub fn plain_fix2(h: u64) -> (s: String)
    ensures
        s@ == plain_fix2_spec(h as nat),
{
    let mut s = plain_u64(h / 100);
    s.append(".");
    s.append(digit_str((h / 10) % 10));
    s.append(digit_str(h % 10));
    proof {
        reveal_strlit(".");
        assert(s@ =~= plain_fix2_spec(h as nat));
    }
    s
}

/// Removes ANSI style sequences: an escape character starts a sequence that
/// runs up to and with the next 'm'; every other character is kept.
pub open spec fn strip_rec(s: Seq<char>, in_esc: bool) -> Seq<char>
    decreases s.len(),
{
    if s.len() == 0 {
        Seq::empty()
    } else if in_esc {
        strip_rec(s.skip(1), s[0] != 'm')
    } else if s[0] == '\u{1B}' {
        strip_rec(s.skip(1), true)
    } else {
        seq![s[0]] + strip_rec(s.skip(1), false)
    }
}

/// A string with all emphasis markers removed.
pub open spec fn strip_emphasis(s: Seq<char>) -> Seq<char> {
    strip_rec(s, false)
}

/// No character of `s` starts an ANSI style sequence.
pub open spec fn esc_free(s: Seq<char>) -> bool {
    forall|i: int| 0 <= i < s.len() ==> s[i] != '\u{1B}'
}

proof fn lemma_strip_esc_free_concat(a: Seq<char>, b: Seq<char>)
    requires
        esc_free(a),
    ensures
        strip_rec(a + b, false) == a + strip_rec(b, false),
    decreases a.len(),
{
    if a.len() == 0 {
        assert(a + b =~= b);
        assert(a + strip_rec(b, false) =~= strip_rec(b, false));
    } else {
        assert((a + b).skip(1) =~= a.skip(1) + b);
        lemma_strip_esc_free_concat(a.skip(1), b);
        assert(seq![(a + b)[0]] + (a.skip(1) + strip_rec(b, false)) =~= a + strip_rec(b, false));
    }
}

proof fn lemma_strip_marker(reset: bool, t: Seq<char>)
    ensures
        strip_rec(marker_spec(reset) + t, false) == strip_rec(t, false),
{
    let m = marker_spec(reset);
    let s0 = m + t;
    let s1 = s0.skip(1);
    let s2 = s1.skip(1);
    let s3 = s2.skip(1);
    assert(s0[0] == '\u{1B}' && s0[1] == '[' && s0[3] == 'm');
    assert(s0[2] == '0' || s0[2] == '4');
    assert(s1[0] == s0[1] && s1.len() == s0.len() - 1);
    assert(s2[0] == s0[2] && s2.len() == s0.len() - 2);
    assert(s3[0] == s0[3] && s3.len() == s0.len() - 3);
    assert(strip_rec(s0, false) == strip_rec(s1, true));
    assert(strip_rec(s1, true) == strip_rec(s2, true));
    assert(strip_rec(s2, true) == strip_rec(s3, true));
    assert(s3.skip(1) =~= t);
    assert(strip_rec(s3, true) == strip_rec(t, false));
}

proof fn lemma_strip_grouped_concat(d: Seq<char>, i: int, t: Seq<char>)
    requires
        0 <= i <= d.len(),
        esc_free(d),
    ensures
        strip_rec(grouped_from(d, i) + t, false) == d.skip(i) + strip_rec(t, false),
    decreases d.len() - i,
{
    if i == d.len() {
        assert(grouped_from(d, i) + t =~= t);
        assert(d.skip(i) + strip_rec(t, false) =~= strip_rec(t, false));
    } else {
        let p = d.len() - 1 - i;
        let head = if i == 0 || p % 3 == 2 {
            marker_spec((p / 3) % 2 == 0)
        } else {
            Seq::<char>::empty()
        };
        let rest = grouped_from(d, i + 1);
        assert(grouped_from(d, i) == head + seq![d[i]] + rest);
        lemma_strip_grouped_concat(d, i + 1, t);
        if i == 0 || p % 3 == 2 {
            assert(grouped_from(d, i) + t =~= head + (seq![d[i]] + (rest + t)));
            lemma_strip_marker((p / 3) % 2 == 0, seq![d[i]] + (rest + t));
            assert(esc_free(seq![d[i]]));
            lemma_strip_esc_free_concat(seq![d[i]], rest + t);
            assert(seq![d[i]] + (d.skip(i + 1) + strip_rec(t, false)) =~= d.skip(i) + strip_rec(
                t,
                false,
            ));
        } else {
            assert(grouped_from(d, i) + t =~= seq![d[i]] + (rest + t));
            lemma_strip_esc_free_concat(seq![d[i]], rest + t);
            assert(seq![d[i]] + (d.skip(i + 1) + strip_rec(t, false)) =~= d.skip(i) + strip_rec(
                t,
                false,
            ));
        }
    }
}

proof fn lemma_dec_esc_free(n: nat)
    ensures
        esc_free(dec_spec(n)),
    decreases n,
{
    if n >= 10 {
        lemma_dec_esc_free(n / 10);
    }
}

/// Law: stripping the emphasis markers from the formatted rendering of any
/// unsigned number gives back exactly its decimal representation.
pub proof fn lemma_strip_pretty(n: nat)
    ensures
        strip_emphasis(pretty_spec(n)) == dec_spec(n),
{
    lemma_dec_esc_free(n);
    let d = dec_spec(n);
    lemma_strip_grouped_concat(d, 0, Seq::empty());
    assert(grouped_from(d, 0) + Seq::<char>::empty() =~= grouped_from(d, 0));
    assert(d.skip(0) + strip_rec(Seq::<char>::empty(), false) =~= d);
}

/// Law: stripping the emphasis markers from the formatted rendering of a
/// two-decimal number gives the plain integer digits, the decimal point and
/// the two fractional digits.
pub proof fn lemma_strip_pretty_fix2(h: nat)
    ensures
        strip_emphasis(pretty_fix2_spec(h)) == plain_fix2_spec(h),
{
    lemma_dec_esc_free(h / 100);
    let d = dec_spec(h / 100);
    let t = seq!['.'] + frac2_spec(h);
    assert(pretty_fix2_spec(h) =~= grouped_from(d, 0) + t);
    lemma_strip_grouped_concat(d, 0, t);
    assert(esc_free(t));
    lemma_strip_esc_free_concat(t, Seq::empty());
    assert(t + Seq::<char>::empty() =~= t);
    assert(t + strip_rec(Seq::<char>::empty(), false) =~= t);
    assert(d.skip(0) + t =~= plain_fix2_spec(h));
}

/// Law: the rendering of zero is a single reset marker followed by the digit
/// zero; in particular no emphasis is left open at the end of the string.
pub proof fn lemma_pretty_zero()
    ensures
        pretty_spec(0) == marker_spec(true) + seq!['0'],
{
    let d = dec_spec(0);
    assert(d =~= seq!['0']);
    assert(grouped_from(d, 1) =~= Seq::<char>::empty());
    assert(pretty_spec(0) =~= marker_spec(true) + seq!['0']);
}

} // verus!
