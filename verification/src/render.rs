//! Textual rendering of a 16-byte identifier: two hexadecimal characters
//! per byte, optional hyphen separators after bytes 3, 5, 7 and 9,
//! optional braces, and a choice of lowercase or uppercase digits.

use vstd::prelude::*;

verus! {

/// The hexadecimal character for a nibble value, lowercase by default,
/// uppercase when `upper` is set. Values 15 and above all map to the
/// highest digit, so that the function is total; callers only ever pass
/// values below 16.
pub open spec fn spec_hex_digit(n: u8, upper: bool) -> char {
    if n == 0 {
        '0'
    } else if n == 1 {
        '1'
    } else if n == 2 {
        '2'
    } else if n == 3 {
        '3'
    } else if n == 4 {
        '4'
    } else if n == 5 {
        '5'
    } else if n == 6 {
        '6'
    } else if n == 7 {
        '7'
    } else if n == 8 {
        '8'
    } else if n == 9 {
        '9'
    } else if n == 10 {
        if upper {
            'A'
        } else {
            'a'
        }
    } else if n == 11 {
        if upper {
            'B'
        } else {
            'b'
        }
    } else if n == 12 {
        if upper {
            'C'
        } else {
            'c'
        }
    } else if n == 13 {
        if upper {
            'D'
        } else {
            'd'
        }
    } else if n == 14 {
        if upper {
            'E'
        } else {
            'e'
        }
    } else {
        if upper {
            'F'
        } else {
            'f'
        }
    }
}

/// The two hexadecimal characters of one byte, high nibble first.
pub open spec fn spec_byte_hex(b: u8, upper: bool) -> Seq<char> {
    seq![spec_hex_digit(b >> 4, upper), spec_hex_digit(b & 0x0f, upper)]
}

/// The hexadecimal characters of the bytes `s[lo..hi]`, in order.
pub open spec fn spec_hex_range(s: Seq<u8>, lo: int, hi: int, upper: bool) -> Seq<char>
    recommends
        0 <= lo <= hi <= s.len(),
    decreases hi - lo,
{
    if lo >= hi {
        Seq::empty()
    } else {
        spec_byte_hex(s[lo], upper) + spec_hex_range(s, lo + 1, hi, upper)
    }
}

/// The full rendering of the 16 identifier bytes: all 32 hexadecimal
/// characters, with a hyphen after bytes 3, 5, 7 and 9 unless
/// `no_hyphen` is set, the whole wrapped in braces when `braced` is set.
pub open spec fn spec_format(s: Seq<u8>, no_hyphen: bool, braced: bool, upper: bool) -> Seq<char>
    recommends
        s.len() == 16,
{
    let hex = if no_hyphen {
        spec_hex_range(s, 0, 16, upper)
    } else {
        spec_hex_range(s, 0, 4, upper) + seq!['-'] + spec_hex_range(s, 4, 6, upper) + seq!['-']
            + spec_hex_range(s, 6, 8, upper) + seq!['-'] + spec_hex_range(s, 8, 10, upper)
            + seq!['-'] + spec_hex_range(s, 10, 16, upper)
    };
    if braced {
        seq!['{'] + hex + seq!['}']
    } else {
        hex
    }
}

/// Extending a range of bytes by one appends that byte's two characters.
proof fn lemma_hex_range_snoc(s: Seq<u8>, lo: int, hi: int, upper: bool)
    requires
        lo < hi,
    ensures
        spec_hex_range(s, lo, hi, upper) == spec_hex_range(s, lo, hi - 1, upper) + spec_byte_hex(
            s[hi - 1],
            upper,
        ),
    decreases hi - lo,
{
    if lo < hi - 1 {
        lemma_hex_range_snoc(s, lo + 1, hi, upper);
    } else {
        assert(spec_hex_range(s, lo + 1, hi, upper) == Seq::<char>::empty());
        assert(spec_hex_range(s, lo, hi - 1, upper) == Seq::<char>::empty());
    }
    assert(spec_hex_range(s, lo, hi, upper) =~= spec_hex_range(s, lo, hi - 1, upper)
        + spec_byte_hex(s[hi - 1], upper));
}

/// The characters of a range of bytes number two per byte.
pub proof fn lemma_hex_range_len(s: Seq<u8>, lo: int, hi: int, upper: bool)
    requires
        lo <= hi,
    ensures
        spec_hex_range(s, lo, hi, upper).len() == 2 * (hi - lo),
    decreases hi - lo,
{
    if lo < hi {
        lemma_hex_range_len(s, lo + 1, hi, upper);
    }
}

/// Canonical form length: the hyphenated unbraced rendering is exactly
/// 36 characters, the contiguous unbraced rendering exactly 32, and
/// braces add exactly 2 to either.
pub proof fn lemma_render_lengths(s: Seq<u8>, upper: bool)
    requires
        s.len() == 16,
    ensures
        spec_format(s, false, false, upper).len() == 36,
        spec_format(s, true, false, upper).len() == 32,
        spec_format(s, false, true, upper).len() == spec_format(s, false, false, upper).len() + 2,
        spec_format(s, true, true, upper).len() == spec_format(s, true, false, upper).len() + 2,
{
    lemma_hex_range_len(s, 0, 16, upper);
    lemma_hex_range_len(s, 0, 4, upper);
    lemma_hex_range_len(s, 4, 6, upper);
    lemma_hex_range_len(s, 6, 8, upper);
    lemma_hex_range_len(s, 8, 10, upper);
    lemma_hex_range_len(s, 10, 16, upper);
}

/// Rendering is deterministic: `format_uuid` promises its exact text,
/// so any two renderings of the same bytes under the same options are
/// the same text.
pub proof fn lemma_render_deterministic(
    r1: Seq<char>,
    r2: Seq<char>,
    s: Seq<u8>,
    no_hyphen: bool,
    braced: bool,
    upper: bool,
)
    requires
        r1 == spec_format(s, no_hyphen, braced, upper),
        r2 == spec_format(s, no_hyphen, braced, upper),
    ensures
        r1 == r2,
{
}

fn hex_digit(n: u8, upper: bool) -> (c: char)
    requires
        n < 16,
    ensures
        c == spec_hex_digit(n, upper),
{
    if upper {
        match n {
            0 => '0',
            1 => '1',
            2 => '2',
            3 => '3',
            4 => '4',
            5 => '5',
            6 => '6',
            7 => '7',
            8 => '8',
            9 => '9',
            10 => 'A',
            11 => 'B',
            12 => 'C',
            13 => 'D',
            14 => 'E',
            _ => 'F',
        }
    } else {
        match n {
            0 => '0',
            1 => '1',
            2 => '2',
            3 => '3',
            4 => '4',
            5 => '5',
            6 => '6',
            7 => '7',
            8 => '8',
            9 => '9',
            10 => 'a',
            11 => 'b',
            12 => 'c',
            13 => 'd',
            14 => 'e',
            _ => 'f',
        }
    }
}

/// Appends the two hexadecimal characters of one byte.
fn push_byte_hex(v: &mut Vec<char>, b: u8, upper: bool)
    ensures
        final(v)@ == old(v)@ + spec_byte_hex(b, upper),
{
    proof {
        assert(b >> 4 < 16 && b & 0x0f < 16) by (bit_vector);
    }
    v.push(hex_digit(b >> 4, upper));
    v.push(hex_digit(b & 0x0f, upper));
    assert(v@ =~= old(v)@ + spec_byte_hex(b, upper));
}

/// Appends the hexadecimal characters of the bytes `b[lo..hi]`.
fn push_hex_range(v: &mut Vec<char>, b: &[u8; 16], lo: usize, hi: usize, upper: bool)
    requires
        lo <= hi <= 16,
    ensures
        final(v)@ == old(v)@ + spec_hex_range(b@, lo as int, hi as int, upper),
{
    let mut i = lo;
    while i < hi
        invariant
            lo <= i <= hi <= 16,
            v@ == old(v)@ + spec_hex_range(b@, lo as int, i as int, upper),
        decreases hi - i,
    {
        push_byte_hex(v, b[i], upper);
        i = i + 1;
        proof {
            lemma_hex_range_snoc(b@, lo as int, i as int, upper);
        }
    }
}

/// Relies on `String::from_iter` over the characters of the vector: the
/// resulting string holds exactly those characters, in order.
#[verifier::external_body]
fn chars_to_string(v: &Vec<char>) -> (r: String)
    ensures
        r@ == v@,
{
    v.iter().collect()
}

/// Renders the identifier bytes as text, exactly as `spec_format` lays
/// it out: two hexadecimal characters per byte, hyphen separators
/// unless `no_hyphen` is set, braces when `braced` is set, uppercase
/// digits when `upper` is set.
pub fn format_uuid(b: [u8; 16], no_hyphen: bool, braced: bool, upper: bool) -> (r: String)
    ensures
        r@ == spec_format(b@, no_hyphen, braced, upper),
{
    let mut v: Vec<char> = Vec::new();
    if braced {
        v.push('{');
    }
    if no_hyphen {
        push_hex_range(&mut v, &b, 0, 16, upper);
    } else {
        push_hex_range(&mut v, &b, 0, 4, upper);
        v.push('-');
        push_hex_range(&mut v, &b, 4, 6, upper);
        v.push('-');
        push_hex_range(&mut v, &b, 6, 8, upper);
        v.push('-');
        push_hex_range(&mut v, &b, 8, 10, upper);
        v.push('-');
        push_hex_range(&mut v, &b, 10, 16, upper);
    }
    if braced {
        v.push('}');
    }
    proof {
        assert(v@ =~= spec_format(b@, no_hyphen, braced, upper));
    }
    chars_to_string(&v)
}

/// The characters of `s` with every hyphen removed, in order.
pub open spec fn strip_hyphens(s: Seq<char>) -> Seq<char>
    decreases s.len(),
{
    if s.len() == 0 {
        Seq::empty()
    } else if s[0] == '-' {
        strip_hyphens(s.drop_first())
    } else {
        seq![s[0]] + strip_hyphens(s.drop_first())
    }
}

/// An uppercase hexadecimal letter folded to its lowercase form; every
/// other character is kept as it is.
pub open spec fn fold_lower_char(c: char) -> char {
    if c == 'A' {
        'a'
    } else if c == 'B' {
        'b'
    } else if c == 'C' {
        'c'
    } else if c == 'D' {
        'd'
    } else if c == 'E' {
        'e'
    } else if c == 'F' {
        'f'
    } else {
        c
    }
}

/// The characters of `s`, each case-folded to lowercase.
pub open spec fn fold_lower(s: Seq<char>) -> Seq<char> {
    s.map_values(|c: char| fold_lower_char(c))
}

proof fn lemma_strip_distributes(a: Seq<char>, b: Seq<char>)
    ensures
        strip_hyphens(a + b) == strip_hyphens(a) + strip_hyphens(b),
    decreases a.len(),
{
    if a.len() == 0 {
        assert(a + b =~= b);
        assert(strip_hyphens(a) =~= Seq::<char>::empty());
        assert(strip_hyphens(a) + strip_hyphens(b) =~= strip_hyphens(b));
    } else {
        assert((a + b).drop_first() =~= a.drop_first() + b);
        lemma_strip_distributes(a.drop_first(), b);
        assert((a + b)[0] == a[0]);
        if a[0] == '-' {
        } else {
            assert(seq![a[0]] + (strip_hyphens(a.drop_first()) + strip_hyphens(b)) =~= (seq![a[0]]
                + strip_hyphens(a.drop_first())) + strip_hyphens(b));
        }
    }
}

proof fn lemma_strip_no_hyphen(s: Seq<char>)
    requires
        forall|i: int| 0 <= i < s.len() ==> s[i] != '-',
    ensures
        strip_hyphens(s) == s,
    decreases s.len(),
{
    if s.len() == 0 {
        assert(strip_hyphens(s) =~= s);
    } else {
        lemma_strip_no_hyphen(s.drop_first());
        assert(strip_hyphens(s) =~= s);
    }
}

proof fn lemma_strip_hyphen_alone()
    ensures
        strip_hyphens(seq!['-']) == Seq::<char>::empty(),
{
    assert(strip_hyphens(seq!['-'].drop_first()) =~= Seq::<char>::empty());
}

proof fn lemma_strip_hex_range(s: Seq<u8>, lo: int, hi: int, upper: bool)
    requires
        lo <= hi,
    ensures
        strip_hyphens(spec_hex_range(s, lo, hi, upper)) == spec_hex_range(s, lo, hi, upper),
{
    lemma_hex_range_len(s, lo, hi, upper);
    assert forall|i: int| 0 <= i < spec_hex_range(s, lo, hi, upper).len() implies spec_hex_range(
        s,
        lo,
        hi,
        upper,
    )[i] != '-' by {
        lemma_hex_range_chars(s, lo, hi, upper, i);
    }
    lemma_strip_no_hyphen(spec_hex_range(s, lo, hi, upper));
}

/// Each character of a hexadecimal range is a digit character: the one
/// at position `2 * k` is the high nibble of byte `lo + k`, the one at
/// `2 * k + 1` its low nibble.
proof fn lemma_hex_range_chars(s: Seq<u8>, lo: int, hi: int, upper: bool, i: int)
    requires
        lo <= hi,
        0 <= i < 2 * (hi - lo),
    ensures
        spec_hex_range(s, lo, hi, upper)[i] == spec_byte_hex(s[lo + i / 2], upper)[i % 2],
        spec_hex_range(s, lo, hi, upper)[i] != '-',
    decreases hi - lo,
{
    lemma_hex_range_len(s, lo + 1, hi, upper);
    if i >= 2 {
        lemma_hex_range_chars(s, lo + 1, hi, upper, i - 2);
    }
}

proof fn lemma_fold_distributes(a: Seq<char>, b: Seq<char>)
    ensures
        fold_lower(a + b) == fold_lower(a) + fold_lower(b),
{
    assert(fold_lower(a + b) =~= fold_lower(a) + fold_lower(b));
}

proof fn lemma_fold_hex_range(s: Seq<u8>, lo: int, hi: int, upper: bool)
    requires
        lo <= hi,
    ensures
        fold_lower(spec_hex_range(s, lo, hi, upper)) == spec_hex_range(s, lo, hi, false),
    decreases hi - lo,
{
    if lo >= hi {
        assert(fold_lower(spec_hex_range(s, lo, hi, upper)) =~= spec_hex_range(s, lo, hi, false));
    } else {
        lemma_fold_hex_range(s, lo + 1, hi, upper);
        lemma_fold_distributes(spec_byte_hex(s[lo], upper), spec_hex_range(s, lo + 1, hi, upper));
        assert(fold_lower(spec_byte_hex(s[lo], upper)) =~= spec_byte_hex(s[lo], false));
    }
}

proof fn lemma_hex_range_concat(s: Seq<u8>, lo: int, mid: int, hi: int, upper: bool)
    requires
        lo <= mid <= hi,
    ensures
        spec_hex_range(s, lo, mid, upper) + spec_hex_range(s, mid, hi, upper) == spec_hex_range(
            s,
            lo,
            hi,
            upper,
        ),
    decreases mid - lo,
{
    if lo < mid {
        lemma_hex_range_concat(s, lo + 1, mid, hi, upper);
    } else {
        assert(spec_hex_range(s, lo, mid, upper) =~= Seq::<char>::empty());
    }
    assert(spec_hex_range(s, lo, mid, upper) + spec_hex_range(s, mid, hi, upper)
        =~= spec_hex_range(s, lo, hi, upper));
}

/// Round trip between the two unbraced layouts: the hyphenated
/// lowercase rendering, with its hyphens stripped and the result
/// case-folded to lowercase, equals the contiguous uppercase rendering
/// case-folded to lowercase.
pub proof fn lemma_round_trip(s: Seq<u8>)
    requires
        s.len() == 16,
    ensures
        fold_lower(strip_hyphens(spec_format(s, false, false, false))) == fold_lower(
            spec_format(s, true, false, true),
        ),
{
    let g1 = spec_hex_range(s, 0, 4, false);
    let g2 = spec_hex_range(s, 4, 6, false);
    let g3 = spec_hex_range(s, 6, 8, false);
    let g4 = spec_hex_range(s, 8, 10, false);
    let g5 = spec_hex_range(s, 10, 16, false);
    let hy = seq!['-'];
    let h = g1 + hy + g2 + hy + g3 + hy + g4 + hy + g5;
    assert(spec_format(s, false, false, false) == h);
    lemma_strip_distributes(g1 + hy + g2 + hy + g3 + hy + g4, hy + g5);
    lemma_strip_distributes(g1 + hy + g2 + hy + g3 + hy + g4, hy);
    assert(g1 + hy + g2 + hy + g3 + hy + g4 + hy + g5 =~= (g1 + hy + g2 + hy + g3 + hy + g4) + (hy
        + g5));
    lemma_strip_distributes(hy, g5);
    lemma_strip_distributes(g1 + hy + g2 + hy + g3, hy + g4);
    assert(g1 + hy + g2 + hy + g3 + hy + g4 =~= (g1 + hy + g2 + hy + g3) + (hy + g4));
    lemma_strip_distributes(hy, g4);
    lemma_strip_distributes(g1 + hy + g2, hy + g3);
    assert(g1 + hy + g2 + hy + g3 =~= (g1 + hy + g2) + (hy + g3));
    lemma_strip_distributes(hy, g3);
    lemma_strip_distributes(g1, hy + g2);
    assert(g1 + hy + g2 =~= g1 + (hy + g2));
    lemma_strip_distributes(hy, g2);
    lemma_strip_hyphen_alone();
    lemma_strip_hex_range(s, 0, 4, false);
    lemma_strip_hex_range(s, 4, 6, false);
    lemma_strip_hex_range(s, 6, 8, false);
    lemma_strip_hex_range(s, 8, 10, false);
    lemma_strip_hex_range(s, 10, 16, false);
    assert(strip_hyphens(h) =~= g1 + g2 + g3 + g4 + g5);
    lemma_hex_range_concat(s, 0, 4, 6, false);
    lemma_hex_range_concat(s, 0, 6, 8, false);
    lemma_hex_range_concat(s, 0, 8, 10, false);
    lemma_hex_range_concat(s, 0, 10, 16, false);
    assert(g1 + g2 + g3 + g4 + g5 =~= spec_hex_range(s, 0, 16, false));
    lemma_fold_hex_range(s, 0, 16, false);
    lemma_fold_hex_range(s, 0, 16, true);
}

} // verus!
