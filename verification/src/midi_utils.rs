use vstd::prelude::*;
use vstd::string::*;

verus! {

/// MIDI note utilities and conversions.
pub struct MidiNoteUtils;

/// MIDI velocity utilities.
pub struct MidiVelocity;

/// The response curve of a keyboard's velocity.
#[derive(Debug, Clone, Copy, PartialEq, Eq, Structural)]
pub enum VelocityCurve {
    Linear,
    Soft,
    Hard,
    Exponential,
}

/// A pitch class (pitch modulo 12) that lies on a black piano key.
pub open spec fn is_black_pitch_class(pc: int) -> bool {
    pc == 1 || pc == 3 || pc == 6 || pc == 8 || pc == 10
}

/// The name of a pitch class, with `#` for sharps.
pub open spec fn note_name(pc: int) -> Seq<char> {
    if pc == 0 {
        seq!['C']
    } else if pc == 1 {
        seq!['C', '#']
    } else if pc == 2 {
        seq!['D']
    } else if pc == 3 {
        seq!['D', '#']
    } else if pc == 4 {
        seq!['E']
    } else if pc == 5 {
        seq!['F']
    } else if pc == 6 {
        seq!['F', '#']
    } else if pc == 7 {
        seq!['G']
    } else if pc == 8 {
        seq!['G', '#']
    } else if pc == 9 {
        seq!['A']
    } else if pc == 10 {
        seq!['A', '#']
    } else {
        seq!['B']
    }
}

/// The number of white piano keys among the pitch classes below `pc`.
pub open spec fn white_keys_below(pc: int) -> nat
    decreases pc,
{
    if pc <= 0 {
        0
    } else {
        white_keys_below(pc - 1) + if is_black_pitch_class(pc - 1) {
            0nat
        } else {
            1nat
        }
    }
}

/// The place of a note letter in the musical alphabet starting from C:
/// C D E F G A B.
pub open spec fn letter_from_c(c: char) -> int {
    ((c as int) - ('C' as int) + 7) % 7
}

/// Pitch classes are named as on a piano: a white key by one letter, the
/// letters going up the musical alphabet from C (C D E F G A B), one letter
/// per white key; a black key by the white key below it and a sharp. Seven
/// of the twelve are white.
pub proof fn lemma_pitch_class_names(pc: int)
    requires
        0 <= pc < 12,
    ensures
        note_name(pc).len() == 1 <==> !is_black_pitch_class(pc),
        'A' <= note_name(pc)[0] <= 'G',
        !is_black_pitch_class(pc) ==> letter_from_c(note_name(pc)[0]) == white_keys_below(pc),
        is_black_pitch_class(pc) ==> pc > 0 && !is_black_pitch_class(pc - 1) && note_name(pc)
            == note_name(pc - 1).push('#'),
        white_keys_below(12) == 7,
{
    reveal_with_fuel(white_keys_below, 13);
    assert(note_name(pc).len() >= 1);
    if is_black_pitch_class(pc) {
        assert(note_name(pc) =~= note_name(pc - 1).push('#'));
    }
}

/// The character of a decimal digit.
pub open spec fn digit_char(d: int) -> char {
    if d == 0 {
        '0'
    } else if d == 1 {
        '1'
    } else if d == 2 {
        '2'
    } else if d == 3 {
        '3'
    } else if d == 4 {
        '4'
    } else if d == 5 {
        '5'
    } else if d == 6 {
        '6'
    } else if d == 7 {
        '7'
    } else if d == 8 {
        '8'
    } else {
        '9'
    }
}

/// The value of a decimal digit character, if it is one.
pub open spec fn digit_value(c: char) -> Option<int> {
    if '0' <= c && c <= '9' {
        Some(c as int - '0' as int)
    } else {
        None
    }
}

/// The decimal text of a natural number, without leading zeros.
pub open spec fn nat_text(n: nat) -> Seq<char>
    decreases n,
{
    if n < 10 {
        seq![digit_char(n as int)]
    } else {
        nat_text(n / 10).push(digit_char((n % 10) as int))
    }
}

/// The decimal text of an integer, with a leading `-` when it is negative.
pub open spec fn int_text(i: int) -> Seq<char> {
    if i < 0 {
        seq!['-'] + nat_text((-i) as nat)
    } else {
        nat_text(i as nat)
    }
}

/// The name of a MIDI note: its pitch class and its octave, middle C (60)
/// being "C4".
pub open spec fn midi_note_name(pitch: u8) -> Seq<char> {
    note_name((pitch % 12) as int) + int_text(pitch / 12 - 1)
}

/// Whether every character of a text is a decimal digit.
pub open spec fn all_digits(s: Seq<char>) -> bool {
    forall|i: int| 0 <= i < s.len() ==> (#[trigger] digit_value(s[i])) is Some
}

/// The value of a text of decimal digits.
pub open spec fn digits_value(s: Seq<char>) -> int
    decreases s.len(),
{
    if s.len() == 0 {
        0
    } else {
        digits_value(s.drop_last()) * 10 + digit_value(s.last())->0
    }
}

/// A decimal integer in the form the standard library parses as `i32`: an
/// optional sign, then one or more digits, the value within `i32`.
pub open spec fn parse_i32_text(s: Seq<char>) -> Option<i32> {
    let neg = s.len() > 0 && s[0] == '-';
    let signed = s.len() > 0 && (s[0] == '-' || s[0] == '+');
    let ds = if signed {
        s.skip(1)
    } else {
        s
    };
    if ds.len() == 0 || !all_digits(ds) {
        None
    } else {
        let v = if neg {
            -digits_value(ds)
        } else {
            digits_value(ds)
        };
        if i32::MIN <= v <= i32::MAX {
            Some(v as i32)
        } else {
            None
        }
    }
}

/// The semitone offset of an (upper-case) note name within its octave: a
/// letter alone, or a letter followed by `#` or `S` for a sharp.
pub open spec fn note_offset(np: Seq<char>) -> Option<int> {
    if np.len() == 1 {
        let c = np[0];
        if c == 'C' {
            Some(0)
        } else if c == 'D' {
            Some(2)
        } else if c == 'E' {
            Some(4)
        } else if c == 'F' {
            Some(5)
        } else if c == 'G' {
            Some(7)
        } else if c == 'A' {
            Some(9)
        } else if c == 'B' {
            Some(11)
        } else {
            None
        }
    } else if np.len() == 2 && (np[1] == '#' || np[1] == 'S') {
        let c = np[0];
        if c == 'C' {
            Some(1)
        } else if c == 'D' {
            Some(3)
        } else if c == 'F' {
            Some(6)
        } else if c == 'G' {
            Some(8)
        } else if c == 'A' {
            Some(10)
        } else {
            None
        }
    } else {
        None
    }
}

/// Whether a character is ASCII.
pub open spec fn is_ascii_char(c: char) -> bool {
    (c as int) < 128
}

/// The texts on which splitting a note name fails: without `#`, the note
/// part is the first byte, which must be a whole (ASCII) character.
pub open spec fn note_split_fails(u: Seq<char>) -> bool {
    !u.contains('#') && (u.len() == 0 || !is_ascii_char(u[0]))
}

/// The position of the first `#` in a text that holds one.
pub open spec fn first_hash(u: Seq<char>) -> int {
    choose|i: int| 0 <= i < u.len() && u[i] == '#' && forall|j: int| 0 <= j < i ==> u[j] != '#'
}

/// Where a note name splits into note and octave: after the first `#`, or
/// after the first character when there is no `#`.
pub open spec fn note_split_at(u: Seq<char>) -> int {
    if u.contains('#') {
        first_hash(u) + 1
    } else {
        1
    }
}

/// Whether a note number overflows `i32` while it is computed as
/// `(octave + 1) * 12 + offset`.
pub open spec fn note_number_overflows(octave: int, offset: int) -> bool {
    !(i32::MIN <= octave + 1 <= i32::MAX) || !(i32::MIN <= (octave + 1) * 12 <= i32::MAX) || !(
    i32::MIN <= (octave + 1) * 12 + offset <= i32::MAX)
}

/// The MIDI note of an upper-case note name such as "C4", "C#4" or "A-1":
/// the part up to the first `#` (or the first character when there is none)
/// names the note and the rest is the octave; the note must lie in 0..=127.
pub open spec fn parse_note_text(u: Seq<char>) -> Option<u8> {
    let at = note_split_at(u);
    match (note_offset(u.take(at)), parse_i32_text(u.skip(at))) {
        (Some(off), Some(oct)) => {
            let n = (oct + 1) * 12 + off;
            if !note_number_overflows(oct as int, off) && 0 <= n <= 127 {
                Some(n as u8)
            } else {
                None
            }
        },
        _ => None,
    }
}

/// The text that `str::to_uppercase` gives back for a text.
pub uninterp spec fn uppercased(s: Seq<char>) -> Seq<char>;

/// Whether a character has Unicode's White_Space property: tab through
/// carriage return, space, next line, no-break space, ogham space mark, the
/// spaces from en quad to hair space, the line and paragraph separators, the
/// narrow no-break space, the medium mathematical space and the ideographic
/// space.
pub open spec fn is_white_space(c: char) -> bool {
    let n = c as u32;
    ||| 0x09 <= n <= 0x0D
    ||| n == 0x20 || n == 0x85 || n == 0xA0 || n == 0x1680
    ||| 0x2000 <= n <= 0x200A
    ||| n == 0x2028 || n == 0x2029 || n == 0x202F || n == 0x205F || n == 0x3000
}

/// A text without the white space at its start.
pub open spec fn trim_start_text(s: Seq<char>) -> Seq<char>
    decreases s.len(),
{
    if s.len() > 0 && is_white_space(s[0]) {
        trim_start_text(s.drop_first())
    } else {
        s
    }
}

/// A text without the white space at its end.
pub open spec fn trim_end_text(s: Seq<char>) -> Seq<char>
    decreases s.len(),
{
    if s.len() > 0 && is_white_space(s.last()) {
        trim_end_text(s.drop_last())
    } else {
        s
    }
}

/// A text without the white space at either end.
pub open spec fn trim_text(s: Seq<char>) -> Seq<char> {
    trim_end_text(trim_start_text(s))
}

/// Whether every character of a text is ASCII.
pub open spec fn all_ascii(s: Seq<char>) -> bool {
    forall|i: int| 0 <= i < s.len() ==> is_ascii_char(#[trigger] s[i])
}

/// The upper-case form of an ASCII character.
pub open spec fn ascii_upper(c: char) -> char {
    if 'a' <= c && c <= 'z' {
        ((c as int) - 32) as char
    } else {
        c
    }
}

/// Trimming either end of an ASCII text leaves an ASCII text.
proof fn lemma_trim_ends_keep_ascii(s: Seq<char>)
    requires
        all_ascii(s),
    ensures
        all_ascii(trim_start_text(s)),
        all_ascii(trim_end_text(s)),
    decreases s.len(),
{
    if s.len() > 0 {
        assert(all_ascii(s.drop_first())) by {
            assert forall|i: int| 0 <= i < s.drop_first().len() implies is_ascii_char(
                #[trigger] s.drop_first()[i],
            ) by {
                assert(s.drop_first()[i] == s[i + 1]);
            }
        }
        assert(all_ascii(s.drop_last())) by {
            assert forall|i: int| 0 <= i < s.drop_last().len() implies is_ascii_char(
                #[trigger] s.drop_last()[i],
            ) by {
                assert(s.drop_last()[i] == s[i]);
            }
        }
        lemma_trim_ends_keep_ascii(s.drop_first());
        lemma_trim_ends_keep_ascii(s.drop_last());
    }
}

/// Trimming an ASCII text leaves an ASCII text.
proof fn lemma_trim_keeps_ascii(s: Seq<char>)
    requires
        all_ascii(s),
    ensures
        all_ascii(trim_text(s)),
{
    lemma_trim_ends_keep_ascii(s);
    lemma_trim_ends_keep_ascii(trim_start_text(s));
}

/// Removing the white space at the start of a text leaves it from the first
/// character that is not white space.
proof fn lemma_trim_start_skips(s: Seq<char>, a: int)
    requires
        0 <= a <= s.len(),
        forall|j: int| 0 <= j < a ==> is_white_space(#[trigger] s[j]),
        a == s.len() || !is_white_space(s[a]),
    ensures
        trim_start_text(s) == s.skip(a),
    decreases a,
{
    if a == 0 {
        assert(s.skip(0) =~= s);
    } else {
        assert(is_white_space(s[0]));
        let t = s.drop_first();
        assert forall|j: int| 0 <= j < a - 1 implies is_white_space(#[trigger] t[j]) by {
            assert(t[j] == s[j + 1]);
        }
        lemma_trim_start_skips(t, a - 1);
        assert(t.skip(a - 1) =~= s.skip(a));
    }
}

/// Removing the white space at the end of a text leaves it up to the last
/// character that is not white space.
proof fn lemma_trim_end_takes(s: Seq<char>, b: int)
    requires
        0 <= b <= s.len(),
        forall|j: int| b <= j < s.len() ==> is_white_space(#[trigger] s[j]),
        b == 0 || !is_white_space(s[b - 1]),
    ensures
        trim_end_text(s) == s.take(b),
    decreases s.len() - b,
{
    if b == s.len() {
        assert(s.take(b) =~= s);
    } else {
        assert(is_white_space(s.last()));
        let t = s.drop_last();
        assert forall|j: int| b <= j < t.len() implies is_white_space(#[trigger] t[j]) by {
            assert(t[j] == s[j]);
        }
        lemma_trim_end_takes(t, b);
        assert(t.take(b) =~= s.take(b));
    }
}

/// Whether a character has Unicode's White_Space property.
fn white_space(c: char) -> (r: bool)
    ensures
        r == is_white_space(c),
{
    let n = c as u32;
    (0x09 <= n && n <= 0x0D) || n == 0x20 || n == 0x85 || n == 0xA0 || n == 0x1680 || (0x2000
        <= n && n <= 0x200A) || n == 0x2028 || n == 0x2029 || n == 0x202F || n == 0x205F || n
        == 0x3000
}

/// A text without the white space (Unicode's White_Space) at either end, as
/// `str::trim` gives it.
fn str_trim(s: &str) -> (r: &str)
    ensures
        r@ == trim_text(s@),
{
    let n = s.unicode_len();
    let mut a: usize = 0;
    while a < n && white_space(s.get_char(a))
        invariant
            n == s@.len(),
            a <= n,
            forall|j: int| 0 <= j < a ==> is_white_space(#[trigger] s@[j]),
        decreases n - a,
    {
        a = a + 1;
    }
    let mut b: usize = n;
    while b > a && white_space(s.get_char(b - 1))
        invariant
            n == s@.len(),
            a <= b <= n,
            forall|j: int| b <= j < n ==> is_white_space(#[trigger] s@[j]),
        decreases b,
    {
        b = b - 1;
    }
    proof {
        lemma_trim_start_skips(s@, a as int);
        let t = s@.skip(a as int);
        assert forall|j: int| b - a <= j < t.len() implies is_white_space(#[trigger] t[j]) by {
            assert(t[j] == s@[j + a]);
        }
        if b > a {
            assert(t[b - a - 1] == s@[b - 1]);
        }
        lemma_trim_end_takes(t, (b - a) as int);
        assert(t.take((b - a) as int) =~= s@.subrange(a as int, b as int));
    }
    s.substring_char(a, b)
}

/// Calls `str::to_uppercase`. Stated: the result is a function of the text;
/// for an ASCII text it maps each of `a`..=`z` to `A`..=`Z` and keeps every
/// other character. The mapping of other characters is left unstated.
#[verifier::external_body]
fn str_to_uppercase(s: &str) -> (r: String)
    ensures
        r@ == uppercased(s@),
        all_ascii(s@) ==> r@ == s@.map_values(|c: char| ascii_upper(c)),
{
    s.to_uppercase()
}

/// The exponential response curve: the nearest integer to 127·e^((v−127)/127)
/// for a velocity `v` up to 127 (larger velocities give 127).
pub open spec fn exp_curve(v: u8) -> u8 {
    match v {
        0 => 47,
        1 => 47,
        2 => 47,
        3 => 48,
        4 => 48,
        5 => 49,
        6 => 49,
        7 => 49,
        8 => 50,
        9 => 50,
        10 => 51,
        11 => 51,
        12 => 51,
        13 => 52,
        14 => 52,
        15 => 53,
        16 => 53,
        17 => 53,
        18 => 54,
        19 => 54,
        20 => 55,
        21 => 55,
        22 => 56,
        23 => 56,
        24 => 56,
        25 => 57,
        26 => 57,
        27 => 58,
        28 => 58,
        29 => 59,
        30 => 59,
        31 => 60,
        32 => 60,
        33 => 61,
        34 => 61,
        35 => 62,
        36 => 62,
        37 => 63,
        38 => 63,
        39 => 64,
        40 => 64,
        41 => 65,
        42 => 65,
        43 => 66,
        44 => 66,
        45 => 67,
        46 => 67,
        47 => 68,
        48 => 68,
        49 => 69,
        50 => 69,
        51 => 70,
        52 => 70,
        53 => 71,
        54 => 71,
        55 => 72,
        56 => 73,
        57 => 73,
        58 => 74,
        59 => 74,
        60 => 75,
        61 => 76,
        62 => 76,
        63 => 77,
        64 => 77,
        65 => 78,
        66 => 79,
        67 => 79,
        68 => 80,
        69 => 80,
        70 => 81,
        71 => 82,
        72 => 82,
        73 => 83,
        74 => 84,
        75 => 84,
        76 => 85,
        77 => 86,
        78 => 86,
        79 => 87,
        80 => 88,
        81 => 88,
        82 => 89,
        83 => 90,
        84 => 91,
        85 => 91,
        86 => 92,
        87 => 93,
        88 => 93,
        89 => 94,
        90 => 95,
        91 => 96,
        92 => 96,
        93 => 97,
        94 => 98,
        95 => 99,
        96 => 99,
        97 => 100,
        98 => 101,
        99 => 102,
        100 => 103,
        101 => 103,
        102 => 104,
        103 => 105,
        104 => 106,
        105 => 107,
        106 => 108,
        107 => 108,
        108 => 109,
        109 => 110,
        110 => 111,
        111 => 112,
        112 => 113,
        113 => 114,
        114 => 115,
        115 => 116,
        116 => 116,
        117 => 117,
        118 => 118,
        119 => 119,
        120 => 120,
        121 => 121,
        122 => 122,
        123 => 123,
        124 => 124,
        125 => 125,
        126 => 126,
        127 => 127,
        _ => 127,
    }
}

/// The exponential response curve at a velocity.
fn exp_curve_value(v: u8) -> (r: u8)
    ensures
        r == exp_curve(v),
{
    match v {
        0 => 47,
        1 => 47,
        2 => 47,
        3 => 48,
        4 => 48,
        5 => 49,
        6 => 49,
        7 => 49,
        8 => 50,
        9 => 50,
        10 => 51,
        11 => 51,
        12 => 51,
        13 => 52,
        14 => 52,
        15 => 53,
        16 => 53,
        17 => 53,
        18 => 54,
        19 => 54,
        20 => 55,
        21 => 55,
        22 => 56,
        23 => 56,
        24 => 56,
        25 => 57,
        26 => 57,
        27 => 58,
        28 => 58,
        29 => 59,
        30 => 59,
        31 => 60,
        32 => 60,
        33 => 61,
        34 => 61,
        35 => 62,
        36 => 62,
        37 => 63,
        38 => 63,
        39 => 64,
        40 => 64,
        41 => 65,
        42 => 65,
        43 => 66,
        44 => 66,
        45 => 67,
        46 => 67,
        47 => 68,
        48 => 68,
        49 => 69,
        50 => 69,
        51 => 70,
        52 => 70,
        53 => 71,
        54 => 71,
        55 => 72,
        56 => 73,
        57 => 73,
        58 => 74,
        59 => 74,
        60 => 75,
        61 => 76,
        62 => 76,
        63 => 77,
        64 => 77,
        65 => 78,
        66 => 79,
        67 => 79,
        68 => 80,
        69 => 80,
        70 => 81,
        71 => 82,
        72 => 82,
        73 => 83,
        74 => 84,
        75 => 84,
        76 => 85,
        77 => 86,
        78 => 86,
        79 => 87,
        80 => 88,
        81 => 88,
        82 => 89,
        83 => 90,
        84 => 91,
        85 => 91,
        86 => 92,
        87 => 93,
        88 => 93,
        89 => 94,
        90 => 95,
        91 => 96,
        92 => 96,
        93 => 97,
        94 => 98,
        95 => 99,
        96 => 99,
        97 => 100,
        98 => 101,
        99 => 102,
        100 => 103,
        101 => 103,
        102 => 104,
        103 => 105,
        104 => 106,
        105 => 107,
        106 => 108,
        107 => 108,
        108 => 109,
        109 => 110,
        110 => 111,
        111 => 112,
        112 => 113,
        113 => 114,
        114 => 115,
        115 => 116,
        116 => 116,
        117 => 117,
        118 => 118,
        119 => 119,
        120 => 120,
        121 => 121,
        122 => 122,
        123 => 123,
        124 => 124,
        125 => 125,
        126 => 126,
        127 => 127,
        _ => 127,
    }
}
/// The nearest integer to a quotient of natural numbers (halves round up).
pub open spec fn round_div(a: nat, b: nat) -> nat
    recommends
        b > 0,
{
    (2 * a + b) / (2 * b)
}

/// Whether `k` is the integer nearest to the square root of `n`.
pub open spec fn nearest_sqrt(n: nat, k: nat) -> bool {
    (if k == 0 {
        n == 0
    } else {
        (2 * k - 1) * (2 * k - 1) <= 4 * n
    }) && 4 * n < (2 * k + 1) * (2 * k + 1)
}

/// Whether `r` is the curved velocity of `v`: the curve scaled to 0..=127,
/// rounded and clamped to 127.
pub open spec fn curved_velocity(v: u8, curve: VelocityCurve, r: u8) -> bool {
    match curve {
        VelocityCurve::Linear => r == (if v > 127 {
            127
        } else {
            v
        }),
        VelocityCurve::Soft => if r < 127 {
            nearest_sqrt((127 * v) as nat, r as nat)
        } else {
            253 * 253 <= 4 * 127 * v
        },
        VelocityCurve::Hard => r == (if round_div((v * v) as nat, 127) > 127 {
            127
        } else {
            round_div((v * v) as nat, 127)
        }),
        VelocityCurve::Exponential => r == exp_curve(v),
    }
}

/// Squares of numbers up to 181 stay small.
proof fn lemma_square_bound(k: u32)
    requires
        k <= 180,
    ensures
        (k + 1) * (k + 1) <= 181 * 181,
        (2 * k + 1) * (2 * k + 1) <= 361 * 361,
{
    assert((k + 1) * (k + 1) <= 181 * 181) by (nonlinear_arith)
        requires
            k <= 180,
    ;
    assert((2 * k + 1) * (2 * k + 1) <= 361 * 361) by (nonlinear_arith)
        requires
            k <= 180,
    ;
}

/// A number whose square is at most 127 · 255 is at most 180.
proof fn lemma_square_root_bound(k: u32, n: u32)
    requires
        k * k <= n,
        n <= 127 * 255,
    ensures
        k <= 180,
{
    assert(k <= 180) by (nonlinear_arith)
        requires
            k * k <= n,
            n <= 127 * 255,
    {
        if k > 180 {
            assert(k * k >= 181 * 181);
        }
    }
}

/// Rounding the integer square root: with `k*k <= n < (k+1)*(k+1)`, the
/// nearest integer to the square root is `k + 1` when `4n >= (2k+1)^2` and
/// `k` otherwise, and it exceeds 127 only when `4n >= 253^2`.
proof fn lemma_nearest_sqrt(n: nat, k: nat)
    requires
        k * k <= n < (k + 1) * (k + 1),
    ensures
        4 * n >= (2 * k + 1) * (2 * k + 1) ==> nearest_sqrt(n, k + 1),
        4 * n < (2 * k + 1) * (2 * k + 1) ==> nearest_sqrt(n, k),
        4 * n >= (2 * k + 1) * (2 * k + 1) && k + 1 >= 127 ==> 253 * 253 <= 4 * n,
        4 * n < (2 * k + 1) * (2 * k + 1) && k >= 127 ==> 253 * 253 <= 4 * n,
{
    assert(4 * n < (2 * k + 3) * (2 * k + 3)) by (nonlinear_arith)
        requires
            n < (k + 1) * (k + 1),
    ;
    assert(k > 0 ==> (2 * k - 1) * (2 * k - 1) <= 4 * n) by (nonlinear_arith)
        requires
            k * k <= n,
    ;
    assert(k == 0 ==> n == 0) by (nonlinear_arith)
        requires
            n < (k + 1) * (k + 1),
    ;
    assert(k >= 127 ==> 253 * 253 <= 4 * n) by (nonlinear_arith)
        requires
            k * k <= n,
    ;
    assert(k + 1 >= 127 && 4 * n >= (2 * k + 1) * (2 * k + 1) ==> 253 * 253 <= 4 * n) by (
    nonlinear_arith);
}

/// Nearest square roots keep the order of their numbers.
proof fn lemma_nearest_sqrt_ordered(n1: nat, k1: nat, n2: nat, k2: nat)
    requires
        nearest_sqrt(n1, k1),
        nearest_sqrt(n2, k2),
        n1 <= n2,
    ensures
        k1 <= k2,
{
    if k1 > k2 {
        assert((2 * k2 + 1) * (2 * k2 + 1) <= (2 * k1 - 1) * (2 * k1 - 1)) by (nonlinear_arith)
            requires
                k1 >= k2 + 1,
        ;
    }
}

/// The exponential curve never falls from one velocity to the next.
#[verifier::rlimit(50)]
proof fn lemma_exp_curve_step(v: u8)
    requires
        v < 255,
    ensures
        exp_curve(v) <= exp_curve((v + 1) as u8),
{
}

/// The exponential curve keeps the order of velocities.
proof fn lemma_exp_curve_ordered(v1: u8, v2: u8)
    requires
        v1 <= v2,
    ensures
        exp_curve(v1) <= exp_curve(v2),
    decreases v2 - v1,
{
    if v1 < v2 {
        lemma_exp_curve_step(v1);
        lemma_exp_curve_ordered((v1 + 1) as u8, v2);
    }
}

/// Every velocity curve keeps the order of velocities: a harder key press
/// never gives a softer note.
pub proof fn lemma_curve_monotone(curve: VelocityCurve, v1: u8, v2: u8, r1: u8, r2: u8)
    requires
        v1 <= v2,
        curved_velocity(v1, curve, r1),
        r1 <= 127,
        curved_velocity(v2, curve, r2),
        r2 <= 127,
    ensures
        r1 <= r2,
{
    match curve {
        VelocityCurve::Linear => {},
        VelocityCurve::Soft => {
            if r1 == 127 && r2 < 127 {
                assert(64009 <= 508 * v1 <= 508 * v2);
                assert(4 * (127 * v2) < (2 * r2 + 1) * (2 * r2 + 1));
                assert((2 * r2 + 1) * (2 * r2 + 1) <= 253 * 253) by (nonlinear_arith)
                    requires
                        r2 < 127,
                ;
            } else if r1 < 127 && r2 < 127 {
                lemma_nearest_sqrt_ordered((127 * v1) as nat, r1 as nat, (127 * v2) as nat, r2 as nat);
            }
        },
        VelocityCurve::Hard => {
            assert(v1 * v1 <= v2 * v2) by (nonlinear_arith)
                requires
                    v1 <= v2,
            ;
            let a1 = (v1 * v1) as nat;
            let a2 = (v2 * v2) as nat;
            assert(round_div(a1, 127) <= round_div(a2, 127)) by (nonlinear_arith)
                requires
                    a1 <= a2,
                    round_div(a1, 127) == (2 * a1 + 127) / 254,
                    round_div(a2, 127) == (2 * a2 + 127) / 254,
            ;
        },
        VelocityCurve::Exponential => {
            lemma_exp_curve_ordered(v1, v2);
        },
    }
}

/// For a MIDI velocity the hard curve gives no more than the velocity, and
/// the soft curve no less: Hard <= Linear <= Soft.
pub proof fn lemma_curves_ordered(v: u8, hard: u8, soft: u8)
    requires
        v <= 127,
        curved_velocity(v, VelocityCurve::Hard, hard),
        curved_velocity(v, VelocityCurve::Soft, soft),
        soft <= 127,
    ensures
        hard <= v <= soft,
        curved_velocity(v, VelocityCurve::Linear, v),
{
    let a = (v * v) as nat;
    assert(round_div(a, 127) <= v) by (nonlinear_arith)
        requires
            a == v * v,
            v <= 127,
            round_div(a, 127) == (2 * a + 127) / 254,
    ;
    if soft < 127 {
        assert(4 * (127 * v) < (2 * soft + 1) * (2 * soft + 1));
        assert(v <= soft) by (nonlinear_arith)
            requires
                v <= 127,
                4 * (127 * v) < (2 * soft + 1) * (2 * soft + 1),
        ;
    }
}

/// Every curve gives the full velocity 127 to a full key press.
pub proof fn lemma_curve_full_press(curve: VelocityCurve, r: u8)
    requires
        curved_velocity(127, curve, r),
        r <= 127,
    ensures
        r == 127,
{
    match curve {
        VelocityCurve::Linear => {},
        VelocityCurve::Soft => {
            if r < 127 {
                assert((2 * r + 1) * (2 * r + 1) <= 253 * 253) by (nonlinear_arith)
                    requires
                        r < 127,
                ;
            }
        },
        VelocityCurve::Hard => {
            assert((2 * 16129 + 127) / 254 == 127) by (nonlinear_arith);
        },
        VelocityCurve::Exponential => {},
    }
}

impl MidiNoteUtils {
    /// Whether a MIDI note is a black key on a piano.
    pub fn is_black_key(pitch: u8) -> (r: bool)
        ensures
            r == is_black_pitch_class((pitch % 12) as int),
    {
        let pc = pitch % 12;
        pc == 1 || pc == 3 || pc == 6 || pc == 8 || pc == 10
    }

    /// Whether a MIDI note is a white key on a piano.
    pub fn is_white_key(pitch: u8) -> (r: bool)
        ensures
            r == !is_black_pitch_class((pitch % 12) as int),
    {
        !Self::is_black_key(pitch)
    }
}

/// Append the decimal text of a number.
pub(crate) fn append_decimal(s: &mut String, n: u128)
    ensures
        final(s)@ == old(s)@ + nat_text(n as nat),
    decreases n,
{
    if n >= 10 {
        append_decimal(s, n / 10);
    }
    let d: u8 = (n % 10) as u8;
    s.append(digit_text(d));
    proof {
        if n >= 10 {
            assert(nat_text(n as nat) == nat_text((n / 10) as nat).push(digit_char((n % 10) as int)));
        }
    }
    assert(final(s)@ =~= old(s)@ + nat_text(n as nat));
}

/// The one-character text of a decimal digit.
fn digit_text(d: u8) -> (r: &'static str)
    requires
        d < 10,
    ensures
        r@ == seq![digit_char(d as int)],
{
    match d {
        0 => {
            proof {
                reveal_strlit("0");
                assert("0"@ =~= seq![digit_char(0)]);
            }
            "0"
        },
        1 => {
            proof {
                reveal_strlit("1");
                assert("1"@ =~= seq![digit_char(1)]);
            }
            "1"
        },
        2 => {
            proof {
                reveal_strlit("2");
                assert("2"@ =~= seq![digit_char(2)]);
            }
            "2"
        },
        3 => {
            proof {
                reveal_strlit("3");
                assert("3"@ =~= seq![digit_char(3)]);
            }
            "3"
        },
        4 => {
            proof {
                reveal_strlit("4");
                assert("4"@ =~= seq![digit_char(4)]);
            }
            "4"
        },
        5 => {
            proof {
                reveal_strlit("5");
                assert("5"@ =~= seq![digit_char(5)]);
            }
            "5"
        },
        6 => {
            proof {
                reveal_strlit("6");
                assert("6"@ =~= seq![digit_char(6)]);
            }
            "6"
        },
        7 => {
            proof {
                reveal_strlit("7");
                assert("7"@ =~= seq![digit_char(7)]);
            }
            "7"
        },
        8 => {
            proof {
                reveal_strlit("8");
                assert("8"@ =~= seq![digit_char(8)]);
            }
            "8"
        },
        _ => {
            proof {
                reveal_strlit("9");
                assert("9"@ =~= seq![digit_char(9)]);
            }
            "9"
        },
    }
}

/// The text of a pitch class name.
fn note_text(pc: u8) -> (r: &'static str)
    requires
        pc < 12,
    ensures
        r@ == note_name(pc as int),
{
    match pc {
        0 => {
            proof {
                reveal_strlit("C");
                assert("C"@ =~= seq!['C']);
            }
            "C"
        },
        1 => {
            proof {
                reveal_strlit("C#");
                assert("C#"@ =~= seq!['C', '#']);
            }
            "C#"
        },
        2 => {
            proof {
                reveal_strlit("D");
                assert("D"@ =~= seq!['D']);
            }
            "D"
        },
        3 => {
            proof {
                reveal_strlit("D#");
                assert("D#"@ =~= seq!['D', '#']);
            }
            "D#"
        },
        4 => {
            proof {
                reveal_strlit("E");
                assert("E"@ =~= seq!['E']);
            }
            "E"
        },
        5 => {
            proof {
                reveal_strlit("F");
                assert("F"@ =~= seq!['F']);
            }
            "F"
        },
        6 => {
            proof {
                reveal_strlit("F#");
                assert("F#"@ =~= seq!['F', '#']);
            }
            "F#"
        },
        7 => {
            proof {
                reveal_strlit("G");
                assert("G"@ =~= seq!['G']);
            }
            "G"
        },
        8 => {
            proof {
                reveal_strlit("G#");
                assert("G#"@ =~= seq!['G', '#']);
            }
            "G#"
        },
        9 => {
            proof {
                reveal_strlit("A");
                assert("A"@ =~= seq!['A']);
            }
            "A"
        },
        10 => {
            proof {
                reveal_strlit("A#");
                assert("A#"@ =~= seq!['A', '#']);
            }
            "A#"
        },
        _ => {
            proof {
                reveal_strlit("B");
                assert("B"@ =~= seq!['B']);
            }
            "B"
        },
    }
}

/// The character at a position of a text.
fn char_at(s: &str, i: usize) -> (c: char)
    requires
        i < s@.len(),
    ensures
        c == s@[i as int],
{
    s.get_char(i)
}

/// The value of a decimal digit character, if it is one.
fn digit_of(c: char) -> (r: Option<u8>)
    ensures
        r matches Some(d) ==> digit_value(c) == Some(d as int) && d < 10,
        r is None ==> digit_value(c) is None,
{
    if '0' <= c && c <= '9' {
        Some((c as u32 - '0' as u32) as u8)
    } else {
        None
    }
}

impl MidiNoteUtils {
    /// The name of a MIDI note (e.g. 60 -> "C4").
    pub fn to_name(pitch: u8) -> (r: String)
        ensures
            r@ == midi_note_name(pitch),
    {
        let mut s = String::from_str(note_text(pitch % 12));
        let q = pitch / 12;
        if q == 0 {
            proof {
                reveal_strlit("-1");
                assert("-1"@ =~= int_text(-1));
            }
            s.append("-1");
        } else {
            let o = q - 1;
            if o < 10 {
                s.append(digit_text(o));
                assert(int_text(q - 1) =~= seq![digit_char(o as int)]);
            } else {
                s.append(digit_text(o / 10));
                s.append(digit_text(o % 10));
                assert(nat_text((o / 10) as nat) == seq![digit_char((o / 10) as int)]);
                assert(int_text(q - 1) =~= seq![
                    digit_char((o / 10) as int),
                    digit_char((o % 10) as int),
                ]);
            }
        }
        s
    }

    /// Parse an upper-case note name (e.g. "C4" -> 60) on which splitting
    /// into note and octave succeeds.
    pub fn parse_note_name(u: &str) -> (r: Option<u8>)
        requires
            !note_split_fails(u@),
        ensures
            r == parse_note_text(u@),
    {
        let n = u.unicode_len();
        let mut hash: Option<usize> = None;
        let mut i: usize = 0;
        while i < n
            invariant
                n == u@.len(),
                i <= n,
                hash is None ==> forall|j: int| 0 <= j < i ==> u@[j] != '#',
                hash matches Some(h) ==> h < i && u@[h as int] == '#' && forall|j: int|
                    0 <= j < h ==> u@[j] != '#',
            decreases n - i,
        {
            if hash.is_none() && char_at(u, i) == '#' {
                hash = Some(i);
            }
            i = i + 1;
        }
        let at: usize = match hash {
            Some(h) => h + 1,
            None => 1,
        };
        proof {
            match hash {
                Some(h) => {
                    assert(u@.contains('#'));
                    let f = first_hash(u@);
                    assert(0 <= f < u@.len() && u@[f] == '#' && forall|j: int| 0 <= j < f ==> u@[j] != '#');
                    assert(f == h as int) by {
                        if f < h {
                            assert(u@[f] != '#');
                        }
                        if h < f {
                            assert(u@[h as int] != '#');
                        }
                    }
                },
                None => {
                    assert(!u@.contains('#'));
                },
            }
        }
        let offset = Self::note_offset_of(u, at);
        let octave = Self::parse_i32_from(u, at);
        match (offset, octave) {
            (Some(off), Some(oct)) => {
                let o1: i64 = oct as i64 + 1;
                let o12: i64 = o1 * 12;
                let num: i64 = o12 + off as i64;
                if o1 > i32::MAX as i64 || o12 < i32::MIN as i64 || o12 > i32::MAX as i64
                    || num > i32::MAX as i64 {
                    None
                } else if 0 <= num && num <= 127 {
                    Some(num as u8)
                } else {
                    None
                }
            },
            _ => None,
        }
    }

    /// The semitone offset of the note part `u@.take(at)`.
    fn note_offset_of(u: &str, at: usize) -> (r: Option<u8>)
        requires
            1 <= at <= u@.len(),
        ensures
            r matches Some(o) ==> note_offset(u@.take(at as int)) == Some(o as int),
            r is None ==> note_offset(u@.take(at as int)) is None,
    {
        let ghost np = u@.take(at as int);
        let c0 = char_at(u, 0);
        if at == 1 {
            assert(np =~= seq![c0]);
            if c0 == 'C' {
                Some(0)
            } else if c0 == 'D' {
                Some(2)
            } else if c0 == 'E' {
                Some(4)
            } else if c0 == 'F' {
                Some(5)
            } else if c0 == 'G' {
                Some(7)
            } else if c0 == 'A' {
                Some(9)
            } else if c0 == 'B' {
                Some(11)
            } else {
                None
            }
        } else if at == 2 {
            let c1 = char_at(u, 1);
            assert(np =~= seq![c0, c1]);
            if c1 == '#' || c1 == 'S' {
                if c0 == 'C' {
                    Some(1)
                } else if c0 == 'D' {
                    Some(3)
                } else if c0 == 'F' {
                    Some(6)
                } else if c0 == 'G' {
                    Some(8)
                } else if c0 == 'A' {
                    Some(10)
                } else {
                    None
                }
            } else {
                None
            }
        } else {
            assert(np.len() > 2);
            None
        }
    }

    /// Parse the text `u@.skip(at)` as an `i32` the way the standard
    /// library does.
    fn parse_i32_from(u: &str, at: usize) -> (r: Option<i32>)
        requires
            at <= u@.len(),
        ensures
            r == parse_i32_text(u@.skip(at as int)),
    {
        let n = u.unicode_len();
        let ghost t = u@.skip(at as int);
        let mut start = at;
        let mut neg = false;
        if at < n {
            let c = char_at(u, at);
            if c == '-' {
                neg = true;
                start = at + 1;
            } else if c == '+' {
                start = at + 1;
            }
        }
        let ghost ds = u@.skip(start as int);
        assert(ds =~= (if t.len() > 0 && (t[0] == '-' || t[0] == '+') {
            t.skip(1)
        } else {
            t
        }));
        assert(neg == (t.len() > 0 && t[0] == '-'));
        if start >= n {
            return None;
        }
        let bound: i64 = 2147483648;
        let mut acc: i64 = 0;
        let mut big = false;
        let mut i = start;
        while i < n
            invariant
                n == u@.len(),
                start <= i <= n,
                ds == u@.skip(start as int),
                all_digits(ds.take(i - start)),
                !big ==> acc == digits_value(ds.take(i - start)) && 0 <= acc <= bound,
                big ==> digits_value(ds.take(i - start)) > bound,
                bound == 2147483648,
                t == u@.skip(at as int),
                ds == (if t.len() > 0 && (t[0] == '-' || t[0] == '+') {
                    t.skip(1)
                } else {
                    t
                }),
                ds.len() > 0,
            decreases n - i,
        {
            let c = char_at(u, i);
            let ghost k = (i - start) as int;
            assert(ds.take(k + 1).drop_last() =~= ds.take(k));
            assert(ds.take(k + 1).last() == c);
            match digit_of(c) {
                None => {
                    assert(!all_digits(ds)) by {
                        assert(digit_value(ds[k]) is None);
                    }
                    return None;
                },
                Some(d) => {
                    assert(digit_value(ds.take(k + 1)[k]) is Some);
                    if !big {
                        let next = acc * 10 + d as i64;
                        if next > bound {
                            big = true;
                        } else {
                            acc = next;
                        }
                    }
                },
            }
            i = i + 1;
        }
        assert(ds.take(n - start) =~= ds);
        if big {
            None
        } else if neg {
            Some((-acc) as i32)
        } else if acc > i32::MAX as i64 {
            None
        } else {
            Some(acc as i32)
        }
    }

    /// Parse a note name (e.g. "C4" -> 60, "c#4" -> 61): white space at
    /// either end is removed and letters are made upper case first. On the
    /// texts where the note part cannot be split off (no `#` and the first
    /// character not ASCII, or nothing left), and where the note number
    /// overflows `i32`, it gives `None`.
    pub fn from_name(name: &str) -> (r: Option<u8>)
        ensures
            ({
                let u = uppercased(trim_text(name@));
                r == if note_split_fails(u) {
                    None
                } else {
                    parse_note_text(u)
                }
            }),
            all_ascii(name@) ==> ({
                let u = trim_text(name@).map_values(|c: char| ascii_upper(c));
                r == if note_split_fails(u) {
                    None
                } else {
                    parse_note_text(u)
                }
            }),
    {
        let t = str_trim(name);
        proof {
            if all_ascii(name@) {
                lemma_trim_keeps_ascii(name@);
            }
        }
        let upper = str_to_uppercase(t);
        let u = upper.as_str();
        let n = u.unicode_len();
        let mut has_hash = false;
        let mut i: usize = 0;
        while i < n
            invariant
                n == u@.len(),
                i <= n,
                has_hash == exists|j: int| 0 <= j < i && u@[j] == '#',
            decreases n - i,
        {
            if char_at(u, i) == '#' {
                has_hash = true;
            }
            i = i + 1;
        }
        proof {
            if has_hash {
                let j = choose|j: int| 0 <= j < i && u@[j] == '#';
                assert(u@.contains('#'));
            } else {
                assert(!u@.contains('#'));
            }
        }
        if !has_hash && (n == 0 || (char_at(u, 0) as u32) >= 128) {
            return None;
        }
        Self::parse_note_name(u)
    }
}

impl MidiVelocity {
    /// Apply a velocity curve (for different keyboard response).
    pub fn apply_curve(velocity: u8, curve_type: VelocityCurve) -> (r: u8)
        ensures
            curved_velocity(velocity, curve_type, r),
            r <= 127,
    {
        match curve_type {
            VelocityCurve::Linear => if velocity > 127 {
                127
            } else {
                velocity
            },
            VelocityCurve::Soft => {
                let n: u32 = 127 * velocity as u32;
                let mut k: u32 = 0;
                loop
                    invariant
                        n == 127 * velocity,
                        n <= 127 * 255,
                        k * k <= n,
                        k <= 180,
                    ensures
                        k * k <= n < (k + 1) * (k + 1),
                        k <= 180,
                        n == 127 * velocity,
                    decreases 181 - k,
                {
                    proof {
                        lemma_square_bound(k);
                    }
                    if (k + 1) * (k + 1) > n {
                        break;
                    }
                    proof {
                        lemma_square_root_bound((k + 1) as u32, n);
                    }
                    k = k + 1;
                }
                proof {
                    lemma_nearest_sqrt(n as nat, k as nat);
                    lemma_square_bound(k);
                }
                let rounded = if 4 * n >= (2 * k + 1) * (2 * k + 1) {
                    k + 1
                } else {
                    k
                };
                if rounded >= 127 {
                    assert(253 * 253 <= 4 * n);
                    assert(n == 127 * velocity);
                    assert(4 * n == 508 * (velocity as int));
                    127
                } else {
                    rounded as u8
                }
            },
            VelocityCurve::Hard => {
                let v = velocity as u32;
                assert(v * v <= 255 * 255) by (nonlinear_arith)
                    requires
                        v <= 255,
                ;
                let sq: u32 = v * v;
                let rounded: u32 = (2 * sq + 127) / 254;
                if rounded > 127 {
                    127
                } else {
                    rounded as u8
                }
            },
            VelocityCurve::Exponential => exp_curve_value(velocity),
        }
    }
}

/// The digit character of a digit has that digit as its value.
proof fn lemma_digit_char(d: int)
    requires
        0 <= d < 10,
    ensures
        digit_value(digit_char(d)) == Some(d),
        digit_char(d) != '#',
        digit_char(d) != '-',
        digit_char(d) != '+',
        is_ascii_char(digit_char(d)),
{
}

/// The decimal text of a natural number is a non-empty run of digits, with
/// that number as its value.
proof fn lemma_nat_text(n: nat)
    ensures
        nat_text(n).len() > 0,
        all_digits(nat_text(n)),
        digits_value(nat_text(n)) == n,
        !nat_text(n).contains('#'),
        nat_text(n)[0] != '-' && nat_text(n)[0] != '+',
    decreases n,
{
    if n < 10 {
        lemma_digit_char(n as int);
        assert(nat_text(n).drop_last() =~= Seq::<char>::empty());
        assert(digits_value(nat_text(n)) == digits_value(Seq::<char>::empty()) * 10 + n);
    } else {
        lemma_nat_text(n / 10);
        lemma_digit_char((n % 10) as int);
        let s = nat_text(n);
        assert(s.drop_last() =~= nat_text(n / 10));
        assert(digits_value(s) == digits_value(nat_text(n / 10)) * 10 + (n % 10));
        assert((n / 10) * 10 + n % 10 == n);
        assert forall|i: int| 0 <= i < s.len() implies (#[trigger] digit_value(s[i])) is Some by {
            if i < s.len() - 1 {
                assert(s[i] == nat_text(n / 10)[i]);
            }
        }
        assert(!s.contains('#')) by {
            if s.contains('#') {
                let i = choose|i: int| 0 <= i < s.len() && s[i] == '#';
                if i < s.len() - 1 {
                    assert(nat_text(n / 10)[i] == '#');
                }
            }
        }
    }
}

/// The decimal text of an `i32` parses back to it.
proof fn lemma_int_text_parses(o: int)
    requires
        i32::MIN <= o <= i32::MAX,
    ensures
        parse_i32_text(int_text(o)) == Some(o as i32),
        !int_text(o).contains('#'),
{
    let t = int_text(o);
    if o < 0 {
        lemma_nat_text((-o) as nat);
        let m = nat_text((-o) as nat);
        assert(t.skip(1) =~= m);
        assert(t[0] == '-');
        assert(!t.contains('#')) by {
            if t.contains('#') {
                let i = choose|i: int| 0 <= i < t.len() && t[i] == '#';
                assert(m[i - 1] == '#');
            }
        }
    } else {
        lemma_nat_text(o as nat);
    }
}

/// The name of every MIDI note up to 127 parses back to that note.
#[verifier::spinoff_prover]
pub proof fn lemma_note_name_round_trip(p: u8)
    requires
        p <= 127,
    ensures
        !note_split_fails(midi_note_name(p)),
        parse_note_text(midi_note_name(p)) == Some(p),
{
    let pc = (p % 12) as int;
    let o = p / 12 - 1;
    let nm = note_name(pc);
    let it = int_text(o);
    let s = midi_note_name(p);
    lemma_int_text_parses(o);
    assert(s == nm + it);
    if nm.len() == 2 {
        assert(s[1] == '#');
        assert(s.contains('#'));
        let f = first_hash(s);
        assert(f == 1) by {
            assert(s[0] != '#');
            if f > 1 {
                assert(s[1] != '#');
            }
        }
        assert(s.take(2) =~= nm);
        assert(s.skip(2) =~= it);
    } else {
        assert(!s.contains('#')) by {
            if s.contains('#') {
                let i = choose|i: int| 0 <= i < s.len() && s[i] == '#';
                if i > 0 {
                    assert(it[i - 1] == '#');
                }
            }
        }
        assert(s.take(1) =~= nm);
        assert(s.skip(1) =~= it);
    }
}


} // verus!
