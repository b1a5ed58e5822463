//! Byte-level text primitives shared by the procfs/sysfs parsers: ASCII
//! whitespace splitting, line splitting and integer parsing, each with the
//! meaning std gives the corresponding `str` operation.

use vstd::prelude::*;

verus! {

/// The bytes that `u8::is_ascii_whitespace` accepts.
pub open spec fn is_ws(b: u8) -> bool {
    b == 0x20u8 || b == 0x09u8 || b == 0x0au8 || b == 0x0cu8 || b == 0x0du8
}

/// The view of a sequence of byte slices.
pub open spec fn views(v: Seq<&[u8]>) -> Seq<Seq<u8>> {
    v.map_values(|x: &[u8]| x@)
}

/// A byte that separates words: ASCII whitespace or `c`.
pub open spec fn is_sep(b: u8, c: u8) -> bool {
    is_ws(b) || b == c
}

/// First index `j >= i` that is the end of `s` or holds a separator.
pub open spec fn token_end(s: Seq<u8>, i: int, c: u8) -> int
    decreases s.len() - i,
{
    if i >= s.len() || i < 0 || is_sep(s[i], c) {
        i
    } else {
        token_end(s, i + 1, c)
    }
}

pub proof fn lemma_token_end_bounds(s: Seq<u8>, i: int, c: u8)
    requires
        0 <= i <= s.len(),
    ensures
        i <= token_end(s, i, c) <= s.len(),
        i < s.len() && !is_sep(s[i], c) ==> i < token_end(s, i, c),
        forall|k: int| i <= k < token_end(s, i, c) ==> !is_sep(#[trigger] s[k], c),
        token_end(s, i, c) < s.len() ==> is_sep(s[token_end(s, i, c)], c),
    decreases s.len() - i,
{
    if i < s.len() && !is_sep(s[i], c) {
        lemma_token_end_bounds(s, i + 1, c);
    }
}

/// The words of `s[i..]`: the non-empty runs between separators.
pub open spec fn fields_from(s: Seq<u8>, i: int, c: u8) -> Seq<Seq<u8>>
    decreases s.len() - i,
{
    if i >= s.len() || i < 0 {
        Seq::empty()
    } else if is_sep(s[i], c) {
        fields_from(s, i + 1, c)
    } else {
        let e = token_end(s, i, c);
        proof {
            lemma_token_end_bounds(s, i, c);
        }
        seq![s.subrange(i, e)] + fields_from(s, e, c)
    }
}

/// The words of `s` between runs of ASCII whitespace and `c`, as
/// `s.split(|b| b.is_ascii_whitespace() || b == c).filter(|p| !p.is_empty())`
/// yields them.
pub open spec fn words(s: Seq<u8>, c: u8) -> Seq<Seq<u8>> {
    fields_from(s, 0, c)
}

/// The fields of `s` as `split_ascii_whitespace` yields them.
pub open spec fn fields(s: Seq<u8>) -> Seq<Seq<u8>> {
    words(s, 0x20u8)
}

/// Splits `s` at runs of ASCII whitespace and `c`, dropping empty pieces.
pub fn split_words(s: &[u8], c: u8) -> (res: Vec<&[u8]>)
    ensures
        views(res@) == words(s@, c),
{
    let mut res: Vec<&[u8]> = Vec::new();
    let mut i: usize = 0;
    while i < s.len()
        invariant
            i <= s@.len(),
            views(res@) + fields_from(s@, i as int, c) == words(s@, c),
        decreases s@.len() - i,
    {
        if is_ascii_ws(s[i]) || s[i] == c {
            i = i + 1;
        } else {
            let mut j: usize = i;
            while j < s.len() && !is_ascii_ws(s[j]) && s[j] != c
                invariant
                    i <= j <= s@.len(),
                    token_end(s@, i as int, c) == token_end(s@, j as int, c),
                decreases s@.len() - j,
            {
                j = j + 1;
            }
            proof {
                lemma_token_end_bounds(s@, i as int, c);
            }
            let piece = &s[i..j];
            let ghost before = res@;
            res.push(piece);
            proof {
                assert(views(res@) =~= views(before).push(s@.subrange(i as int, j as int)));
                assert(fields_from(s@, i as int, c) == seq![s@.subrange(i as int, j as int)]
                    + fields_from(s@, j as int, c));
                assert(views(before) + fields_from(s@, i as int, c) =~= views(res@) + fields_from(
                    s@,
                    j as int,
                    c,
                ));
            }
            i = j;
        }
    }
    proof {
        assert(views(res@) + fields_from(s@, i as int, c) =~= views(res@));
    }
    res
}

/// Splits `s` at runs of ASCII whitespace, dropping empty pieces.
pub fn split_ascii_ws(s: &[u8]) -> (res: Vec<&[u8]>)
    ensures
        views(res@) == fields(s@),
{
    split_words(s, 0x20u8)
}

/// First index `j >= i` that is the end of `s` or holds `b'\n'`.
pub open spec fn line_end(s: Seq<u8>, i: int) -> int
    decreases s.len() - i,
{
    if i >= s.len() || i < 0 || s[i] == 0x0au8 {
        i
    } else {
        line_end(s, i + 1)
    }
}

pub proof fn lemma_line_end_bounds(s: Seq<u8>, i: int)
    requires
        0 <= i <= s.len(),
    ensures
        i <= line_end(s, i) <= s.len(),
        forall|k: int| i <= k < line_end(s, i) ==> #[trigger] s[k] != 0x0au8,
        line_end(s, i) < s.len() ==> s[line_end(s, i)] == 0x0au8,
    decreases s.len() - i,
{
    if i < s.len() && s[i] != 0x0au8 {
        lemma_line_end_bounds(s, i + 1);
    }
}

/// The line that starts at `i` and ends before `e`: a `b'\r'` right before
/// the `b'\n'` that ends it is not part of it.
pub open spec fn line_at(s: Seq<u8>, i: int, e: int) -> Seq<u8> {
    if e < s.len() && e > i && s[e - 1] == 0x0du8 {
        s.subrange(i, e - 1)
    } else {
        s.subrange(i, e)
    }
}

/// The lines of `s[i..]` as `str::lines` yields them.
pub open spec fn lines_from(s: Seq<u8>, i: int) -> Seq<Seq<u8>>
    decreases s.len() - i,
{
    if i >= s.len() || i < 0 {
        Seq::empty()
    } else {
        let e = line_end(s, i);
        proof {
            lemma_line_end_bounds(s, i);
        }
        if e >= s.len() {
            seq![line_at(s, i, e)]
        } else {
            seq![line_at(s, i, e)] + lines_from(s, e + 1)
        }
    }
}

/// The lines of `s` as `str::lines` yields them.
pub open spec fn lines(s: Seq<u8>) -> Seq<Seq<u8>> {
    lines_from(s, 0)
}

/// Splits `s` into lines as `str::lines` does.
pub fn split_lines(s: &[u8]) -> (res: Vec<&[u8]>)
    ensures
        views(res@) == lines(s@),
{
    let mut res: Vec<&[u8]> = Vec::new();
    let mut i: usize = 0;
    while i < s.len()
        invariant
            i <= s@.len(),
            views(res@) + lines_from(s@, i as int) == lines(s@),
        decreases s@.len() - i,
    {
        let mut j: usize = i;
        while j < s.len() && s[j] != 0x0au8
            invariant
                i <= j <= s@.len(),
                line_end(s@, i as int) == line_end(s@, j as int),
            decreases s@.len() - j,
        {
            j = j + 1;
        }
        proof {
            lemma_line_end_bounds(s@, i as int);
        }
        let stop = if j < s.len() && j > i && s[j - 1] == 0x0du8 {
            j - 1
        } else {
            j
        };
        let piece = &s[i..stop];
        let ghost before = res@;
        res.push(piece);
        proof {
            assert(piece@ == line_at(s@, i as int, j as int));
            assert(views(res@) =~= views(before).push(line_at(s@, i as int, j as int)));
        }
        if j == s.len() {
            proof {
                assert(lines_from(s@, i as int) == seq![line_at(s@, i as int, j as int)]);
                assert(views(before) + lines_from(s@, i as int) =~= views(res@));
                assert(lines_from(s@, j as int) =~= Seq::<Seq<u8>>::empty());
            }
            i = j;
        } else {
            proof {
                assert(lines_from(s@, i as int) == seq![line_at(s@, i as int, j as int)]
                    + lines_from(s@, j + 1));
                assert(views(before) + lines_from(s@, i as int) =~= views(res@) + lines_from(
                    s@,
                    j + 1,
                ));
            }
            i = j + 1;
        }
    }
    proof {
        assert(views(res@) + lines_from(s@, i as int) =~= views(res@));
    }
    res
}

/// The value of a digit byte in the given radix (10 or 16).
pub open spec fn digit_value(b: u8, radix: nat) -> Option<nat> {
    if 0x30u8 <= b <= 0x39u8 && (b - 0x30u8) < radix {
        Some((b - 0x30u8) as nat)
    } else if radix == 16 && 0x61u8 <= b <= 0x66u8 {
        Some((b - 0x61u8 + 10) as nat)
    } else if radix == 16 && 0x41u8 <= b <= 0x46u8 {
        Some((b - 0x41u8 + 10) as nat)
    } else {
        None
    }
}

/// Every byte of `s` is a digit in `radix`.
pub open spec fn all_digits(s: Seq<u8>, radix: nat) -> bool {
    forall|i: int| 0 <= i < s.len() ==> (#[trigger] digit_value(s[i], radix)) is Some
}

/// The number that the digits `s` spell in `radix`.
pub open spec fn digits_value(s: Seq<u8>, radix: nat) -> nat
    decreases s.len(),
{
    if s.len() == 0 {
        0
    } else {
        digits_value(s.drop_last(), radix) * radix + digit_value(s.last(), radix).unwrap_or(0)
    }
}

/// `s` without one leading `b'+'`.
pub open spec fn unsigned_body(s: Seq<u8>) -> Seq<u8> {
    if s.len() > 0 && s[0] == 0x2bu8 {
        s.drop_first()
    } else {
        s
    }
}

/// What `from_str_radix` of an unsigned type whose maximum is `max` gives:
/// an optional `b'+'`, then one or more digits whose value is at most `max`.
pub open spec fn parse_unsigned(s: Seq<u8>, radix: nat, max: nat) -> Option<nat> {
    let d = unsigned_body(s);
    if d.len() > 0 && all_digits(d, radix) && digits_value(d, radix) <= max {
        Some(digits_value(d, radix))
    } else {
        None
    }
}

/// What `from_str_radix` of a signed type with bounds `min..=max` gives:
/// an optional sign, then one or more digits whose signed value is in bounds.
pub open spec fn parse_signed(s: Seq<u8>, radix: nat, min: int, max: int) -> Option<int> {
    if s.len() > 0 && s[0] == 0x2du8 {
        let d = s.drop_first();
        if d.len() > 0 && all_digits(d, radix) && -(digits_value(d, radix) as int) >= min {
            Some(-(digits_value(d, radix) as int))
        } else {
            None
        }
    } else {
        let d = unsigned_body(s);
        if d.len() > 0 && all_digits(d, radix) && digits_value(d, radix) <= max {
            Some(digits_value(d, radix) as int)
        } else {
            None
        }
    }
}

proof fn lemma_digits_value_take(s: Seq<u8>, radix: nat, i: int)
    requires
        0 <= i < s.len(),
    ensures
        digits_value(s.take(i + 1), radix) == digits_value(s.take(i), radix) * radix
            + digit_value(s[i], radix).unwrap_or(0),
{
    assert(s.take(i + 1).drop_last() =~= s.take(i));
}

proof fn lemma_digits_value_mono(s: Seq<u8>, radix: nat, i: int, j: int)
    requires
        0 <= i <= j <= s.len(),
        radix >= 1,
    ensures
        digits_value(s.take(i), radix) <= digits_value(s.take(j), radix),
    decreases j - i,
{
    if i < j {
        lemma_digits_value_mono(s, radix, i, j - 1);
        lemma_digits_value_take(s, radix, j - 1);
        let v = digits_value(s.take(j - 1), radix);
        assert(v * radix >= v) by (nonlinear_arith)
            requires
                radix >= 1,
        ;
    }
}

fn digit_of(b: u8, radix: u64) -> (r: Option<u64>)
    requires
        radix == 10 || radix == 16,
    ensures
        r matches Some(v) ==> digit_value(b, radix as nat) == Some(v as nat) && v < radix,
        r is None ==> digit_value(b, radix as nat) is None,
{
    if 0x30u8 <= b && b <= 0x39u8 && ((b - 0x30u8) as u64) < radix {
        Some((b - 0x30u8) as u64)
    } else if radix == 16 && 0x61u8 <= b && b <= 0x66u8 {
        Some((b - 0x61u8 + 10) as u64)
    } else if radix == 16 && 0x41u8 <= b && b <= 0x46u8 {
        Some((b - 0x41u8 + 10) as u64)
    } else {
        None
    }
}

/// The value of the digits `d` in `radix`, when every byte is a digit and
/// the value is at most `limit`.
fn digits_to_u64(d: &[u8], radix: u64, limit: u64) -> (r: Option<u64>)
    requires
        radix == 10 || radix == 16,
    ensures
        r matches Some(v) ==> all_digits(d@, radix as nat) && v as nat == digits_value(
            d@,
            radix as nat,
        ) && v <= limit,
        r is None ==> !all_digits(d@, radix as nat) || digits_value(d@, radix as nat) > limit,
{
    let mut acc: u64 = 0;
    let mut i: usize = 0;
    while i < d.len()
        invariant
            i <= d@.len(),
            radix == 10 || radix == 16,
            acc as nat == digits_value(d@.take(i as int), radix as nat),
            acc <= limit,
            forall|k: int| 0 <= k < i ==> (#[trigger] digit_value(d@[k], radix as nat)) is Some,
        decreases d@.len() - i,
    {
        proof {
            lemma_digits_value_take(d@, radix as nat, i as int);
        }
        let digit = match digit_of(d[i], radix) {
            Some(v) => v,
            None => {
                return None;
            },
        };
        if digit > limit {
            proof {
                lemma_digits_value_mono(d@, radix as nat, i as int + 1, d@.len() as int);
                assert(d@.take(d@.len() as int) =~= d@);
                assert(acc * radix + digit > limit) by (nonlinear_arith)
                    requires
                        digit > limit,
                        radix > 0,
                ;
            }
            return None;
        }
        let room: u64 = (limit - digit) / radix;
        if acc > room {
            proof {
                let a = acc as int;
                let r = radix as int;
                let m = (limit - digit) as int;
                assert(a * r > m) by (nonlinear_arith)
                    requires
                        a > m / r,
                        r > 0,
                        m >= 0,
                ;
                lemma_digits_value_mono(d@, radix as nat, i as int + 1, d@.len() as int);
                assert(d@.take(d@.len() as int) =~= d@);
            }
            return None;
        }
        proof {
            let a = acc as int;
            let r = radix as int;
            let m = (limit - digit) as int;
            assert(a * r <= m) by (nonlinear_arith)
                requires
                    a <= m / r,
                    r > 0,
                    m >= 0,
            ;
        }
        acc = acc * radix + digit;
        i = i + 1;
    }
    proof {
        assert(d@.take(i as int) =~= d@);
    }
    Some(acc)
}


/// `s` read as a decimal `u64`, as `str::parse::<u64>` reads it.
pub open spec fn dec_u64(s: Seq<u8>) -> Option<u64> {
    match parse_unsigned(s, 10, u64::MAX as nat) {
        Some(v) => Some(v as u64),
        None => None,
    }
}

/// `str::parse::<u16>`.
pub open spec fn dec_u16(s: Seq<u8>) -> Option<u16> {
    match parse_unsigned(s, 10, u16::MAX as nat) {
        Some(v) => Some(v as u16),
        None => None,
    }
}

/// `s` read as a decimal `u32`.
pub open spec fn dec_u32(s: Seq<u8>) -> Option<u32> {
    match parse_unsigned(s, 10, u32::MAX as nat) {
        Some(v) => Some(v as u32),
        None => None,
    }
}

/// `s` read as a decimal `usize`.
pub open spec fn dec_usize(s: Seq<u8>) -> Option<usize> {
    match parse_unsigned(s, 10, usize::MAX as nat) {
        Some(v) => Some(v as usize),
        None => None,
    }
}

/// `s` read as a hexadecimal `u32`, as `u32::from_str_radix(s, 16)` reads it.
pub open spec fn hex_u32(s: Seq<u8>) -> Option<u32> {
    match parse_unsigned(s, 16, u32::MAX as nat) {
        Some(v) => Some(v as u32),
        None => None,
    }
}

/// `s` read as a hexadecimal `u64`.
pub open spec fn hex_u64(s: Seq<u8>) -> Option<u64> {
    match parse_unsigned(s, 16, u64::MAX as nat) {
        Some(v) => Some(v as u64),
        None => None,
    }
}

/// `s` read as a decimal `i64`.
pub open spec fn dec_i64(s: Seq<u8>) -> Option<i64> {
    match parse_signed(s, 10, i64::MIN as int, i64::MAX as int) {
        Some(v) => Some(v as i64),
        None => None,
    }
}

/// `s` read as a decimal `i32`.
pub open spec fn dec_i32(s: Seq<u8>) -> Option<i32> {
    match parse_signed(s, 10, i32::MIN as int, i32::MAX as int) {
        Some(v) => Some(v as i32),
        None => None,
    }
}

/// `s` read as a hexadecimal `i32`, as `i32::from_str_radix(s, 16)` reads it.
pub open spec fn hex_i32(s: Seq<u8>) -> Option<i32> {
    match parse_signed(s, 16, i32::MIN as int, i32::MAX as int) {
        Some(v) => Some(v as i32),
        None => None,
    }
}

fn parse_unsigned_exec(s: &[u8], radix: u64, max: u64) -> (r: Option<u64>)
    requires
        radix == 10 || radix == 16,
    ensures
        r matches Some(v) ==> parse_unsigned(s@, radix as nat, max as nat) == Some(v as nat),
        r is None ==> parse_unsigned(s@, radix as nat, max as nat) is None,
{
    let d = if s.len() > 0 && s[0] == 0x2bu8 {
        &s[1..s.len()]
    } else {
        s
    };
    proof {
        assert(d@ =~= unsigned_body(s@));
    }
    if d.len() == 0 {
        return None;
    }
    digits_to_u64(d, radix, max)
}

fn parse_signed_exec(s: &[u8], radix: u64, min: i64, max: i64) -> (r: Option<i64>)
    requires
        radix == 10 || radix == 16,
        min <= 0 <= max,
    ensures
        r matches Some(v) ==> parse_signed(s@, radix as nat, min as int, max as int) == Some(
            v as int,
        ),
        r is None ==> parse_signed(s@, radix as nat, min as int, max as int) is None,
{
    if s.len() > 0 && s[0] == 0x2du8 {
        let d = &s[1..s.len()];
        proof {
            assert(d@ =~= s@.drop_first());
        }
        if d.len() == 0 {
            return None;
        }
        let limit: u64 = if min == i64::MIN {
            0x8000_0000_0000_0000u64
        } else {
            (-min) as u64
        };
        match digits_to_u64(d, radix, limit) {
            Some(m) => {
                if m == 0x8000_0000_0000_0000u64 {
                    Some(i64::MIN)
                } else {
                    Some(-(m as i64))
                }
            },
            None => None,
        }
    } else {
        let d = if s.len() > 0 && s[0] == 0x2bu8 {
            &s[1..s.len()]
        } else {
            s
        };
        proof {
            assert(d@ =~= unsigned_body(s@));
        }
        if d.len() == 0 {
            return None;
        }
        match digits_to_u64(d, radix, max as u64) {
            Some(m) => Some(m as i64),
            None => None,
        }
    }
}

/// `str::parse::<u64>`.
pub fn parse_u64(s: &[u8]) -> (r: Option<u64>)
    ensures
        r == dec_u64(s@),
{
    match parse_unsigned_exec(s, 10, u64::MAX) {
        Some(v) => Some(v),
        None => None,
    }
}

/// `str::parse::<u16>`.
pub fn parse_u16(s: &[u8]) -> (r: Option<u16>)
    ensures
        r == dec_u16(s@),
{
    match parse_unsigned_exec(s, 10, u16::MAX as u64) {
        Some(v) => Some(v as u16),
        None => None,
    }
}

/// `str::parse::<u32>`.
pub fn parse_u32(s: &[u8]) -> (r: Option<u32>)
    ensures
        r == dec_u32(s@),
{
    match parse_unsigned_exec(s, 10, u32::MAX as u64) {
        Some(v) => Some(v as u32),
        None => None,
    }
}

/// `str::parse::<usize>`.
pub fn parse_usize(s: &[u8]) -> (r: Option<usize>)
    ensures
        r == dec_usize(s@),
{
    match parse_unsigned_exec(s, 10, usize::MAX as u64) {
        Some(v) => Some(v as usize),
        None => None,
    }
}

/// `u32::from_str_radix(s, 16)`.
pub fn parse_hex_u32(s: &[u8]) -> (r: Option<u32>)
    ensures
        r == hex_u32(s@),
{
    match parse_unsigned_exec(s, 16, u32::MAX as u64) {
        Some(v) => Some(v as u32),
        None => None,
    }
}

/// `u64::from_str_radix(s, 16)`.
pub fn parse_hex_u64(s: &[u8]) -> (r: Option<u64>)
    ensures
        r == hex_u64(s@),
{
    match parse_unsigned_exec(s, 16, u64::MAX) {
        Some(v) => Some(v),
        None => None,
    }
}

/// `str::parse::<i64>`.
pub fn parse_i64(s: &[u8]) -> (r: Option<i64>)
    ensures
        r == dec_i64(s@),
{
    match parse_signed_exec(s, 10, i64::MIN, i64::MAX) {
        Some(v) => Some(v),
        None => None,
    }
}

/// `str::parse::<i32>`.
pub fn parse_i32(s: &[u8]) -> (r: Option<i32>)
    ensures
        r == dec_i32(s@),
{
    match parse_signed_exec(s, 10, i32::MIN as i64, i32::MAX as i64) {
        Some(v) => Some(v as i32),
        None => None,
    }
}

/// `i32::from_str_radix(s, 16)`.
pub fn parse_hex_i32(s: &[u8]) -> (r: Option<i32>)
    ensures
        r == hex_i32(s@),
{
    match parse_signed_exec(s, 16, i32::MIN as i64, i32::MAX as i64) {
        Some(v) => Some(v as i32),
        None => None,
    }
}


/// `str::is_char_boundary` on the bytes of a string.
pub open spec fn char_boundary(s: Seq<u8>, i: int) -> bool {
    i == 0 || i == s.len() || (0 <= i < s.len() && (s[i] < 0x80u8 || s[i] >= 0xc0u8))
}

/// The first index `j >= i` of `s` that holds `a` or `b`, or `s.len()`.
pub open spec fn piece_end(s: Seq<u8>, i: int, a: u8, b: u8) -> int
    decreases s.len() - i,
{
    if i >= s.len() || i < 0 || s[i] == a || s[i] == b {
        i
    } else {
        piece_end(s, i + 1, a, b)
    }
}

pub proof fn lemma_piece_end_bounds(s: Seq<u8>, i: int, a: u8, b: u8)
    requires
        0 <= i <= s.len(),
    ensures
        i <= piece_end(s, i, a, b) <= s.len(),
        forall|k: int| i <= k < piece_end(s, i, a, b) ==> #[trigger] s[k] != a && s[k] != b,
        piece_end(s, i, a, b) < s.len() ==> (s[piece_end(s, i, a, b)] == a || s[piece_end(
            s,
            i,
            a,
            b,
        )] == b),
    decreases s.len() - i,
{
    if i < s.len() && s[i] != a && s[i] != b {
        lemma_piece_end_bounds(s, i + 1, a, b);
    }
}

/// The pieces of `s[i..]` between separators `a` or `b`, as `str::split`
/// yields them: empty pieces are kept, and there is one more piece than
/// separators.
pub open spec fn split_from(s: Seq<u8>, i: int, a: u8, b: u8) -> Seq<Seq<u8>>
    decreases s.len() - i,
{
    if i > s.len() || i < 0 {
        Seq::empty()
    } else {
        let e = piece_end(s, i, a, b);
        proof {
            lemma_piece_end_bounds(s, i, a, b);
        }
        if e >= s.len() {
            seq![s.subrange(i, s.len() as int)]
        } else {
            seq![s.subrange(i, e)] + split_from(s, e + 1, a, b)
        }
    }
}

/// `s.split([a, b])`; with `a == b` it is `s.split(a)`.
pub open spec fn split(s: Seq<u8>, a: u8, b: u8) -> Seq<Seq<u8>> {
    split_from(s, 0, a, b)
}

/// Splits `s` at every byte equal to `a` or `b`.
pub fn split_bytes(s: &[u8], a: u8, b: u8) -> (res: Vec<&[u8]>)
    ensures
        views(res@) == split(s@, a, b),
        res@.len() >= 1,
{
    let mut res: Vec<&[u8]> = Vec::new();
    let mut i: usize = 0;
    loop
        invariant
            i <= s@.len(),
            views(res@) + split_from(s@, i as int, a, b) == split(s@, a, b),
        decreases s@.len() - i,
    {
        let mut j: usize = i;
        while j < s.len() && s[j] != a && s[j] != b
            invariant
                i <= j <= s@.len(),
                piece_end(s@, i as int, a, b) == piece_end(s@, j as int, a, b),
            decreases s@.len() - j,
        {
            j = j + 1;
        }
        proof {
            lemma_piece_end_bounds(s@, i as int, a, b);
        }
        let ghost before = res@;
        res.push(&s[i..j]);
        if j == s.len() {
            proof {
                assert(split_from(s@, i as int, a, b) == seq![s@.subrange(i as int, j as int)]);
                assert(views(before) + split_from(s@, i as int, a, b) =~= views(res@));
            }
            return res;
        }
        proof {
            assert(split_from(s@, i as int, a, b) == seq![s@.subrange(i as int, j as int)]
                + split_from(s@, j + 1, a, b));
            assert(views(before) + split_from(s@, i as int, a, b) =~= views(res@) + split_from(
                s@,
                j + 1,
                a,
                b,
            ));
        }
        i = j + 1;
    }
}

/// The index of the first `c` in `s`, if any.
pub open spec fn first_index(s: Seq<u8>, c: u8) -> Option<int> {
    if piece_end(s, 0, c, c) < s.len() {
        Some(piece_end(s, 0, c, c))
    } else {
        None
    }
}

/// What `first_index` gives: the first index holding `c`, or none.
pub proof fn lemma_first_index(s: Seq<u8>, c: u8)
    ensures
        match first_index(s, c) {
            Some(i) => 0 <= i < s.len() && s[i] == c && forall|k: int| 0 <= k < i ==> s[k] != c,
            None => forall|k: int| 0 <= k < s.len() ==> s[k] != c,
        },
{
    lemma_piece_end_bounds(s, 0, c, c);
}

/// `<[u8]>::iter().position(|x| x == c)`.
pub fn find_byte(s: &[u8], c: u8) -> (r: Option<usize>)
    ensures
        match r {
            Some(i) => first_index(s@, c) == Some(i as int),
            None => first_index(s@, c) is None,
        },
        r matches Some(i) ==> i < s@.len() && s@[i as int] == c && forall|k: int|
            0 <= k < i ==> s@[k] != c,
        r is None ==> forall|k: int| 0 <= k < s@.len() ==> s@[k] != c,
{
    let mut j: usize = 0;
    while j < s.len() && s[j] != c
        invariant
            j <= s@.len(),
            piece_end(s@, 0, c, c) == piece_end(s@, j as int, c, c),
            forall|k: int| 0 <= k < j ==> s@[k] != c,
        decreases s@.len() - j,
    {
        j = j + 1;
    }
    proof {
        lemma_piece_end_bounds(s@, 0, c, c);
    }
    if j < s.len() {
        Some(j)
    } else {
        None
    }
}

/// `<[u8]>::iter().rposition(|x| x == c)`.
pub fn rfind_byte(s: &[u8], c: u8) -> (r: Option<usize>)
    ensures
        r matches Some(i) ==> i < s@.len() && s@[i as int] == c && forall|k: int|
            i < k < s@.len() ==> s@[k] != c,
        r is None ==> forall|k: int| 0 <= k < s@.len() ==> s@[k] != c,
{
    let mut j: usize = s.len();
    while j > 0
        invariant
            j <= s@.len(),
            forall|k: int| j <= k < s@.len() ==> s@[k] != c,
        decreases j,
    {
        if s[j - 1] == c {
            return Some(j - 1);
        }
        j = j - 1;
    }
    None
}

/// Byte-wise equality of two slices.
pub fn bytes_eq(a: &[u8], b: &[u8]) -> (r: bool)
    ensures
        r == (a@ == b@),
{
    if a.len() != b.len() {
        return false;
    }
    let mut i: usize = 0;
    while i < a.len()
        invariant
            i <= a@.len(),
            a@.len() == b@.len(),
            forall|k: int| 0 <= k < i ==> a@[k] == b@[k],
        decreases a@.len() - i,
    {
        if a[i] != b[i] {
            return false;
        }
        i = i + 1;
    }
    proof {
        assert(a@ =~= b@);
    }
    true
}

/// `s` starts with `p`.
pub open spec fn has_prefix(s: Seq<u8>, p: Seq<u8>) -> bool {
    p.len() <= s.len() && s.subrange(0, p.len() as int) == p
}

/// `<[u8]>::starts_with`.
pub fn starts_with(s: &[u8], p: &[u8]) -> (r: bool)
    ensures
        r == has_prefix(s@, p@),
{
    if p.len() > s.len() {
        return false;
    }
    let head = &s[0..p.len()];
    bytes_eq(head, p)
}

/// Whether `s` holds the bytes of the word `w`.
pub fn is_word(s: &[u8], w: &[u8]) -> (r: bool)
    ensures
        r == (s@ == w@),
{
    bytes_eq(s, w)
}

/// `u8::is_ascii_whitespace`.
pub fn is_ascii_ws(b: u8) -> (r: bool)
    ensures
        r == is_ws(b),
{
    b == 0x20u8 || b == 0x09u8 || b == 0x0au8 || b == 0x0cu8 || b == 0x0du8
}

/// `b` is one of `x`, `y` and `z`.
pub open spec fn in3(b: u8, x: u8, y: u8, z: u8) -> bool {
    b == x || b == y || b == z
}

/// The first index `j >= i` of `s` that holds none of `x`, `y`, `z`, or
/// `s.len()`.
pub open spec fn lead_end(s: Seq<u8>, i: int, x: u8, y: u8, z: u8) -> int
    decreases s.len() - i,
{
    if i >= s.len() || i < 0 || !in3(s[i], x, y, z) {
        i
    } else {
        lead_end(s, i + 1, x, y, z)
    }
}

/// The end of `s[..j]` once trailing `x`, `y` and `z` are dropped.
pub open spec fn trail_start(s: Seq<u8>, j: int, x: u8, y: u8, z: u8) -> int
    decreases j,
{
    if j <= 0 || j > s.len() {
        0
    } else if in3(s[j - 1], x, y, z) {
        trail_start(s, j - 1, x, y, z)
    } else {
        j
    }
}

proof fn lemma_lead_end(s: Seq<u8>, i: int, x: u8, y: u8, z: u8)
    requires
        0 <= i <= s.len(),
    ensures
        i <= lead_end(s, i, x, y, z) <= s.len(),
        lead_end(s, i, x, y, z) < s.len() ==> !in3(s[lead_end(s, i, x, y, z)], x, y, z),
    decreases s.len() - i,
{
    if i < s.len() && in3(s[i], x, y, z) {
        lemma_lead_end(s, i + 1, x, y, z);
    }
}

proof fn lemma_trail_start(s: Seq<u8>, j: int, a: int, x: u8, y: u8, z: u8)
    requires
        0 <= a < j <= s.len(),
        !in3(s[a], x, y, z),
    ensures
        a < trail_start(s, j, x, y, z) <= j,
    decreases j,
{
    if in3(s[j - 1], x, y, z) {
        lemma_trail_start(s, j - 1, a, x, y, z);
    }
}

/// `s.trim_matches([x, y, z])`: `s` without the `x`, `y` and `z` at either
/// end.
pub open spec fn trim3(s: Seq<u8>, x: u8, y: u8, z: u8) -> Seq<u8> {
    let a = lead_end(s, 0, x, y, z);
    if a >= s.len() {
        Seq::empty()
    } else {
        s.subrange(a, trail_start(s, s.len() as int, x, y, z))
    }
}

/// Strips the bytes `x`, `y` and `z` from both ends of `s`.
pub fn trim_bytes(s: &[u8], x: u8, y: u8, z: u8) -> (r: &[u8])
    ensures
        r@ == trim3(s@, x, y, z),
{
    let mut i: usize = 0;
    while i < s.len() && (s[i] == x || s[i] == y || s[i] == z)
        invariant
            i <= s@.len(),
            lead_end(s@, 0, x, y, z) == lead_end(s@, i as int, x, y, z),
        decreases s@.len() - i,
    {
        i = i + 1;
    }
    proof {
        lemma_lead_end(s@, i as int, x, y, z);
    }
    if i == s.len() {
        return &s[0..0];
    }
    let mut j: usize = s.len();
    while j > i + 1 && (s[j - 1] == x || s[j - 1] == y || s[j - 1] == z)
        invariant
            i < j <= s@.len(),
            !in3(s@[i as int], x, y, z),
            trail_start(s@, s@.len() as int, x, y, z) == trail_start(s@, j as int, x, y, z),
        decreases j,
    {
        j = j - 1;
    }
    proof {
        lemma_trail_start(s@, j as int, i as int, x, y, z);
    }
    &s[i..j]
}

/// An ASCII byte that `char::is_whitespace` accepts: tab to carriage return,
/// and space.
pub open spec fn is_char_ws_ascii(b: u8) -> bool {
    (0x09u8 <= b && b <= 0x0du8) || b == 0x20u8
}

/// The three-byte UTF-8 encodings of the characters that `char::is_whitespace`
/// accepts: U+1680, U+2000 to U+200A, U+2028, U+2029, U+202F, U+205F, U+3000.
pub open spec fn is_ws3(a: u8, b: u8, c: u8) -> bool {
    (a == 0xe1u8 && b == 0x9au8 && c == 0x80u8) || (a == 0xe2u8 && b == 0x80u8 && ((0x80u8 <= c
        && c <= 0x8au8) || c == 0xa8u8 || c == 0xa9u8 || c == 0xafu8)) || (a == 0xe2u8 && b
        == 0x81u8 && c == 0x9fu8) || (a == 0xe3u8 && b == 0x80u8 && c == 0x80u8)
}

/// The length of the whitespace character that starts at `i` in the UTF-8
/// text `s`, or 0 if none does.
pub open spec fn ws_len_at(s: Seq<u8>, i: int) -> int {
    if 0 <= i < s.len() && is_char_ws_ascii(s[i]) {
        1
    } else if 0 <= i && i + 1 < s.len() && s[i] == 0xc2u8 && (s[i + 1] == 0x85u8 || s[i + 1]
        == 0xa0u8) {
        2
    } else if 0 <= i && i + 2 < s.len() && is_ws3(s[i], s[i + 1], s[i + 2]) {
        3
    } else {
        0
    }
}

/// The length of the whitespace character that ends at `j` in the UTF-8
/// text `s`, or 0 if none does.
pub open spec fn ws_len_before(s: Seq<u8>, j: int) -> int {
    if 1 <= j <= s.len() && is_char_ws_ascii(s[j - 1]) {
        1
    } else if 2 <= j <= s.len() && s[j - 2] == 0xc2u8 && (s[j - 1] == 0x85u8 || s[j - 1]
        == 0xa0u8) {
        2
    } else if 3 <= j <= s.len() && is_ws3(s[j - 3], s[j - 2], s[j - 1]) {
        3
    } else {
        0
    }
}

/// The first index from `i` on where no whitespace character starts.
pub open spec fn ws_lead(s: Seq<u8>, i: int) -> int
    decreases s.len() - i,
{
    if 0 <= i < s.len() && ws_len_at(s, i) > 0 {
        ws_lead(s, i + ws_len_at(s, i))
    } else {
        i
    }
}

/// The end of `s[..j]` once the whitespace characters that end it, down to
/// `lo`, are dropped.
pub open spec fn ws_trail(s: Seq<u8>, j: int, lo: int) -> int
    decreases j,
{
    if j > lo && ws_len_before(s, j) > 0 && j - ws_len_before(s, j) >= lo {
        ws_trail(s, j - ws_len_before(s, j), lo)
    } else {
        j
    }
}

proof fn lemma_ws_lead(s: Seq<u8>, i: int)
    requires
        0 <= i <= s.len(),
    ensures
        i <= ws_lead(s, i) <= s.len(),
    decreases s.len() - i,
{
    if i < s.len() && ws_len_at(s, i) > 0 {
        lemma_ws_lead(s, i + ws_len_at(s, i));
    }
}

proof fn lemma_ws_trail(s: Seq<u8>, j: int, lo: int)
    requires
        0 <= lo <= j <= s.len(),
    ensures
        lo <= ws_trail(s, j, lo) <= j,
    decreases j,
{
    if j > lo && ws_len_before(s, j) > 0 && j - ws_len_before(s, j) >= lo {
        lemma_ws_trail(s, j - ws_len_before(s, j), lo);
    }
}

/// `str::trim` on the UTF-8 bytes of a string: the text without the
/// whitespace characters at either end.
pub open spec fn trim_ws(s: Seq<u8>) -> Seq<u8> {
    let a = ws_lead(s, 0);
    s.subrange(a, ws_trail(s, s.len() as int, a))
}

pub(crate) fn ws_len_at_exec(s: &[u8], i: usize) -> (r: usize)
    requires
        i <= s@.len(),
    ensures
        r == ws_len_at(s@, i as int),
        r <= s@.len() - i,
{
    let n = s.len();
    if i < n && ((0x09u8 <= s[i] && s[i] <= 0x0du8) || s[i] == 0x20u8) {
        1
    } else if i < n && n - i > 1 && s[i] == 0xc2u8 && (s[i + 1] == 0x85u8 || s[i + 1] == 0xa0u8) {
        2
    } else if i < n && n - i > 2 && ((s[i] == 0xe1u8 && s[i + 1] == 0x9au8 && s[i + 2] == 0x80u8) || (
    s[i] == 0xe2u8 && s[i + 1] == 0x80u8 && ((0x80u8 <= s[i + 2] && s[i + 2] <= 0x8au8) || s[i
        + 2] == 0xa8u8 || s[i + 2] == 0xa9u8 || s[i + 2] == 0xafu8)) || (s[i] == 0xe2u8 && s[i
        + 1] == 0x81u8 && s[i + 2] == 0x9fu8) || (s[i] == 0xe3u8 && s[i + 1] == 0x80u8 && s[i
        + 2] == 0x80u8)) {
        3
    } else {
        0
    }
}

fn ws_len_before_exec(s: &[u8], j: usize) -> (r: usize)
    requires
        j <= s@.len(),
    ensures
        r == ws_len_before(s@, j as int),
{
    if j >= 1 && ((0x09u8 <= s[j - 1] && s[j - 1] <= 0x0du8) || s[j - 1] == 0x20u8) {
        1
    } else if j >= 2 && s[j - 2] == 0xc2u8 && (s[j - 1] == 0x85u8 || s[j - 1] == 0xa0u8) {
        2
    } else if j >= 3 && ((s[j - 3] == 0xe1u8 && s[j - 2] == 0x9au8 && s[j - 1] == 0x80u8) || (
    s[j - 3] == 0xe2u8 && s[j - 2] == 0x80u8 && ((0x80u8 <= s[j - 1] && s[j - 1] <= 0x8au8)
        || s[j - 1] == 0xa8u8 || s[j - 1] == 0xa9u8 || s[j - 1] == 0xafu8)) || (s[j - 3]
        == 0xe2u8 && s[j - 2] == 0x81u8 && s[j - 1] == 0x9fu8) || (s[j - 3] == 0xe3u8 && s[j
        - 2] == 0x80u8 && s[j - 1] == 0x80u8)) {
        3
    } else {
        0
    }
}

/// `str::trim` on the bytes of a string.
pub fn trim_str_bytes(s: &[u8]) -> (r: &[u8])
    ensures
        r@ == trim_ws(s@),
{
    let mut i: usize = 0;
    loop
        invariant
            i <= s@.len(),
            ws_lead(s@, 0) == ws_lead(s@, i as int),
        ensures
            ws_len_at(s@, i as int) == 0,
        decreases s@.len() - i,
    {
        let k = ws_len_at_exec(s, i);
        if k == 0 {
            break;
        }
        assert(k <= s.len() - i);
        i = i + k;
    }
    assert(ws_lead(s@, i as int) == i);
    let mut j: usize = s.len();
    loop
        invariant
            i <= j <= s@.len(),
            ws_trail(s@, s@.len() as int, i as int) == ws_trail(s@, j as int, i as int),
        ensures
            i <= j <= s@.len(),
            ws_trail(s@, s@.len() as int, i as int) == ws_trail(s@, j as int, i as int),
            j == i || ws_len_before(s@, j as int) == 0 || j - ws_len_before(s@, j as int) < i,
        decreases j,
    {
        if j == i {
            break;
        }
        let k = ws_len_before_exec(s, j);
        if k == 0 || j - k < i {
            break;
        }
        j = j - k;
    }
    assert(ws_trail(s@, j as int, i as int) == j);
    &s[i..j]
}

/// `str::trim_end` on the UTF-8 bytes of a string: the text without the
/// whitespace characters at its end.
pub open spec fn trim_end_ws(s: Seq<u8>) -> Seq<u8> {
    s.subrange(0, ws_trail(s, s.len() as int, 0))
}

/// `str::trim_end` on the bytes of a string.
pub fn trim_end_str_bytes(s: &[u8]) -> (r: &[u8])
    ensures
        r@ == trim_end_ws(s@),
{
    let mut j: usize = s.len();
    loop
        invariant
            j <= s@.len(),
            ws_trail(s@, s@.len() as int, 0) == ws_trail(s@, j as int, 0),
        ensures
            j <= s@.len(),
            ws_trail(s@, s@.len() as int, 0) == ws_trail(s@, j as int, 0),
            j == 0 || ws_len_before(s@, j as int) == 0 || j < ws_len_before(s@, j as int),
        decreases j,
    {
        if j == 0 {
            break;
        }
        let k = ws_len_before_exec(s, j);
        if k == 0 || j < k {
            break;
        }
        j = j - k;
    }
    assert(ws_trail(s@, j as int, 0) == j);
    &s[0..j]
}

/// `p` occurs in `s` at `i`.
pub open spec fn occurs_at(s: Seq<u8>, p: Seq<u8>, i: int) -> bool {
    0 <= i && i + p.len() <= s.len() && s.subrange(i, i + p.len()) == p
}

/// The first index from `i` on where `p` occurs in `s`.
pub open spec fn find_from(s: Seq<u8>, p: Seq<u8>, i: int) -> Option<int>
    decreases s.len() + 1 - i,
{
    if i < 0 || i + p.len() > s.len() {
        None
    } else if occurs_at(s, p, i) {
        Some(i)
    } else {
        find_from(s, p, i + 1)
    }
}

/// `str::find` with a string pattern, on bytes: the first index where `p`
/// occurs in `s`.
pub fn find_bytes(s: &[u8], p: &[u8]) -> (r: Option<usize>)
    ensures
        match r {
            Some(i) => find_from(s@, p@, 0) == Some(i as int) && i + p@.len() <= s@.len(),
            None => find_from(s@, p@, 0) is None,
        },
{
    if p.len() > s.len() {
        return None;
    }
    let last = s.len() - p.len();
    let mut i: usize = 0;
    loop
        invariant
            last == s@.len() - p@.len(),
            i <= last,
            find_from(s@, p@, 0) == find_from(s@, p@, i as int),
        ensures
            i == last,
            !occurs_at(s@, p@, i as int),
        decreases last - i,
    {
        let piece = &s[i..s.len() - (last - i)];
        assert(piece@ =~= s@.subrange(i as int, i + p@.len()));
        if bytes_eq(piece, p) {
            return Some(i);
        }
        if i == last {
            break;
        }
        i = i + 1;
    }
    assert(find_from(s@, p@, i + 1) is None);
    None
}

/// The decimal digits of `n`, as `n.to_string()` writes them.
pub open spec fn dec_text(n: nat) -> Seq<u8>
    decreases n,
{
    if n < 10 {
        seq![(0x30 + n) as u8]
    } else {
        dec_text(n / 10).push((0x30 + n % 10) as u8)
    }
}

/// The digits of `n` are one or more decimal digits, none of them a sign
/// or a line end, and they read back as `n`.
pub proof fn lemma_dec_text(n: nat)
    ensures
        dec_text(n).len() > 0,
        all_digits(dec_text(n), 10),
        forall|i: int| 0 <= i < dec_text(n).len() ==> 0x30 <= #[trigger] dec_text(n)[i] <= 0x39,
        digits_value(dec_text(n), 10) == n,
        unsigned_body(dec_text(n)) == dec_text(n),
    decreases n,
{
    let s = dec_text(n);
    if n < 10 {
        assert(s.drop_last() =~= Seq::<u8>::empty());
        assert(digit_value(s.last(), 10) == Some(n));
        assert(digits_value(s, 10) == digits_value(s.drop_last(), 10) * 10 + n);
    } else {
        lemma_dec_text(n / 10);
        assert(s.drop_last() =~= dec_text(n / 10));
        assert(digit_value(s.last(), 10) == Some(n % 10));
        assert(digits_value(s, 10) == digits_value(s.drop_last(), 10) * 10 + n % 10);
        assert(n == (n / 10) * 10 + n % 10);
        assert forall|i: int| 0 <= i < s.len() implies 0x30 <= #[trigger] s[i] <= 0x39 by {
            if i < s.len() - 1 {
                assert(s[i] == dec_text(n / 10)[i]);
            }
        }
        assert forall|i: int| 0 <= i < s.len() implies (#[trigger] digit_value(s[i], 10)) is Some by {
            assert(0x30 <= s[i] <= 0x39);
        }
    }
}

/// A `usize` written in decimal reads back as itself.
pub proof fn lemma_dec_usize_roundtrip(n: usize)
    ensures
        dec_usize(dec_text(n as nat)) == Some(n),
{
    lemma_dec_text(n as nat);
}

/// Appends the decimal digits of `n`.
pub fn push_dec(out: &mut Vec<u8>, n: u64)
    ensures
        final(out)@ == old(out)@ + dec_text(n as nat),
    decreases n,
{
    if n >= 10 {
        push_dec(out, n / 10);
    }
    let d: u8 = (n % 10) as u8;
    out.push(0x30u8 + d);
    assert(final(out)@ =~= old(out)@ + dec_text(n as nat));
}

} // verus!
