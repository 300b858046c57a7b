//! Small text and byte utilities shared by the rest of the library: ASCII
//! byte conversion, decimal rendering of integers, ASCII lower-casing and
//! joining of strings.

use vstd::prelude::*;
use vstd::string::*;

verus! {

/// The bytes of a text made of ASCII characters, one byte per character.
pub open spec fn ascii_bytes(cs: Seq<char>) -> Seq<u8> {
    cs.map_values(|c: char| c as u8)
}

/// Whether every character of `cs` is ASCII.
pub open spec fn all_ascii(cs: Seq<char>) -> bool {
    forall|i: int| 0 <= i < cs.len() ==> (#[trigger] cs[i] as u32) < 128
}

/// Appends the ASCII bytes of `s` to `out`.
pub fn push_ascii(out: &mut Vec<u8>, s: &str)
    ensures
        final(out)@ == old(out)@ + ascii_bytes(s@),
{
    let n = s.unicode_len();
    let ghost start = out@;
    let mut i: usize = 0;
    while i < n
        invariant
            n == s@.len(),
            i <= n,
            out@ == start + ascii_bytes(s@.subrange(0, i as int)),
        decreases n - i,
    {
        let c = s.get_char(i);
        out.push(c as u8);
        assert(s@.subrange(0, (i + 1) as int) == s@.subrange(0, i as int).push(c));
        i = i + 1;
    }
    assert(s@.subrange(0, n as int) == s@);
}

/// Whether `s` holds the character `c`.
pub fn contains_char(s: &str, c: char) -> (r: bool)
    ensures
        r == s@.contains(c),
{
    let n = s.unicode_len();
    let mut i: usize = 0;
    while i < n
        invariant
            n == s@.len(),
            i <= n,
            forall|j: int| 0 <= j < i ==> s@[j] != c,
        decreases n - i,
    {
        if s.get_char(i) == c {
            assert(s@[i as int] == c);
            return true;
        }
        i = i + 1;
    }
    false
}


/// The one-character text of a printable ASCII byte.
pub fn printable_char_str(b: u8) -> (r: &'static str)
    requires
        32 <= b < 127,
    ensures
        r@ == seq![b as char],
{
    let table = " !\"#$%&'()*+,-./0123456789:;<=>?@ABCDEFGHIJKLMNOPQRSTUVWXYZ[\\]^_`abcdefghijklmnopqrstuvwxyz{|}~";
    proof {
        reveal_strlit(" !\"#$%&'()*+,-./0123456789:;<=>?@ABCDEFGHIJKLMNOPQRSTUVWXYZ[\\]^_`abcdefghijklmnopqrstuvwxyz{|}~");
        assert(table@.len() == 95);
        assert(forall|k: int| 0 <= k < 95 ==> #[trigger] table@[k] == ((k + 32) as char));
    }
    table.substring_char((b - 32) as usize, (b - 31) as usize)
}

/// Byte-wise equality of two byte slices.
pub fn bytes_eq(a: &[u8], b: &[u8]) -> (r: bool)
    ensures
        r == (a@ == b@),
{
    if a.len() != b.len() {
        return false;
    }
    let mut i: usize = 0;
    while i < a.len()
        invariant
            a@.len() == b@.len(),
            i <= a@.len(),
            forall|j: int| 0 <= j < i ==> a@[j] == b@[j],
        decreases a@.len() - i,
    {
        if a[i] != b[i] {
            return false;
        }
        i = i + 1;
    }
    assert(a@ =~= b@);
    true
}

/// The decimal digit character for `d` (for `0 <= d < 10`).
pub open spec fn digit_char(d: int) -> char {
    if d == 0 {
        '0'
    } else if d == 1 {
        '1'
    } else if d == 2 {
        '2'
    } else if d == 3 {
        '3'
    } else if d == 4 {
        '4'
    } else if d == 5 {
        '5'
    } else if d == 6 {
        '6'
    } else if d == 7 {
        '7'
    } else if d == 8 {
        '8'
    } else {
        '9'
    }
}

/// The decimal rendering of `n`, without sign or leading zeros.
pub open spec fn decimal(n: nat) -> Seq<char>
    decreases n,
{
    if n < 10 {
        seq![digit_char(n as int)]
    } else {
        decimal(n / 10).push(digit_char((n % 10) as int))
    }
}

fn push_digit(out: &mut String, d: u64)
    requires
        d < 10,
    ensures
        final(out)@ == old(out)@.push(digit_char(d as int)),
{
    proof {
        reveal_strlit("0");
        reveal_strlit("1");
        reveal_strlit("2");
        reveal_strlit("3");
        reveal_strlit("4");
        reveal_strlit("5");
        reveal_strlit("6");
        reveal_strlit("7");
        reveal_strlit("8");
        reveal_strlit("9");
    }
    let ghost before = out@;
    if d == 0 {
        out.append("0");
    } else if d == 1 {
        out.append("1");
    } else if d == 2 {
        out.append("2");
    } else if d == 3 {
        out.append("3");
    } else if d == 4 {
        out.append("4");
    } else if d == 5 {
        out.append("5");
    } else if d == 6 {
        out.append("6");
    } else if d == 7 {
        out.append("7");
    } else if d == 8 {
        out.append("8");
    } else {
        out.append("9");
    }
    assert(out@ =~= before.push(digit_char(d as int)));
}

/// Appends the decimal rendering of `n` to `out`.
pub fn push_decimal(out: &mut String, n: u64)
    ensures
        final(out)@ == old(out)@ + decimal(n as nat),
    decreases n,
{
    let ghost before = out@;
    if n < 10 {
        push_digit(out, n);
        assert(out@ =~= before + decimal(n as nat));
    } else {
        push_decimal(out, n / 10);
        push_digit(out, n % 10);
        assert(out@ =~= before + decimal(n as nat));
    }
}

/// The decimal rendering of `n` as a new string.
pub fn to_decimal(n: u64) -> (r: String)
    ensures
        r@ == decimal(n as nat),
{
    let mut s = String::new();
    push_decimal(&mut s, n);
    assert(s@ =~= decimal(n as nat));
    s
}

/// ASCII lower-casing of a single character: `A`..`Z` become `a`..`z`, every
/// other character is kept.
pub open spec fn lower_char(c: char) -> char {
    if 'A' <= c && c <= 'Z' {
        ((c as u32) + 32) as char
    } else {
        c
    }
}

/// ASCII lower-casing of a text.
pub open spec fn ascii_lowercase(cs: Seq<char>) -> Seq<char> {
    cs.map_values(|c: char| lower_char(c))
}

/// The concatenation of `parts`, in order.
pub open spec fn concat_all(parts: Seq<Seq<char>>) -> Seq<char>
    decreases parts.len(),
{
    if parts.len() == 0 {
        Seq::empty()
    } else {
        concat_all(parts.drop_last()) + parts.last()
    }
}

/// `parts` joined by `sep`: the parts in order with `sep` between each two
/// neighbours.
pub open spec fn join_with(parts: Seq<Seq<char>>, sep: Seq<char>) -> Seq<char>
    decreases parts.len(),
{
    if parts.len() == 0 {
        Seq::empty()
    } else if parts.len() == 1 {
        parts[0]
    } else {
        join_with(parts.drop_last(), sep) + sep + parts.last()
    }
}

/// The view of each string of `v`.
pub open spec fn strings_view(v: Seq<String>) -> Seq<Seq<char>> {
    v.map_values(|s: String| s@)
}

/// Joins `parts` with `sep` between neighbours.
pub fn join_strings(parts: &Vec<String>, sep: &str) -> (r: String)
    ensures
        r@ == join_with(strings_view(parts@), sep@),
{
    let mut r = String::new();
    let ghost views = strings_view(parts@);
    let mut i: usize = 0;
    while i < parts.len()
        invariant
            views == strings_view(parts@),
            i <= parts@.len(),
            r@ == join_with(views.take(i as int), sep@),
        decreases parts@.len() - i,
    {
        assert(views.take((i + 1) as int).drop_last() =~= views.take(i as int));
        if i != 0 {
            r.append(sep);
        }
        r.append(parts[i].as_str());
        i = i + 1;
    }
    assert(views.take(parts@.len() as int) =~= views);
    r
}

/// A copy of `s` as an owned string.
pub fn owned(s: &str) -> (r: String)
    ensures
        r@ == s@,
{
    String::from_str(s)
}

/// The concatenation of two texts as a new string.
pub fn concat2(a: &str, b: &str) -> (r: String)
    ensures
        r@ == a@ + b@,
{
    let mut r = String::from_str(a);
    r.append(b);
    r
}

/// The concatenation of three texts as a new string.
pub fn concat3(a: &str, b: &str, c: &str) -> (r: String)
    ensures
        r@ == a@ + b@ + c@,
{
    let mut r = String::from_str(a);
    r.append(b);
    r.append(c);
    r
}

/// The concatenation of four texts as a new string.
pub fn concat4(a: &str, b: &str, c: &str, d: &str) -> (r: String)
    ensures
        r@ == a@ + b@ + c@ + d@,
{
    let mut r = String::from_str(a);
    r.append(b);
    r.append(c);
    r.append(d);
    r
}

/// Whether `s` has `p` at position `at`.
pub open spec fn has_at(s: Seq<char>, p: Seq<char>, at: int) -> bool {
    0 <= at && at + p.len() <= s.len() && s.subrange(at, at + p.len()) == p
}

/// `s` with every leading repetition of `p` removed, as
/// `str::trim_start_matches` gives it; an empty `p` removes nothing.
pub open spec fn trim_start_spec(s: Seq<char>, p: Seq<char>) -> Seq<char>
    decreases s.len(),
{
    if p.len() > 0 && has_at(s, p, 0) {
        trim_start_spec(s.subrange(p.len() as int, s.len() as int), p)
    } else {
        s
    }
}

/// `s` with every trailing repetition of `p` removed, as
/// `str::trim_end_matches` gives it; an empty `p` removes nothing.
pub open spec fn trim_end_spec(s: Seq<char>, p: Seq<char>) -> Seq<char>
    decreases s.len(),
{
    if p.len() > 0 && has_at(s, p, s.len() - p.len()) {
        trim_end_spec(s.subrange(0, s.len() - p.len()), p)
    } else {
        s
    }
}

fn matches_at(s: &str, p: &str, at: usize) -> (r: bool)
    requires
        at <= s@.len(),
    ensures
        r == has_at(s@, p@, at as int),
{
    let n = s.unicode_len();
    let m = p.unicode_len();
    if m > n - at {
        return false;
    }
    let mut j: usize = 0;
    while j < m
        invariant
            m == p@.len(),
            n == s@.len(),
            at + m <= n,
            j <= m,
            forall|k: int| 0 <= k < j ==> s@[at + k] == p@[k],
        decreases m - j,
    {
        if s.get_char(at + j) != p.get_char(j) {
            assert(s@.subrange(at as int, at + m)[j as int] != p@[j as int]);
            return false;
        }
        j = j + 1;
    }
    assert(s@.subrange(at as int, at + m) =~= p@);
    true
}

/// `s` with every occurrence of the non-empty `p` replaced by `r`, the
/// occurrences taken from left to right without overlap, as
/// `str::replace` gives it.
pub open spec fn replace_spec(s: Seq<char>, p: Seq<char>, r: Seq<char>) -> Seq<char>
    decreases s.len(),
{
    if s.len() == 0 || p.len() == 0 {
        s
    } else if has_at(s, p, 0) {
        r + replace_spec(s.subrange(p.len() as int, s.len() as int), p, r)
    } else {
        seq![s[0]] + replace_spec(s.drop_first(), p, r)
    }
}

/// `s` with every occurrence of `p` replaced by `r`; see `replace_spec`.
pub fn replace_all(s: &str, p: &str, r: &str) -> (out: String)
    requires
        p@.len() > 0,
    ensures
        out@ == replace_spec(s@, p@, r@),
{
    let n = s.unicode_len();
    let m = p.unicode_len();
    let mut out = String::new();
    let mut i: usize = 0;
    assert(s@.subrange(0, n as int) =~= s@);
    while i < n
        invariant
            n == s@.len(),
            m == p@.len(),
            m > 0,
            i <= n,
            out@ + replace_spec(s@.subrange(i as int, n as int), p@, r@) == replace_spec(s@, p@, r@),
        decreases n - i,
    {
        let ghost rest = s@.subrange(i as int, n as int);
        let ghost before = out@;
        assert(has_at(rest, p@, 0) == has_at(s@, p@, i as int)) by {
            if i + m <= n {
                assert(rest.subrange(0, m as int) =~= s@.subrange(i as int, i + m));
            }
        }
        if matches_at(s, p, i) {
            assert(rest.subrange(m as int, rest.len() as int) =~= s@.subrange(i + m, n as int));
            out.append(r);
            assert(before + (r@ + replace_spec(s@.subrange(i + m, n as int), p@, r@)) =~= out@
                + replace_spec(s@.subrange(i + m, n as int), p@, r@));
            i = i + m;
        } else {
            assert(rest.drop_first() =~= s@.subrange(i + 1, n as int));
            let one = s.substring_char(i, i + 1);
            assert(one@ =~= seq![rest[0]]);
            out.append(one);
            assert(before + (seq![rest[0]] + replace_spec(s@.subrange(i + 1, n as int), p@, r@))
                =~= out@ + replace_spec(s@.subrange(i + 1, n as int), p@, r@));
            i = i + 1;
        }
    }
    assert(s@.subrange(n as int, n as int) =~= Seq::<char>::empty());
    assert(out@ + Seq::<char>::empty() =~= out@);
    out
}

/// `s` with every leading repetition of `p` removed; see
/// `trim_start_spec`.
pub fn trim_start_matches<'a>(s: &'a str, p: &str) -> (r: &'a str)
    ensures
        r@ == trim_start_spec(s@, p@),
{
    let n = s.unicode_len();
    let m = p.unicode_len();
    let mut i: usize = 0;
    assert(s@.subrange(0, n as int) =~= s@);
    if m > 0 {
        while matches_at(s, p, i)
            invariant
                n == s@.len(),
                m == p@.len(),
                m > 0,
                i <= n,
                trim_start_spec(s@, p@) == trim_start_spec(s@.subrange(i as int, n as int), p@),
            decreases n - i,
        {
            let ghost rest = s@.subrange(i as int, n as int);
            assert(has_at(rest, p@, 0) == has_at(s@, p@, i as int)) by {
                if i + m <= n {
                    assert(rest.subrange(0, m as int) =~= s@.subrange(i as int, i + m));
                }
            }
            assert(rest.subrange(m as int, rest.len() as int) =~= s@.subrange(i + m, n as int));
            i = i + m;
        }
        let ghost rest = s@.subrange(i as int, n as int);
        assert(!has_at(rest, p@, 0)) by {
            if i + m <= n {
                assert(rest.subrange(0, m as int) =~= s@.subrange(i as int, i + m));
            }
        }
    }
    s.substring_char(i, n)
}

/// `s` with every trailing repetition of `p` removed; see
/// `trim_end_spec`.
pub fn trim_end_matches<'a>(s: &'a str, p: &str) -> (r: &'a str)
    ensures
        r@ == trim_end_spec(s@, p@),
{
    let n = s.unicode_len();
    let m = p.unicode_len();
    let mut e: usize = n;
    assert(s@.subrange(0, n as int) =~= s@);
    if m > 0 {
        while e >= m && matches_at(s, p, e - m)
            invariant
                n == s@.len(),
                m == p@.len(),
                m > 0,
                e <= n,
                trim_end_spec(s@, p@) == trim_end_spec(s@.subrange(0, e as int), p@),
            decreases e,
        {
            let ghost head = s@.subrange(0, e as int);
            assert(has_at(head, p@, e - m) == has_at(s@, p@, e - m)) by {
                assert(head.subrange(e - m, e as int) =~= s@.subrange(e - m, e as int));
            }
            assert(head.subrange(0, e - m) =~= s@.subrange(0, e - m));
            e = e - m;
        }
        let ghost head = s@.subrange(0, e as int);
        assert(!has_at(head, p@, e - m)) by {
            if e >= m {
                assert(head.subrange(e - m, e as int) =~= s@.subrange(e - m, e as int));
            }
        }
    }
    s.substring_char(0, e)
}

} // verus!

verus! {

/// The lower-case hexadecimal digit for `d` (for `0 <= d < 16`).
pub open spec fn hex_digit(d: int) -> char {
    if d < 10 {
        (d + 48) as char
    } else {
        (d + 87) as char
    }
}

/// A byte as `{:?}` of the `bytes` crate writes it inside a byte string:
/// the escapes `\n`, `\r`, `\t`, `\\`, `\"` and `\0`, a printable ASCII
/// byte as itself, and any other byte as `\x` and two hexadecimal digits.
pub open spec fn byte_debug(b: u8) -> Seq<char> {
    if b == 10 {
        "\\n"@
    } else if b == 13 {
        "\\r"@
    } else if b == 9 {
        "\\t"@
    } else if b == 92 || b == 34 {
        seq!['\\', b as char]
    } else if b == 0 {
        "\\0"@
    } else if 32 <= b < 127 {
        seq![b as char]
    } else {
        "\\x"@ + seq![hex_digit(b as int / 16), hex_digit(b as int % 16)]
    }
}

/// Bytes as `{:?}` of the `bytes` crate writes them: `b"`, each byte (see
/// `byte_debug`), and `"`.
pub open spec fn bytes_debug(bs: Seq<u8>) -> Seq<char> {
    "b\""@ + concat_all(bs.map_values(|b: u8| byte_debug(b))) + "\""@
}

/// An ASCII character as `{:?}` of a `str` writes it: the escapes `\t`,
/// `\r`, `\n`, `\"`, `\\` and `\0`, a printable character as itself, and
/// any other as `\u{..}` with its code in lower-case hexadecimal, without
/// leading zeros.
pub open spec fn ascii_char_debug(b: u8) -> Seq<char> {
    if b == 9 {
        "\\t"@
    } else if b == 13 {
        "\\r"@
    } else if b == 10 {
        "\\n"@
    } else if b == 92 || b == 34 {
        seq!['\\', b as char]
    } else if b == 0 {
        "\\0"@
    } else if 32 <= b < 127 {
        seq![b as char]
    } else if b < 16 {
        "\\u{"@ + seq![hex_digit(b as int)] + "}"@
    } else {
        "\\u{"@ + seq![hex_digit(b as int / 16), hex_digit(b as int % 16)] + "}"@
    }
}

/// ASCII text as `{:?}` of a `str` writes it: `"`, each character (see
/// `ascii_char_debug`), and `"`.
pub open spec fn ascii_str_debug(bs: Seq<u8>) -> Seq<char> {
    "\""@ + concat_all(bs.map_values(|b: u8| ascii_char_debug(b))) + "\""@
}

fn push_hex_digit(out: &mut String, d: u8)
    requires
        d < 16,
    ensures
        final(out)@ == old(out)@.push(hex_digit(d as int)),
{
    let c = if d < 10 {
        d + 48
    } else {
        d + 87
    };
    out.append(printable_char_str(c));
}

fn push_byte_debug(out: &mut String, b: u8)
    ensures
        final(out)@ == old(out)@ + byte_debug(b),
{
    proof {
        reveal_strlit("\\n");
        reveal_strlit("\\r");
        reveal_strlit("\\t");
        reveal_strlit("\\");
        reveal_strlit("\\0");
        reveal_strlit("\\x");
    }
    let ghost before = out@;
    if b == 10 {
        out.append("\\n");
    } else if b == 13 {
        out.append("\\r");
    } else if b == 9 {
        out.append("\\t");
    } else if b == 92 || b == 34 {
        out.append("\\");
        out.append(printable_char_str(b));
        assert(out@ =~= before + seq!['\\', b as char]);
    } else if b == 0 {
        out.append("\\0");
    } else if 32 <= b && b < 127 {
        out.append(printable_char_str(b));
    } else {
        out.append("\\x");
        push_hex_digit(out, b / 16);
        push_hex_digit(out, b % 16);
        assert(out@ =~= before + byte_debug(b));
    }
}

fn push_ascii_char_debug(out: &mut String, b: u8)
    requires
        b < 128,
    ensures
        final(out)@ == old(out)@ + ascii_char_debug(b),
{
    proof {
        reveal_strlit("\\n");
        reveal_strlit("\\r");
        reveal_strlit("\\t");
        reveal_strlit("\\");
        reveal_strlit("\\0");
        reveal_strlit("\\u{");
        reveal_strlit("}");
    }
    let ghost before = out@;
    if b == 9 {
        out.append("\\t");
    } else if b == 13 {
        out.append("\\r");
    } else if b == 10 {
        out.append("\\n");
    } else if b == 92 || b == 34 {
        out.append("\\");
        out.append(printable_char_str(b));
        assert(out@ =~= before + seq!['\\', b as char]);
    } else if b == 0 {
        out.append("\\0");
    } else if 32 <= b && b < 127 {
        out.append(printable_char_str(b));
    } else if b < 16 {
        out.append("\\u{");
        push_hex_digit(out, b);
        out.append("}");
        assert(out@ =~= before + ascii_char_debug(b));
    } else {
        out.append("\\u{");
        push_hex_digit(out, b / 16);
        push_hex_digit(out, b % 16);
        out.append("}");
        assert(out@ =~= before + ascii_char_debug(b));
    }
}

/// Appends `bytes_debug(bs)` to `out`.
pub fn push_bytes_debug(out: &mut String, bs: &[u8])
    ensures
        final(out)@ == old(out)@ + bytes_debug(bs@),
{
    proof {
        reveal_strlit("b\"");
        reveal_strlit("\"");
    }
    let ghost start = out@;
    let ghost parts = bs@.map_values(|b: u8| byte_debug(b));
    out.append("b\"");
    let mut i: usize = 0;
    while i < bs.len()
        invariant
            i <= bs@.len(),
            parts == bs@.map_values(|b: u8| byte_debug(b)),
            out@ == start + "b\""@ + concat_all(parts.subrange(0, i as int)),
        decreases bs@.len() - i,
    {
        let ghost prev = out@;
        push_byte_debug(out, bs[i]);
        assert(parts.subrange(0, i + 1).drop_last() =~= parts.subrange(0, i as int));
        assert(out@ =~= start + "b\""@ + concat_all(parts.subrange(0, i + 1)));
        i = i + 1;
    }
    assert(parts.subrange(0, bs@.len() as int) =~= parts);
    out.append("\"");
    assert(out@ =~= start + bytes_debug(bs@));
}

/// Appends `ascii_str_debug(bs)` to `out`; the bytes must be ASCII.
pub fn push_ascii_str_debug(out: &mut String, bs: &[u8])
    requires
        forall|i: int| 0 <= i < bs@.len() ==> bs@[i] < 128,
    ensures
        final(out)@ == old(out)@ + ascii_str_debug(bs@),
{
    proof {
        reveal_strlit("\"");
    }
    let ghost start = out@;
    let ghost parts = bs@.map_values(|b: u8| ascii_char_debug(b));
    out.append("\"");
    let mut i: usize = 0;
    while i < bs.len()
        invariant
            i <= bs@.len(),
            forall|k: int| 0 <= k < bs@.len() ==> bs@[k] < 128,
            parts == bs@.map_values(|b: u8| ascii_char_debug(b)),
            out@ == start + "\""@ + concat_all(parts.subrange(0, i as int)),
        decreases bs@.len() - i,
    {
        push_ascii_char_debug(out, bs[i]);
        assert(parts.subrange(0, i + 1).drop_last() =~= parts.subrange(0, i as int));
        assert(out@ =~= start + "\""@ + concat_all(parts.subrange(0, i + 1)));
        i = i + 1;
    }
    assert(parts.subrange(0, bs@.len() as int) =~= parts);
    out.append("\"");
    assert(out@ =~= start + ascii_str_debug(bs@));
}

} // verus!
