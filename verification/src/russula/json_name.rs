//! Reading a state's name from JSON as a JSON reader takes a unit variant of
//! an enum: the name as a JSON string, or an object whose one member has the
//! name as its key and `null` as its value, with JSON whitespace between
//! the tokens. Inside the string each character of the name stands for
//! itself or is written as a `\uXXXX` escape.

use crate::russula::states::{json_name, json_trim, trim_ws_start};
use crate::text::ascii_bytes;
use vstd::prelude::*;

verus! {

/// The value of a hexadecimal digit of either case, or -1.
pub open spec fn hex_val(c: u8) -> int {
    if 48 <= c <= 57 {
        c - 48
    } else if 97 <= c <= 102 {
        c - 87
    } else if 65 <= c <= 70 {
        c - 55
    } else {
        -1
    }
}

/// The value of the four hexadecimal digits `b[0..4]`, or -1.
pub open spec fn hex4_value(b: Seq<u8>) -> int {
    if hex_val(b[0]) < 0 || hex_val(b[1]) < 0 || hex_val(b[2]) < 0 || hex_val(b[3]) < 0 {
        -1
    } else {
        ((hex_val(b[0]) * 16 + hex_val(b[1])) * 16 + hex_val(b[2])) * 16 + hex_val(b[3])
    }
}

/// Whether `body`, the inside of a JSON string, reads as `name`, a name made
/// of ASCII letters: each character either as itself or as a `\u` escape
/// with four hexadecimal digits.
pub open spec fn body_encodes(body: Seq<u8>, name: Seq<char>) -> bool
    decreases name.len(),
{
    if name.len() == 0 {
        body.len() == 0
    } else if body.len() == 0 {
        false
    } else if body[0] == 92 {
        &&& body.len() >= 6
        &&& body[1] == 117
        &&& hex4_value(body.subrange(2, 6)) == name[0] as int
        &&& body_encodes(body.subrange(6, body.len() as int), name.drop_first())
    } else {
        &&& body[0] as int == name[0] as int
        &&& body_encodes(body.drop_first(), name.drop_first())
    }
}

/// The position of the first `"` in `s`, or -1.
pub open spec fn first_quote(s: Seq<u8>) -> int
    decreases s.len(),
{
    if s.len() == 0 {
        -1
    } else if s[0] == 34 {
        0
    } else {
        let k = first_quote(s.drop_first());
        if k < 0 {
            -1
        } else {
            k + 1
        }
    }
}

/// Whether `t` is `name` as a JSON string.
pub open spec fn string_form(t: Seq<u8>, name: Seq<char>) -> bool {
    &&& t.len() >= 2
    &&& t[0] == 34
    &&& t[t.len() - 1] == 34
    &&& body_encodes(t.subrange(1, t.len() - 1), name)
}

/// Whether `c` is `null` followed by nothing but whitespace.
pub open spec fn null_then_end(c: Seq<u8>) -> bool {
    &&& c.len() >= 4
    &&& c[0] == 110 && c[1] == 117 && c[2] == 108 && c[3] == 108
    &&& trim_ws_start(c.subrange(4, c.len() as int)).len() == 0
}

/// Whether `a` is `"name"`, optional whitespace, `:`, optional whitespace,
/// `null`, and optional whitespace.
pub open spec fn member_form(a: Seq<u8>, name: Seq<char>) -> bool {
    &&& a.len() > 0
    &&& a[0] == 34
    &&& {
        let k = first_quote(a.drop_first());
        &&& k >= 0
        &&& body_encodes(a.subrange(1, 1 + k), name)
        &&& {
            let b = trim_ws_start(a.subrange(2 + k, a.len() as int));
            &&& b.len() > 0
            &&& b[0] == 58
            &&& null_then_end(trim_ws_start(b.drop_first()))
        }
    }
}

/// Whether `t` is an object whose one member has the key `name` and the
/// value `null`.
pub open spec fn object_form(t: Seq<u8>, name: Seq<char>) -> bool {
    &&& t.len() >= 2
    &&& t[0] == 123
    &&& t[t.len() - 1] == 125
    &&& member_form(trim_ws_start(t.subrange(1, t.len() - 1)), name)
}

/// Whether `t` is the unit variant `name` as a string or in a one-member
/// object.
pub open spec fn variant_form(t: Seq<u8>, name: Seq<char>) -> bool {
    string_form(t, name) || object_form(t, name)
}

/// Whether `b` is JSON text that reads as the unit variant `name`: the name
/// as a string or in a one-member object, with whitespace around.
pub open spec fn json_variant_text(b: Seq<u8>, name: Seq<char>) -> bool {
    variant_form(json_trim(b), name)
}

/// Whether every character of `name` is an ASCII letter.
pub open spec fn letters_only(name: Seq<char>) -> bool {
    forall|i: int| 0 <= i < name.len() ==> ('A' <= #[trigger] name[i] <= 'Z' || 'a' <= name[i] <= 'z')
}

proof fn lemma_body_of_letters(ns: Seq<char>, nx: Seq<char>)
    requires
        letters_only(ns),
        letters_only(nx),
    ensures
        body_encodes(ascii_bytes(ns), nx) <==> ns == nx,
    decreases nx.len(),
{
    let b = ascii_bytes(ns);
    if ns.len() == 0 && nx.len() == 0 {
        assert(ns =~= nx);
    }
    if nx.len() > 0 && ns.len() > 0 {
        let c = ns[0];
        assert('A' <= c <= 'Z' || 'a' <= c <= 'z');
        assert(b[0] == c as u8);
        assert(b[0] as int == c as int);
        assert(b[0] != 92);
        assert((ns[0] as int == nx[0] as int) ==> ns[0] == nx[0]);
        assert(b.drop_first() =~= ascii_bytes(ns.drop_first()));
        assert(letters_only(ns.drop_first())) by {
            assert forall|i: int| 0 <= i < ns.drop_first().len() implies ('A' <= #[trigger] ns.drop_first()[i] <= 'Z'
                || 'a' <= ns.drop_first()[i] <= 'z') by {
                assert(ns.drop_first()[i] == ns[i + 1]);
            }
        }
        assert(letters_only(nx.drop_first())) by {
            assert forall|i: int| 0 <= i < nx.drop_first().len() implies ('A' <= #[trigger] nx.drop_first()[i] <= 'Z'
                || 'a' <= nx.drop_first()[i] <= 'z') by {
                assert(nx.drop_first()[i] == nx[i + 1]);
            }
        }
        lemma_body_of_letters(ns.drop_first(), nx.drop_first());
        if ns.drop_first() == nx.drop_first() && ns[0] == nx[0] {
            assert forall|i: int| 0 <= i < ns.len() implies ns[i] == nx[i] by {
                if i > 0 {
                    assert(ns[i] == ns.drop_first()[i - 1]);
                    assert(nx[i] == nx.drop_first()[i - 1]);
                }
            }
            assert(ns =~= nx);
        }
        if ns == nx {
            assert(ns.drop_first() == nx.drop_first());
        }
    }
}

/// The wire form of a name made of letters reads back as exactly that
/// name, and as no other.
pub proof fn lemma_json_name_reads_as(ns: Seq<char>, nx: Seq<char>)
    requires
        letters_only(ns),
        letters_only(nx),
    ensures
        json_variant_text(json_name(ns), nx) <==> json_name(ns) == json_name(nx),
{
    let t = json_name(ns);
    assert(t[0] == 34u8);
    assert(t[t.len() - 1] == 34u8);
    assert(trim_ws_start(t) == t);
    assert(json_trim(t) == t);
    assert(t.subrange(1, t.len() - 1) =~= ascii_bytes(ns));
    lemma_body_of_letters(ns, nx);
    if json_name(ns) == json_name(nx) {
        assert(ascii_bytes(ns) =~= json_name(ns).subrange(1, json_name(ns).len() - 1));
        assert(ascii_bytes(nx) =~= json_name(nx).subrange(1, json_name(nx).len() - 1));
        assert(ascii_bytes(ns).len() == ns.len());
        assert forall|i: int| 0 <= i < ns.len() implies ns[i] == nx[i] by {
            assert(ascii_bytes(ns)[i] == ascii_bytes(nx)[i]);
        }
        assert(ns =~= nx);
    }
}

fn hex_digit_value(c: u8) -> (r: i32)
    ensures
        r == hex_val(c),
{
    if 48 <= c && c <= 57 {
        (c - 48) as i32
    } else if 97 <= c && c <= 102 {
        (c - 87) as i32
    } else if 65 <= c && c <= 70 {
        (c - 55) as i32
    } else {
        -1
    }
}

fn hex4_at(b: &[u8], p: usize) -> (r: i32)
    requires
        p + 4 <= b@.len(),
    ensures
        r == hex4_value(b@.subrange(p as int, p + 4)),
{
    let h0 = hex_digit_value(b[p]);
    let h1 = hex_digit_value(b[p + 1]);
    let h2 = hex_digit_value(b[p + 2]);
    let h3 = hex_digit_value(b[p + 3]);
    let ghost s = b@.subrange(p as int, p + 4);
    assert(s[0] == b@[p as int] && s[1] == b@[p + 1] && s[2] == b@[p + 2] && s[3] == b@[p + 3]);
    if h0 < 0 || h1 < 0 || h2 < 0 || h3 < 0 {
        -1
    } else {
        ((h0 * 16 + h1) * 16 + h2) * 16 + h3
    }
}

/// Whether `b[from..to]` reads as `name`; see `body_encodes`.
fn body_encodes_at(b: &[u8], from: usize, to: usize, name: &str) -> (r: bool)
    requires
        from <= to <= b@.len(),
    ensures
        r == body_encodes(b@.subrange(from as int, to as int), name@),
{
    let n = name.unicode_len();
    let mut p: usize = from;
    let mut j: usize = 0;
    assert(name@.subrange(0, n as int) =~= name@);
    while j < n
        invariant
            from <= p <= to <= b@.len(),
            j <= n == name@.len(),
            body_encodes(b@.subrange(from as int, to as int), name@) == body_encodes(
                b@.subrange(p as int, to as int),
                name@.subrange(j as int, n as int),
            ),
        decreases n - j,
    {
        let c = name.get_char(j);
        let ghost rest = b@.subrange(p as int, to as int);
        let ghost nm = name@.subrange(j as int, n as int);
        assert(nm[0] == c);
        assert(nm.drop_first() =~= name@.subrange(j + 1, n as int));
        if p == to {
            return false;
        }
        assert(rest[0] == b@[p as int]);
        if b[p] == 92 {
            if to - p >= 6 && b[p + 1] == 117 {
                let v = hex4_at(b, p + 2);
                assert(rest[1] == b@[p + 1]);
                assert(rest.subrange(2, 6) =~= b@.subrange(p + 2, p + 6));
                if v as i64 == c as u32 as i64 {
                    assert(rest.subrange(6, rest.len() as int) =~= b@.subrange(p + 6, to as int));
                    p = p + 6;
                } else {
                    return false;
                }
            } else {
                if to - p >= 6 {
                    assert(rest[1] == b@[p + 1]);
                }
                return false;
            }
        } else {
            if b[p] as u32 == c as u32 {
                assert(rest.drop_first() =~= b@.subrange(p + 1, to as int));
                p = p + 1;
            } else {
                return false;
            }
        }
        j = j + 1;
    }
    assert(name@.subrange(n as int, n as int) =~= Seq::<char>::empty());
    p == to
}

/// The first position `from <= k < to` of a `"` in `b`, if any.
fn find_quote(b: &[u8], from: usize, to: usize) -> (r: Option<usize>)
    requires
        from <= to <= b@.len(),
    ensures
        match r {
            Some(k) => from <= k < to && first_quote(b@.subrange(from as int, to as int)) == k - from,
            None => first_quote(b@.subrange(from as int, to as int)) < 0,
        },
{
    let mut i: usize = from;
    while i < to
        invariant
            from <= i <= to <= b@.len(),
            first_quote(b@.subrange(from as int, to as int)) == (if first_quote(
                b@.subrange(i as int, to as int),
            ) < 0 {
                -1
            } else {
                first_quote(b@.subrange(i as int, to as int)) + (i - from)
            }),
        decreases to - i,
    {
        let ghost s = b@.subrange(i as int, to as int);
        assert(s[0] == b@[i as int]);
        if b[i] == 34 {
            return Some(i);
        }
        assert(s.drop_first() =~= b@.subrange(i + 1, to as int));
        i = i + 1;
    }
    None
}

/// The first position at or after `from`, up to `to`, that is not JSON
/// whitespace.
fn skip_ws(b: &[u8], from: usize, to: usize) -> (r: usize)
    requires
        from <= to <= b@.len(),
    ensures
        from <= r <= to,
        trim_ws_start(b@.subrange(from as int, to as int)) == b@.subrange(r as int, to as int),
{
    let mut i: usize = from;
    while i < to && (b[i] == 32 || b[i] == 9 || b[i] == 10 || b[i] == 13)
        invariant
            from <= i <= to <= b@.len(),
            trim_ws_start(b@.subrange(from as int, to as int)) == trim_ws_start(
                b@.subrange(i as int, to as int),
            ),
        decreases to - i,
    {
        assert(b@.subrange(i as int, to as int).drop_first() =~= b@.subrange(i + 1, to as int));
        i = i + 1;
    }
    if i < to {
        assert(b@.subrange(i as int, to as int)[0] == b@[i as int]);
    }
    i
}

/// Whether `t` is the unit variant `name` as a string or in a one-member
/// object; see `variant_form`.
pub fn variant_form_matches(t: &[u8], name: &str) -> (r: bool)
    ensures
        r == variant_form(t@, name@),
{
    let n = t.len();
    if n < 2 {
        return false;
    }
    if t[0] == 34 && t[n - 1] == 34 {
        assert(!object_form(t@, name@));
        return body_encodes_at(t, 1, n - 1, name);
    }
    if !(t[0] == 123 && t[n - 1] == 125) {
        return false;
    }
    // an object: `{`, the member, `}`
    let a = skip_ws(t, 1, n - 1);
    let ghost av = t@.subrange(a as int, n - 1);
    assert(trim_ws_start(t@.subrange(1, n - 1)) == av);
    if a == n - 1 || t[a] != 34 {
        return false;
    }
    assert(av[0] == t@[a as int]);
    let q = find_quote(t, a + 1, n - 1);
    assert(av.drop_first() =~= t@.subrange(a + 1, n - 1));
    match q {
        None => false,
        Some(k) => {
            let ghost kk = k - (a + 1);
            assert(av.subrange(1, 1 + kk) =~= t@.subrange(a + 1, k as int));
            if !body_encodes_at(t, a + 1, k, name) {
                return false;
            }
            assert(av.subrange(2 + kk, av.len() as int) =~= t@.subrange(k + 1, n - 1));
            let c = skip_ws(t, k + 1, n - 1);
            let ghost bv = t@.subrange(c as int, n - 1);
            if c == n - 1 || t[c] != 58 {
                if c < n - 1 {
                    assert(bv[0] == t@[c as int]);
                }
                return false;
            }
            assert(bv[0] == t@[c as int]);
            assert(bv.drop_first() =~= t@.subrange(c + 1, n - 1));
            let d = skip_ws(t, c + 1, n - 1);
            null_then_end_below(t, d, n - 1)
        },
    }
}

fn null_then_end_below(b: &[u8], from: usize, to: usize) -> (r: bool)
    requires
        from <= to <= b@.len(),
    ensures
        r == null_then_end(b@.subrange(from as int, to as int)),
{
    let ghost c = b@.subrange(from as int, to as int);
    if to - from < 4 {
        return false;
    }
    assert(c[0] == b@[from as int] && c[1] == b@[from + 1] && c[2] == b@[from + 2] && c[3] == b@[from + 3]);
    if !(b[from] == 110 && b[from + 1] == 117 && b[from + 2] == 108 && b[from + 3] == 108) {
        return false;
    }
    let e = skip_ws(b, from + 4, to);
    assert(c.subrange(4, c.len() as int) =~= b@.subrange(from + 4, to as int));
    e == to
}

} // verus!
