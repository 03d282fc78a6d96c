//! Parsing of the callback's query string into key/value parameters.
//!
//! The redirect arrives as `GET /callback?code=...&state=...` (or
//! `?error=...&error_description=...`). The query is split on `&`, each piece
//! at its first `=`, and both sides are percent-decoded: `+` stands for a
//! space, and `%HH` with two hex digits stands for the character with that
//! code when it is in the ASCII range. Any other use of `%` is kept literally.
//! Later occurrences of a key override earlier ones, as in a map built by
//! insertion.

use vstd::prelude::*;

verus! {

/// Whether `c` is an ASCII hex digit.
pub open spec fn is_hex_digit(c: char) -> bool {
    (48 <= c as u32 && c as u32 <= 57) || (65 <= c as u32 && c as u32 <= 70) || (97 <= c as u32
        && c as u32 <= 102)
}

/// Value of the hex digit `c` (0 for a non-digit).
pub open spec fn hex_val(c: char) -> nat {
    if 48 <= c as u32 && c as u32 <= 57 {
        (c as u32 - 48) as nat
    } else if 65 <= c as u32 && c as u32 <= 70 {
        (c as u32 - 55) as nat
    } else if 97 <= c as u32 && c as u32 <= 102 {
        (c as u32 - 87) as nat
    } else {
        0
    }
}

/// Whether `s` starts with an ASCII percent escape: `%HH` with `HH < 0x80`.
pub open spec fn starts_with_escape(s: Seq<char>) -> bool {
    s.len() >= 3 && s[0] == '%' && is_hex_digit(s[1]) && is_hex_digit(s[2]) && hex_val(s[1]) * 16
        + hex_val(s[2]) < 128
}

/// Percent-decoding of one query component.
pub open spec fn decoded(s: Seq<char>) -> Seq<char>
    decreases s.len(),
{
    if s.len() == 0 {
        Seq::empty()
    } else if s[0] == '+' {
        seq![' '] + decoded(s.skip(1))
    } else if starts_with_escape(s) {
        seq![(((hex_val(s[1]) * 16 + hex_val(s[2])) as u8) as char)] + decoded(s.skip(3))
    } else {
        seq![s[0]] + decoded(s.skip(1))
    }
}

/// Index of the first occurrence of `c` in `s`, or `s.len()` if absent.
pub open spec fn find_char(s: Seq<char>, c: char) -> nat
    decreases s.len(),
{
    if s.len() == 0 {
        0
    } else if s[0] == c {
        0
    } else {
        1 + find_char(s.skip(1), c)
    }
}

/// The parameters contributed by one `&`-separated piece: none for an empty
/// piece, otherwise one pair split at the first `=` (with an empty value when
/// there is no `=`), both sides percent-decoded.
pub open spec fn parsed_piece(piece: Seq<char>) -> Seq<(Seq<char>, Seq<char>)> {
    if piece.len() == 0 {
        Seq::empty()
    } else {
        let j = find_char(piece, '=') as int;
        if j >= piece.len() {
            seq![(decoded(piece), Seq::<char>::empty())]
        } else {
            seq![(decoded(piece.take(j)), decoded(piece.skip(j + 1)))]
        }
    }
}

/// The key/value parameters of a whole query string, in order of appearance.
pub open spec fn parsed_query(s: Seq<char>) -> Seq<(Seq<char>, Seq<char>)>
    decreases s.len(),
{
    let i = find_char(s, '&') as int;
    if i >= s.len() {
        parsed_piece(s)
    } else {
        parsed_piece(s.take(i)) + parsed_query(s.skip(i + 1))
    }
}

/// The views of a vector of parameter pairs.
pub open spec fn pairs_view(ps: Seq<(String, String)>) -> Seq<(Seq<char>, Seq<char>)> {
    ps.map(|i: int, p: (String, String)| (p.0@, p.1@))
}

/// Trusted shim over `String::push`, which vstd leaves unspecified:
/// appends exactly the one character.
#[verifier::external_body]
fn push_char(s: &mut String, c: char)
    ensures
        final(s)@ == old(s)@.push(c),
{
    s.push(c);
}

/// Value of an ASCII hex digit, or `None` for any other character.
fn hex_digit_value(c: char) -> (r: Option<u8>)
    ensures
        r is Some <==> is_hex_digit(c),
        r is Some ==> r->0 == hex_val(c) && r->0 <= 15,
{
    let u = c as u32;
    if 48 <= u && u <= 57 {
        Some((u - 48) as u8)
    } else if 65 <= u && u <= 70 {
        Some((u - 55) as u8)
    } else if 97 <= u && u <= 102 {
        Some((u - 87) as u8)
    } else {
        None
    }
}

/// First position of `c` in `s[from..to]`, as an absolute index; `to` if absent.
fn find_char_in(s: &str, from: usize, to: usize, c: char) -> (r: usize)
    requires
        from <= to <= s@.len(),
    ensures
        from <= r <= to,
        r - from == find_char(s@.subrange(from as int, to as int), c),
    decreases to - from,
{
    if from == to {
        return from;
    }
    let d = s.get_char(from);
    if d == c {
        return from;
    }
    let r = find_char_in(s, from + 1, to, c);
    proof {
        assert(s@.subrange(from as int, to as int).skip(1) =~= s@.subrange(
            from + 1 as int,
            to as int,
        ));
    }
    r
}

/// Percent-decodes `s[from..to]`.
fn decode_range(s: &str, from: usize, to: usize) -> (r: String)
    requires
        from <= to <= s@.len(),
    ensures
        r@ == decoded(s@.subrange(from as int, to as int)),
    decreases to - from,
{
    let ghost piece = s@.subrange(from as int, to as int);
    if from == to {
        return String::new();
    }
    let c = s.get_char(from);
    if c == '+' {
        let mut out = String::from_str(" ");
        let rest = decode_range(s, from + 1, to);
        out.append(rest.as_str());
        proof {
            reveal_strlit(" ");
            assert(" "@ =~= seq![' ']);
            assert(piece.skip(1) =~= s@.subrange(from + 1 as int, to as int));
            assert(out@ =~= decoded(piece));
        }
        return out;
    }
    if c == '%' && to - from > 2 {
        let h1 = hex_digit_value(s.get_char(from + 1));
        let h2 = hex_digit_value(s.get_char(from + 2));
        if h1.is_some() && h2.is_some() {
            let v: u8 = h1.unwrap() * 16 + h2.unwrap();
            if v < 128 {
                let mut out = String::new();
                push_char(&mut out, v as char);
                let rest = decode_range(s, from + 3, to);
                out.append(rest.as_str());
                proof {
                    assert(starts_with_escape(piece));
                    assert(piece.skip(3) =~= s@.subrange(from + 3 as int, to as int));
                    assert(Seq::<char>::empty().push(v as char) =~= seq![(v as char)]);
                    assert(out@ =~= decoded(piece));
                }
                return out;
            }
        }
    }
    let mut out = String::new();
    push_char(&mut out, c);
    let rest = decode_range(s, from + 1, to);
    out.append(rest.as_str());
    proof {
        assert(!starts_with_escape(piece));
        assert(piece.skip(1) =~= s@.subrange(from + 1 as int, to as int));
        assert(Seq::<char>::empty().push(piece[0]) =~= seq![piece[0]]);
        assert(out@ =~= decoded(piece));
    }
    out
}

/// Parses the piece `s[from..to]` into its zero or one parameter pairs.
fn parse_piece(s: &str, from: usize, to: usize) -> (r: Vec<(String, String)>)
    requires
        from <= to <= s@.len(),
    ensures
        pairs_view(r@) == parsed_piece(s@.subrange(from as int, to as int)),
    decreases to - from,
{
    let ghost piece = s@.subrange(from as int, to as int);
    if from == to {
        let r: Vec<(String, String)> = Vec::new();
        proof {
            assert(pairs_view(r@) =~= parsed_piece(piece));
        }
        return r;
    }
    let eq = find_char_in(s, from, to, '=');
    if eq == to {
        let key = decode_range(s, from, to);
        let r: Vec<(String, String)> = vec![(key, String::new())];
        proof {
            assert(pairs_view(r@) =~~= parsed_piece(piece));
        }
        r
    } else {
        let key = decode_range(s, from, eq);
        let value = decode_range(s, eq + 1, to);
        proof {
            let j = find_char(piece, '=') as int;
            assert(piece.take(j) =~= s@.subrange(from as int, eq as int));
            assert(piece.skip(j + 1) =~= s@.subrange(eq + 1 as int, to as int));
        }
        let r: Vec<(String, String)> = vec![(key, value)];
        proof {
            assert(pairs_view(r@) =~~= parsed_piece(piece));
        }
        r
    }
}

/// Parses `s[from..]` as a query string.
fn parse_query_from(s: &str, from: usize) -> (r: Vec<(String, String)>)
    requires
        from <= s@.len(),
    ensures
        pairs_view(r@) == parsed_query(s@.skip(from as int)),
    decreases s@.len() - from,
{
    let ghost suffix = s@.skip(from as int);
    let n = s.unicode_len();
    let amp = find_char_in(s, from, n, '&');
    proof {
        assert(s@.subrange(from as int, n as int) =~= suffix);
    }
    if amp == n {
        let r = parse_piece(s, from, n);
        proof {
            assert(pairs_view(r@) =~= parsed_query(suffix));
        }
        r
    } else {
        let mut r = parse_piece(s, from, amp);
        let mut rest = parse_query_from(s, amp + 1);
        proof {
            let i = find_char(suffix, '&') as int;
            assert(suffix.take(i) =~= s@.subrange(from as int, amp as int));
            assert(suffix.skip(i + 1) =~= s@.skip(amp + 1 as int));
        }
        r.append(&mut rest);
        proof {
            assert(pairs_view(r@) =~~= parsed_query(suffix));
        }
        r
    }
}

/// Parses a raw query string into its key/value parameters, in order of
/// appearance, with both sides percent-decoded.
pub fn parse_query(s: &str) -> (r: Vec<(String, String)>)
    ensures
        pairs_view(r@) == parsed_query(s@),
{
    let r = parse_query_from(s, 0);
    proof {
        assert(s@.skip(0) =~= s@);
    }
    r
}

} // verus!
