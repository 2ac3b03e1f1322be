//! The standard base64 encoding with padding, which the value of a basic
//! `Authorization` header carries, and its decoding: each group of three
//! bytes becomes four characters of the alphabet `A`-`Z`, `a`-`z`, `0`-`9`,
//! `+`, `/`, and a last group of one or two bytes is padded with `=`.
use crate::text::push_char;
use vstd::prelude::*;

verus! {

/// The character of the alphabet for a six-bit value.
pub open spec fn base64_char(v: int) -> char {
    if v < 26 {
        ((65 + v) as u32) as char
    } else if v < 52 {
        ((97 + v - 26) as u32) as char
    } else if v < 62 {
        ((48 + v - 52) as u32) as char
    } else if v == 62 {
        '+'
    } else {
        '/'
    }
}

/// The six-bit value a character of the alphabet stands for.
pub open spec fn base64_value(c: char) -> int {
    if 'A' <= c <= 'Z' {
        c as int - 65
    } else if 'a' <= c <= 'z' {
        c as int - 97 + 26
    } else if '0' <= c <= '9' {
        c as int - 48 + 52
    } else if c == '+' {
        62
    } else {
        63
    }
}

/// The base64 text of `b`.
pub open spec fn base64(b: Seq<u8>) -> Seq<char>
    decreases b.len(),
{
    if b.len() == 0 {
        Seq::empty()
    } else {
        let x = b[0] as int;
        let y = if b.len() > 1 { b[1] as int } else { 0 };
        let z = if b.len() > 2 { b[2] as int } else { 0 };
        let c0 = base64_char(x / 4);
        let c1 = base64_char((x % 4) * 16 + y / 16);
        let c2 = base64_char((y % 16) * 4 + z / 64);
        let c3 = base64_char(z % 64);
        if b.len() == 1 {
            seq![c0, c1, '=', '=']
        } else if b.len() == 2 {
            seq![c0, c1, c2, '=']
        } else {
            seq![c0, c1, c2, c3] + base64(b.subrange(3, b.len() as int))
        }
    }
}

/// The bytes a base64 text stands for, four characters at a time.
pub open spec fn base64_decode(s: Seq<char>) -> Seq<u8>
    decreases s.len(),
{
    if s.len() < 4 {
        Seq::empty()
    } else {
        let v0 = base64_value(s[0]);
        let v1 = base64_value(s[1]);
        let v2 = base64_value(s[2]);
        let v3 = base64_value(s[3]);
        let b0 = (v0 * 4 + v1 / 16) as u8;
        let b1 = ((v1 % 16) * 16 + v2 / 4) as u8;
        let b2 = ((v2 % 4) * 64 + v3) as u8;
        let group = if s[2] == '=' {
            seq![b0]
        } else if s[3] == '=' {
            seq![b0, b1]
        } else {
            seq![b0, b1, b2]
        };
        group + base64_decode(s.subrange(4, s.len() as int))
    }
}

proof fn lemma_char_value(v: int)
    requires
        0 <= v < 64,
    ensures
        base64_value(base64_char(v)) == v,
        base64_char(v) != '=',
{
}

proof fn lemma_group_arith(x: int, y: int, z: int)
    requires
        0 <= x < 256,
        0 <= y < 256,
        0 <= z < 256,
    ensures
        (x / 4) * 4 + ((x % 4) * 16 + y / 16) / 16 == x,
        (((x % 4) * 16 + y / 16) % 16) * 16 + ((y % 16) * 4 + z / 64) / 4 == y,
        (((y % 16) * 4 + z / 64) % 4) * 64 + z % 64 == z,
        0 <= x / 4 < 64,
        0 <= (x % 4) * 16 + y / 16 < 64,
        0 <= (y % 16) * 4 + z / 64 < 64,
        0 <= z % 64 < 64,
{
    assert(((x % 4) * 16 + y / 16) / 16 == x % 4) by (nonlinear_arith)
        requires
            0 <= x % 4 < 4,
            0 <= y / 16 < 16,
    ;
    assert(((x % 4) * 16 + y / 16) % 16 == y / 16) by (nonlinear_arith)
        requires
            0 <= x % 4 < 4,
            0 <= y / 16 < 16,
    ;
    assert(((y % 16) * 4 + z / 64) / 4 == y % 16) by (nonlinear_arith)
        requires
            0 <= y % 16 < 16,
            0 <= z / 64 < 4,
    ;
    assert(((y % 16) * 4 + z / 64) % 4 == z / 64) by (nonlinear_arith)
        requires
            0 <= y % 16 < 16,
            0 <= z / 64 < 4,
    ;
}

/// Decoding the base64 text of bytes gives the bytes back.
pub proof fn lemma_base64_round_trip(b: Seq<u8>)
    ensures
        base64_decode(base64(b)) == b,
    decreases b.len(),
{
    let s = base64(b);
    if b.len() == 0 {
    } else if b.len() <= 2 {
        let x = b[0] as int;
        let y = if b.len() > 1 { b[1] as int } else { 0 };
        lemma_group_arith(x, y, 0);
        lemma_char_value(x / 4);
        if b.len() == 1 {
            lemma_char_value((x % 4) * 16);
            assert(s.len() == 4);
            assert(s[2] == '=');
            assert(base64_value(s[0]) == x / 4);
            assert(base64_value(s[1]) == (x % 4) * 16);
            assert(s.subrange(4, 4) =~= Seq::<char>::empty());
            assert(base64_decode(s.subrange(4, 4)) =~= Seq::<u8>::empty());
            assert(base64_decode(s)[0] == b[0]);
            assert(base64_decode(s) =~= b);
        } else {
            let y = b[1] as int;
            lemma_char_value((x % 4) * 16 + y / 16);
            lemma_char_value((y % 16) * 4);
            assert(s.len() == 4);
            assert(s[2] != '=');
            assert(s[3] == '=');
            assert(base64_value(s[0]) == x / 4);
            assert(base64_value(s[1]) == (x % 4) * 16 + y / 16);
            assert(base64_value(s[2]) == (y % 16) * 4);
            assert(s.subrange(4, 4) =~= Seq::<char>::empty());
            assert(base64_decode(s.subrange(4, 4)) =~= Seq::<u8>::empty());
            assert(base64_decode(s)[0] == b[0]);
            assert(base64_decode(s)[1] == b[1]);
            assert(base64_decode(s) =~= b);
        }
    } else {
        let x = b[0] as int;
        let y = b[1] as int;
        let z = b[2] as int;
        let rest = b.subrange(3, b.len() as int);
        lemma_group_arith(x, y, z);
        lemma_char_value(x / 4);
        lemma_char_value((x % 4) * 16 + y / 16);
        lemma_char_value((y % 16) * 4 + z / 64);
        lemma_char_value(z % 64);
        lemma_base64_round_trip(rest);
        assert(s.subrange(4, s.len() as int) =~= base64(rest));
        assert(base64_decode(s) =~= b);
    }
}

/// The character of the alphabet for `v`.
fn base64_digit(v: u8) -> (c: char)
    requires
        v < 64,
    ensures
        c == base64_char(v as int),
{
    if v < 26 {
        (65u8 + v) as char
    } else if v < 52 {
        (97u8 + (v - 26)) as char
    } else if v < 62 {
        (48u8 + (v - 52)) as char
    } else if v == 62 {
        '+'
    } else {
        '/'
    }
}

/// Appends the base64 text of `b`.
pub fn push_base64(out: &mut String, b: &[u8])
    ensures
        final(out)@ == old(out)@ + base64(b@),
{
    let n = b.len();
    let mut i: usize = 0;
    let ghost all = b@;
    let ghost mut done: Seq<char> = Seq::empty();
    assert(all.subrange(0, n as int) =~= all);
    while n - i >= 3
        invariant
            i <= n == b.len(),
            all == b@,
            out@ == old(out)@ + done,
            done + base64(all.subrange(i as int, n as int)) == base64(all),
        decreases n - i,
    {
        let x = b[i];
        let y = b[i + 1];
        let z = b[i + 2];
        let ghost rest = all.subrange(i as int, n as int);
        assert(rest.subrange(3, rest.len() as int) =~= all.subrange(i + 3, n as int));
        let c0 = base64_digit(x / 4);
        let c1 = base64_digit((x % 4) * 16 + y / 16);
        let c2 = base64_digit((y % 16) * 4 + z / 64);
        let c3 = base64_digit(z % 64);
        push_char(out, c0);
        push_char(out, c1);
        push_char(out, c2);
        push_char(out, c3);
        proof {
            let group = seq![c0, c1, c2, c3];
            assert(base64(rest) == group + base64(all.subrange(i + 3, n as int)));
            done = done + group;
            assert(out@ =~= old(out)@ + done);
        }
        i = i + 3;
    }
    let ghost rest = all.subrange(i as int, n as int);
    if n - i == 1 {
        let x = b[i];
        let c0 = base64_digit(x / 4);
        let c1 = base64_digit((x % 4) * 16 + 0);
        push_char(out, c0);
        push_char(out, c1);
        push_char(out, '=');
        push_char(out, '=');
        assert(base64(rest) =~= seq![c0, c1, '=', '=']);
    } else if n - i == 2 {
        let x = b[i];
        let y = b[i + 1];
        let c0 = base64_digit(x / 4);
        let c1 = base64_digit((x % 4) * 16 + y / 16);
        let c2 = base64_digit((y % 16) * 4 + 0);
        push_char(out, c0);
        push_char(out, c1);
        push_char(out, c2);
        push_char(out, '=');
        assert(base64(rest) =~= seq![c0, c1, c2, '=']);
    } else {
        assert(rest =~= Seq::<u8>::empty());
    }
    assert(out@ =~= old(out)@ + base64(all));
}

} // verus!
