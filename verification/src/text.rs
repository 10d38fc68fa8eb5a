//! Text: comparing, splitting, joining, and writing numbers.

use vstd::prelude::*;
use vstd::string::*;
use vstd::utf8::*;

verus! {

/// `String::push` appends one character.
pub assume_specification[ String::push ](s: &mut String, c: char)
    ensures
        final(s)@ == old(s)@.push(c),
;

/// Whether two texts hold the same characters.
pub fn text_eq(a: &str, b: &str) -> (r: bool)
    ensures
        r == (a@ == b@),
{
    let x = a.as_bytes();
    let y = b.as_bytes();
    proof {
        encode_utf8_decode_utf8(a@);
        encode_utf8_decode_utf8(b@);
    }
    if x.len() != y.len() {
        return false;
    }
    let mut i: usize = 0;
    while i < x.len()
        invariant
            i <= x.len(),
            x@.len() == y@.len(),
            forall|k: int| 0 <= k < i ==> x@[k] == y@[k],
            x@ == encode_utf8(a@),
            y@ == encode_utf8(b@),
            decode_utf8(encode_utf8(a@)) == a@,
            decode_utf8(encode_utf8(b@)) == b@,
        decreases x.len() - i,
    {
        if x[i] != y[i] {
            return false;
        }
        i += 1;
    }
    assert(x@ =~= y@);
    true
}

/// How many characters of `s` stand before the first `sep`; the length of
/// `s` where it holds no `sep`.
pub open spec fn position(s: Seq<char>, sep: char) -> nat
    decreases s.len(),
{
    if s.len() == 0 {
        0
    } else if s[0] == sep {
        0
    } else {
        1 + position(s.drop_first(), sep)
    }
}

/// What stands before the first `sep`: all of `s` where it holds none.
pub open spec fn head(s: Seq<char>, sep: char) -> Seq<char> {
    s.subrange(0, position(s, sep) as int)
}

/// What stands after the first `sep`, where `s` holds one.
pub open spec fn tail(s: Seq<char>, sep: char) -> Option<Seq<char>> {
    if position(s, sep) < s.len() {
        Some(s.subrange(position(s, sep) as int + 1, s.len() as int))
    } else {
        None
    }
}

/// `position` is the least index at which `sep` stands.
pub proof fn lemma_position(s: Seq<char>, sep: char)
    ensures
        position(s, sep) <= s.len(),
        forall|k: int| 0 <= k < position(s, sep) ==> s[k] != sep,
        position(s, sep) < s.len() ==> s[position(s, sep) as int] == sep,
    decreases s.len(),
{
    if s.len() != 0 && s[0] != sep {
        let rest = s.drop_first();
        lemma_position(rest, sep);
        assert forall|k: int| 0 <= k < position(s, sep) implies s[k] != sep by {
            if k > 0 {
                assert(s[k] == rest[k - 1]);
            }
        }
        if position(s, sep) < s.len() {
            assert(s[position(s, sep) as int] == rest[position(rest, sep) as int]);
        }
    }
}

/// An index before which no `sep` stands, and which ends `s` or holds a
/// `sep`, is the `position`.
pub proof fn lemma_position_is(s: Seq<char>, sep: char, i: int)
    requires
        0 <= i <= s.len(),
        forall|k: int| 0 <= k < i ==> s[k] != sep,
        i == s.len() || s[i] == sep,
    ensures
        position(s, sep) == i,
{
    lemma_position(s, sep);
    let p = position(s, sep) as int;
    if p < i {
        assert(s[p] == sep);
    }
}

/// A text is its head, and where it holds a `sep`, that `sep` and its tail;
/// the head holds no `sep`.
pub proof fn lemma_head_and_tail(s: Seq<char>, sep: char)
    ensures
        !head(s, sep).contains(sep),
        match tail(s, sep) {
            Some(t) => s == head(s, sep).push(sep) + t,
            None => s == head(s, sep) && !s.contains(sep),
        },
{
    lemma_position(s, sep);
    let p = position(s, sep) as int;
    if head(s, sep).contains(sep) {
        let k = choose|k: int| 0 <= k < head(s, sep).len() && head(s, sep)[k] == sep;
        assert(s[k] == sep);
    }
    if p < s.len() {
        assert(s =~= head(s, sep).push(sep) + s.subrange(p + 1, s.len() as int));
    } else {
        assert(s =~= head(s, sep));
    }
}

/// Splits `s` at its first `sep`, which goes to neither part.
pub fn split_first(s: &str, sep: char) -> (r: (String, Option<String>))
    ensures
        r.0@ == head(s@, sep),
        match r.1 {
            Some(t) => tail(s@, sep) == Some(t@),
            None => tail(s@, sep) is None,
        },
{
    let mut before = String::new();
    let mut after = String::new();
    let mut found = false;
    let ghost mut at: int = 0;
    for c in it: s.chars()
        invariant
            it.seq() == s@,
            0 <= it.index() <= s@.len(),
            !found ==> at == it.index() && after@.len() == 0,
            found ==> 0 <= at < it.index() && s@[at] == sep,
            forall|k: int| 0 <= k < at ==> s@[k] != sep,
            0 <= at <= s@.len(),
            before@ =~= s@.subrange(0, at),
            found ==> after@ =~= s@.subrange(at + 1, it.index() as int),
    {
        if found {
            after.push(c);
        } else if c == sep {
            found = true;
        } else {
            before.push(c);
            proof {
                at = at + 1;
            }
        }
    }
    proof {
        lemma_position_is(s@, sep, at);
    }
    if found {
        (before, Some(after))
    } else {
        (before, None)
    }
}

/// The decimal digit for a number below ten.
pub open spec fn digit_char(d: nat) -> char {
    if d == 0 {
        '0'
    } else if d == 1 {
        '1'
    } else if d == 2 {
        '2'
    } else if d == 3 {
        '3'
    } else if d == 4 {
        '4'
    } else if d == 5 {
        '5'
    } else if d == 6 {
        '6'
    } else if d == 7 {
        '7'
    } else if d == 8 {
        '8'
    } else {
        '9'
    }
}

/// `n` in decimal digits, without leading zeros.
pub open spec fn decimal(n: nat) -> Seq<char>
    decreases n,
{
    if n < 10 {
        seq![digit_char(n)]
    } else {
        decimal(n / 10).push(digit_char(n % 10))
    }
}

fn digit(d: usize) -> (r: char)
    requires
        d < 10,
    ensures
        r == digit_char(d as nat),
{
    if d == 0 {
        '0'
    } else if d == 1 {
        '1'
    } else if d == 2 {
        '2'
    } else if d == 3 {
        '3'
    } else if d == 4 {
        '4'
    } else if d == 5 {
        '5'
    } else if d == 6 {
        '6'
    } else if d == 7 {
        '7'
    } else if d == 8 {
        '8'
    } else {
        '9'
    }
}

/// Writes `n` in decimal digits.
pub fn decimal_string(n: usize) -> (r: String)
    ensures
        r@ == decimal(n as nat),
    decreases n,
{
    if n < 10 {
        let mut out = String::new();
        out.push(digit(n));
        assert(out@ =~= seq![digit_char(n as nat)]);
        out
    } else {
        let mut out = decimal_string(n / 10);
        out.push(digit(n % 10));
        out
    }
}

/// `a` followed by `b`.
pub fn join(a: &str, b: &str) -> (r: String)
    ensures
        r@ == a@ + b@,
{
    let mut out = String::from_str(a);
    out.append(b);
    out
}

} // verus!
