use vstd::prelude::*;
use crate::errors::Error;
use vstd::string::StringSliceAdditionalSpecFns;

verus! {

/// Whether `b` is an ASCII whitespace byte (space, tab, line feed,
/// vertical tab, form feed or carriage return). Mesh lines are ASCII, so
/// this is the whitespace the line format uses.
pub open spec fn spec_is_space(b: u8) -> bool {
    b == 32 || b == 9 || b == 10 || b == 11 || b == 12 || b == 13
}

/// Whether `b` is an ASCII decimal digit.
pub open spec fn spec_is_digit(b: u8) -> bool {
    48 <= b <= 57
}

/// The numeric value of the ASCII digit `b`.
pub open spec fn spec_digit(b: u8) -> nat
    recommends
        spec_is_digit(b),
{
    (b - 48) as nat
}

/// Whether every byte of `s` is an ASCII decimal digit.
pub open spec fn spec_all_digits(s: Seq<u8>) -> bool {
    forall|k: int| 0 <= k < s.len() ==> spec_is_digit(#[trigger] s[k])
}

/// The number the digit string `s` denotes, most significant digit
/// first.
pub open spec fn spec_digits_value(s: Seq<u8>) -> nat
    decreases s.len(),
{
    if s.len() == 0 {
        0
    } else {
        spec_digits_value(s.drop_last()) * 10 + spec_digit(s.last())
    }
}

/// The digits of an integer token: a single leading `+` sign is
/// dropped.
pub open spec fn spec_token_digits(s: Seq<u8>) -> Seq<u8> {
    if s.len() > 0 && s[0] == 43 {
        s.drop_first()
    } else {
        s
    }
}

/// Whether the token `s` parses as a usize: after an optional leading
/// `+`, at least one digit, nothing else, and a value that fits.
pub open spec fn spec_parses_usize(s: Seq<u8>) -> bool {
    let d = spec_token_digits(s);
    d.len() > 0 && spec_all_digits(d) && spec_digits_value(d) <= usize::MAX
}

/// A digit string is worth at least as much as any of its prefixes.
proof fn lemma_digits_value_take_le(s: Seq<u8>, k: int)
    requires
        0 <= k <= s.len(),
    ensures
        spec_digits_value(s.take(k)) <= spec_digits_value(s),
    decreases s.len(),
{
    if k == s.len() {
        assert(s.take(k) =~= s);
    } else {
        assert(s.drop_last().take(k) =~= s.take(k));
        lemma_digits_value_take_le(s.drop_last(), k);
    }
}

/// The first position at or after `i` whose byte is neither the tag
/// byte nor a plain space; mirrors stripping the line's leading tag.
pub open spec fn spec_skip_prefix(s: Seq<u8>, code: u32, i: int) -> int
    recommends
        0 <= i <= s.len(),
    decreases s.len() - i when 0 <= i <= s.len()
{
    if i < s.len() && (s[i] as u32 == code || s[i] == 32) {
        spec_skip_prefix(s, code, i + 1)
    } else {
        i
    }
}

/// The first position at or after `i` whose byte is not whitespace.
pub open spec fn spec_skip_space(s: Seq<u8>, i: int) -> int
    recommends
        0 <= i <= s.len(),
    decreases s.len() - i when 0 <= i <= s.len()
{
    if i < s.len() && spec_is_space(s[i]) {
        spec_skip_space(s, i + 1)
    } else {
        i
    }
}

/// The first position at or after `i` whose byte is whitespace (or the
/// end): the end of the token starting at `i`.
pub open spec fn spec_token_end(s: Seq<u8>, i: int) -> int
    recommends
        0 <= i <= s.len(),
    decreases s.len() - i when 0 <= i <= s.len()
{
    if i < s.len() && !spec_is_space(s[i]) {
        spec_token_end(s, i + 1)
    } else {
        i
    }
}

/// What `extract` reads from the line: the tag prefix is stripped, the
/// first three whitespace-separated tokens are parsed as integers, and
/// any further tokens are ignored. `None` when fewer than three tokens
/// remain or one of the three does not parse.
pub open spec fn spec_extract(s: Seq<u8>, code: u32) -> Option<(nat, nat, nat)> {
    let p = spec_skip_prefix(s, code, 0);
    let t1 = spec_skip_space(s, p);
    let e1 = spec_token_end(s, t1);
    let t2 = spec_skip_space(s, e1);
    let e2 = spec_token_end(s, t2);
    let t3 = spec_skip_space(s, e2);
    let e3 = spec_token_end(s, t3);
    if t1 < e1 && t2 < e2 && t3 < e3 && spec_parses_usize(s.subrange(t1, e1))
        && spec_parses_usize(s.subrange(t2, e2)) && spec_parses_usize(s.subrange(t3, e3)) {
        Some(
            (
                spec_digits_value(spec_token_digits(s.subrange(t1, e1))),
                spec_digits_value(spec_token_digits(s.subrange(t2, e2))),
                spec_digits_value(spec_token_digits(s.subrange(t3, e3))),
            ),
        )
    } else {
        None
    }
}

/// The token between `start` and `end` parsed as a usize, or `None`
/// when it has no digits, holds a non-digit, or does not fit.
#[verifier::loop_isolation(false)]
fn parse_usize_range(bytes: &[u8], start: usize, end: usize) -> (r: Option<usize>)
    requires
        start <= end <= bytes@.len(),
    ensures
        r is Some <==> spec_parses_usize(bytes@.subrange(start as int, end as int)),
        r is Some ==> r->0 as nat == spec_digits_value(
            spec_token_digits(bytes@.subrange(start as int, end as int)),
        ),
{
    let ghost tok = bytes@.subrange(start as int, end as int);
    let ghost d = spec_token_digits(tok);

    let mut i: usize = start;
    if i < end && bytes[i] == 43 {
        i = i + 1;
    }
    let dstart: usize = i;
    proof {
        assert(d =~= bytes@.subrange(dstart as int, end as int));
    }
    if i == end {
        return None;
    }

    let mut acc: usize = 0;
    while i < end
        invariant
            dstart <= i <= end,
            acc as nat == spec_digits_value(bytes@.subrange(dstart as int, i as int)),
            spec_all_digits(bytes@.subrange(dstart as int, i as int)),
        decreases end - i,
    {
        let b = bytes[i];
        if !(48 <= b && b <= 57) {
            proof {
                assert(!spec_is_digit(d[i - dstart]));
            }
            return None;
        }
        let digit = (b - 48) as usize;
        if acc > (usize::MAX - digit) / 10 {
            proof {
                let grown = bytes@.subrange(dstart as int, i + 1int);
                assert(grown.drop_last() =~= bytes@.subrange(dstart as int, i as int));
                assert(spec_digits_value(grown) > usize::MAX);
                lemma_digits_value_take_le(d, i + 1 - dstart);
                assert(d.take(i + 1 - dstart) =~= grown);
            }
            return None;
        }
        acc = acc * 10 + digit;
        proof {
            let grown = bytes@.subrange(dstart as int, i + 1int);
            assert(grown.drop_last() =~= bytes@.subrange(dstart as int, i as int));
            assert(grown.last() == bytes@[i as int]);
        }
        i = i + 1;
    }
    proof {
        assert(bytes@.subrange(dstart as int, end as int) =~= d);
    }
    Some(acc)
}

/// Whether `b` is an ASCII whitespace byte.
fn is_space_byte(b: u8) -> (r: bool)
    ensures
        r == spec_is_space(b),
{
    b == 32 || b == 9 || b == 10 || b == 11 || b == 12 || b == 13
}

/// Whether `b` is the tag byte or a plain space.
fn is_prefix_byte(b: u8, code: u32) -> (r: bool)
    ensures
        r == ((b as u32) == code || b == 32),
{
    (b as u32) == code || b == 32
}

/// The start and end of the next whitespace-separated token at or after
/// `from`: the token is `bytes[r.0 .. r.1]`, empty when the line is
/// exhausted.
#[verifier::loop_isolation(false)]
fn next_token(bytes: &[u8], from: usize) -> (r: (usize, usize))
    requires
        from <= bytes@.len(),
    ensures
        r.0 as int == spec_skip_space(bytes@, from as int),
        r.1 as int == spec_token_end(bytes@, r.0 as int),
        from <= r.0 <= r.1 <= bytes@.len(),
{
    let n = bytes.len();
    let mut i: usize = from;
    while i < n && is_space_byte(bytes[i])
        invariant
            from <= i <= n,
            spec_skip_space(bytes@, from as int) == spec_skip_space(bytes@, i as int),
        decreases n - i,
    {
        i = i + 1;
    }
    let start: usize = i;
    while i < n && !is_space_byte(bytes[i])
        invariant
            start <= i <= n,
            spec_token_end(bytes@, start as int) == spec_token_end(bytes@, i as int),
        decreases n - i,
    {
        i = i + 1;
    }
    (start, i)
}

/// Reads three integers from a tagged mesh line: the leading run of tag
/// and space characters is stripped, the first three remaining
/// whitespace-separated tokens are parsed, and any further tokens are
/// ignored. Fails with the parse error, and only then, when fewer than
/// three tokens remain or one of the three is not an integer. The tag
/// must be an ASCII character, as the line format's tags are.
#[verifier::loop_isolation(false)]
pub fn extract(tag: char, line: &str) -> (r: Result<(usize, usize, usize), Error>)
    requires
        (tag as u32) < 128,
    ensures
        r is Ok <==> spec_extract(line.spec_bytes(), tag as u32) is Some,
        r is Ok ==> Some(
            ((r->Ok_0.0 as nat, r->Ok_0.1 as nat, r->Ok_0.2 as nat)),
        ) == spec_extract(line.spec_bytes(), tag as u32),
        r is Err ==> r->Err_0 == Error::ParseError,
{
    let bytes = line.as_bytes();
    let n = bytes.len();
    let code = tag as u32;

    let mut i: usize = 0;
    while i < n && is_prefix_byte(bytes[i], code)
        invariant
            i <= n,
            spec_skip_prefix(bytes@, code, 0) == spec_skip_prefix(bytes@, code, i as int),
        decreases n - i,
    {
        i = i + 1;
    }

    let (t1, e1) = next_token(bytes, i);
    let (t2, e2) = next_token(bytes, e1);
    let (t3, e3) = next_token(bytes, e2);
    if t1 == e1 || t2 == e2 || t3 == e3 {
        return Err(Error::ParseError);
    }

    let a = parse_usize_range(bytes, t1, e1);
    let b = parse_usize_range(bytes, t2, e2);
    let c = parse_usize_range(bytes, t3, e3);
    match (a, b, c) {
        (Some(x), Some(y), Some(z)) => Ok((x, y, z)),
        _ => Err(Error::ParseError),
    }
}

/// The decimal digits of `n`, most significant first.
pub open spec fn spec_dec(n: nat) -> Seq<u8>
    decreases n,
{
    if n < 10 {
        seq![(48 + n) as u8]
    } else {
        spec_dec(n / 10) + seq![(48 + n % 10) as u8]
    }
}

/// Appends the decimal digits of `n` to `out`.
pub fn push_dec(n: usize, out: &mut Vec<u8>)
    ensures
        final(out)@ == old(out)@ + spec_dec(n as nat),
    decreases n,
{
    if n < 10 {
        out.push(48 + (n as u8));
        proof {
            assert(out@ =~= old(out)@ + spec_dec(n as nat));
        }
    } else {
        push_dec(n / 10, out);
        out.push(48 + ((n % 10) as u8));
        proof {
            assert(out@ =~= old(out)@ + spec_dec(n as nat));
        }
    }
}

/// Every byte of a decimal rendering is an ASCII digit.
pub proof fn lemma_dec_ascii(n: nat)
    ensures
        forall|k: int| 0 <= k < spec_dec(n).len() ==> spec_is_digit(#[trigger] spec_dec(n)[k]),
    decreases n,
{
    if n < 10 {
        assert(spec_dec(n) =~= seq![(48 + n) as u8]);
    } else {
        lemma_dec_ascii(n / 10);
        let pre = spec_dec(n / 10);
        assert forall|k: int| 0 <= k < spec_dec(n).len() implies spec_is_digit(
            spec_dec(n)[k],
        ) by {
            if k < pre.len() {
                assert(spec_dec(n)[k] == pre[k]);
            } else {
                assert(spec_dec(n)[k] == (48 + n % 10) as u8);
            }
        }
    }
}

/// Relies on String::from_utf8: a vector of ASCII bytes becomes the
/// string of exactly those characters.
#[verifier::external_body]
pub fn string_from_ascii(v: Vec<u8>) -> (r: String)
    requires
        forall|k: int| 0 <= k < v@.len() ==> v@[k] < 128,
    ensures
        r@.len() == v@.len(),
        forall|k: int| 0 <= k < v@.len() ==> r@[k] == v@[k] as char,
{
    match String::from_utf8(v) {
        Ok(s) => s,
        Err(_) => String::new(),
    }
}

} // verus!
