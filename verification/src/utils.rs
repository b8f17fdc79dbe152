//! Byte-string utilities for the command line: whitespace splitting,
//! trimming, and hexadecimal and decimal number parsing.

use vstd::prelude::*;

verus! {

/// Whether a byte separates command-line words.
pub open spec fn spec_is_ws(b: u8) -> bool {
    b == 0x20 || b == 0x09
}

/// The whitespace-separated words of a byte string, accumulated left to
/// right: `cur` is the word in progress, `acc` the words already complete.
pub open spec fn spec_tokenize_acc(s: Seq<u8>, cur: Seq<u8>, acc: Seq<Seq<u8>>) -> Seq<Seq<u8>>
    decreases s.len(),
{
    if s.len() == 0 {
        if cur.len() == 0 {
            acc
        } else {
            acc.push(cur)
        }
    } else if spec_is_ws(s[0]) {
        if cur.len() == 0 {
            spec_tokenize_acc(s.drop_first(), cur, acc)
        } else {
            spec_tokenize_acc(s.drop_first(), Seq::empty(), acc.push(cur))
        }
    } else {
        spec_tokenize_acc(s.drop_first(), cur.push(s[0]), acc)
    }
}

/// The whitespace-separated words of a byte string.
pub open spec fn spec_tokenize(s: Seq<u8>) -> Seq<Seq<u8>> {
    spec_tokenize_acc(s, Seq::empty(), Seq::empty())
}

/// The byte sequences held by a sequence of byte vectors.
pub open spec fn spec_tokens(v: Seq<Vec<u8>>) -> Seq<Seq<u8>> {
    Seq::new(v.len(), |i: int| v[i]@)
}

/// Splits a line into its whitespace-separated words.
pub fn tokenize(line: &Vec<u8>) -> (tokens: Vec<Vec<u8>>)
    ensures
        spec_tokens(tokens@) == spec_tokenize(line@),
{
    let mut tokens: Vec<Vec<u8>> = Vec::new();
    let mut cur: Vec<u8> = Vec::new();
    let n = line.len();
    let mut i: usize = 0;
    proof {
        assert(line@.skip(0) =~= line@);
        assert(spec_tokens(tokens@) =~= Seq::<Seq<u8>>::empty());
    }
    while i < n
        invariant
            i <= n,
            n == line@.len(),
            spec_tokenize(line@) == spec_tokenize_acc(
                line@.skip(i as int),
                cur@,
                spec_tokens(tokens@),
            ),
        decreases n - i,
    {
        let b = line[i];
        proof {
            assert(line@.skip(i as int)[0] == line@[i as int]);
            assert(line@.skip(i as int).drop_first() =~= line@.skip(i + 1));
        }
        if b == 0x20 || b == 0x09 {
            if cur.len() > 0 {
                let ghost toks_before = spec_tokens(tokens@);
                let ghost cur_before = cur@;
                tokens.push(cur);
                cur = Vec::new();
                proof {
                    assert(spec_tokens(tokens@) =~~= toks_before.push(cur_before));
                }
            }
        } else {
            cur.push(b);
        }
        i += 1;
    }
    proof {
        assert(line@.skip(n as int) =~= Seq::<u8>::empty());
    }
    if cur.len() > 0 {
        let ghost toks_before = spec_tokens(tokens@);
        let ghost cur_before = cur@;
        tokens.push(cur);
        proof {
            assert(spec_tokens(tokens@) =~~= toks_before.push(cur_before));
        }
    }
    tokens
}

/// The byte string with its leading whitespace removed.
pub open spec fn spec_trim_start(s: Seq<u8>) -> Seq<u8>
    decreases s.len(),
{
    if s.len() > 0 && spec_is_ws(s[0]) {
        spec_trim_start(s.drop_first())
    } else {
        s
    }
}

/// The byte string with its trailing whitespace removed.
pub open spec fn spec_trim_end(s: Seq<u8>) -> Seq<u8>
    decreases s.len(),
{
    if s.len() > 0 && spec_is_ws(s.last()) {
        spec_trim_end(s.drop_last())
    } else {
        s
    }
}

/// The byte string with whitespace removed at both ends.
pub open spec fn spec_trim(s: Seq<u8>) -> Seq<u8> {
    spec_trim_end(spec_trim_start(s))
}

/// Copies `v[from .. to]` into a fresh vector.
pub fn subvec(v: &Vec<u8>, from: usize, to: usize) -> (out: Vec<u8>)
    requires
        from <= to <= v@.len(),
    ensures
        out@ == v@.subrange(from as int, to as int),
{
    let mut out: Vec<u8> = Vec::new();
    let mut i = from;
    while i < to
        invariant
            from <= i <= to <= v@.len(),
            out@ == v@.subrange(from as int, i as int),
        decreases to - i,
    {
        out.push(v[i]);
        proof {
            assert(out@ =~= v@.subrange(from as int, i + 1));
        }
        i += 1;
    }
    out
}

/// Removes the whitespace at both ends of a byte string.
pub fn trim(v: &Vec<u8>) -> (out: Vec<u8>)
    ensures
        out@ == spec_trim(v@),
{
    let n = v.len();
    let mut start: usize = 0;
    proof {
        assert(v@.skip(0) =~= v@);
    }
    while start < n && (v[start] == 0x20 || v[start] == 0x09)
        invariant
            start <= n,
            n == v@.len(),
            spec_trim_start(v@) == spec_trim_start(v@.skip(start as int)),
        decreases n - start,
    {
        proof {
            assert(v@.skip(start as int)[0] == v@[start as int]);
            assert(v@.skip(start as int).drop_first() =~= v@.skip(start + 1));
        }
        start += 1;
    }
    proof {
        assert(spec_trim_start(v@) == v@.skip(start as int));
    }
    let ghost mid = v@.skip(start as int);
    let mut end: usize = n;
    proof {
        assert(mid.take(n - start) =~= mid);
    }
    while end > start && (v[end - 1] == 0x20 || v[end - 1] == 0x09)
        invariant
            start <= end <= n,
            n == v@.len(),
            mid == v@.skip(start as int),
            spec_trim_end(mid) == spec_trim_end(mid.take(end - start)),
        decreases end,
    {
        proof {
            let part = mid.take(end - start);
            assert(part.last() == v@[end - 1]);
            assert(part.drop_last() =~= mid.take(end - 1 - start));
        }
        end -= 1;
    }
    proof {
        let part = mid.take(end - start);
        assert(spec_trim_end(part) == part);
        assert(v@.subrange(start as int, end as int) =~= part);
    }
    subvec(v, start, end)
}

/// Compares a byte vector with a byte slice for equality.
pub fn bytes_eq(a: &Vec<u8>, b: &[u8]) -> (r: bool)
    ensures
        r == (a@ == b@),
{
    let n = a.len();
    if n != b.len() {
        proof {
            assert(a@.len() != b@.len());
        }
        return false;
    }
    let mut i: usize = 0;
    while i < n
        invariant
            i <= n,
            n == a@.len(),
            n == b@.len(),
            forall|j: int| 0 <= j < i ==> a@[j] == b@[j],
        decreases n - i,
    {
        if a[i] != b[i] {
            return false;
        }
        i += 1;
    }
    proof {
        assert(a@ =~= b@);
    }
    true
}

/// The index where the leading whitespace of a byte vector ends.
pub fn trim_start_index(v: &Vec<u8>) -> (start: usize)
    ensures
        start <= v@.len(),
        v@.skip(start as int) == spec_trim_start(v@),
{
    let n = v.len();
    let mut start: usize = 0;
    proof {
        assert(v@.skip(0) =~= v@);
    }
    while start < n && (v[start] == 0x20 || v[start] == 0x09)
        invariant
            start <= n,
            n == v@.len(),
            spec_trim_start(v@) == spec_trim_start(v@.skip(start as int)),
        decreases n - start,
    {
        proof {
            assert(v@.skip(start as int)[0] == v@[start as int]);
            assert(v@.skip(start as int).drop_first() =~= v@.skip(start + 1));
        }
        start += 1;
    }
    start
}

/// Whether a byte is a hexadecimal digit.
pub open spec fn spec_is_hex_digit(b: u8) -> bool {
    (0x30 <= b <= 0x39) || (0x61 <= b <= 0x66) || (0x41 <= b <= 0x46)
}

/// The value of a hexadecimal digit.
pub open spec fn spec_hex_digit_val(b: u8) -> int {
    if 0x30 <= b <= 0x39 {
        b - 0x30
    } else if 0x61 <= b <= 0x66 {
        b - 0x57
    } else if 0x41 <= b <= 0x46 {
        b - 0x37
    } else {
        0
    }
}

/// Whether every byte of a string is a hexadecimal digit.
pub open spec fn spec_all_hex(s: Seq<u8>) -> bool {
    forall|i: int| 0 <= i < s.len() ==> spec_is_hex_digit(#[trigger] s[i])
}

/// The number a string of hexadecimal digits denotes.
pub open spec fn spec_hex_num(s: Seq<u8>) -> int
    decreases s.len(),
{
    if s.len() == 0 {
        0
    } else {
        spec_hex_num(s.drop_last()) * 16 + spec_hex_digit_val(s.last())
    }
}

/// A digit string's value is never negative.
proof fn lemma_hex_num_nonneg(s: Seq<u8>)
    ensures
        spec_hex_num(s) >= 0,
    decreases s.len(),
{
    if s.len() > 0 {
        lemma_hex_num_nonneg(s.drop_last());
    }
}

/// The value of a prefix never exceeds the value of the whole string.
proof fn lemma_hex_num_prefix(s: Seq<u8>, i: int)
    requires
        0 <= i <= s.len(),
    ensures
        spec_hex_num(s.take(i)) <= spec_hex_num(s),
    decreases s.len() - i,
{
    if i < s.len() {
        assert(s.take(i + 1).drop_last() =~= s.take(i));
        assert(s.take(i + 1).last() == s[i]);
        lemma_hex_num_nonneg(s.take(i));
        lemma_hex_num_prefix(s, i + 1);
    } else {
        assert(s.take(i) =~= s);
    }
}

/// What parsing a hexadecimal string yields: its value, when the string is
/// nonempty, all digits, and in range for 32 bits; nothing otherwise.
pub open spec fn spec_parse_hex_u32(s: Seq<u8>) -> Option<u32> {
    if s.len() > 0 && spec_all_hex(s) && spec_hex_num(s) <= 0xFFFF_FFFF {
        Some(spec_hex_num(s) as u32)
    } else {
        None
    }
}

/// Parses a hexadecimal byte string into a 32-bit value.
pub fn parse_hex_u32(s: &Vec<u8>) -> (r: Option<u32>)
    ensures
        r == spec_parse_hex_u32(s@),
{
    let n = s.len();
    if n == 0 {
        return None;
    }
    let mut acc: u32 = 0;
    let mut i: usize = 0;
    proof {
        assert(s@.take(0) =~= Seq::<u8>::empty());
    }
    while i < n
        invariant
            i <= n,
            n == s@.len(),
            acc == spec_hex_num(s@.take(i as int)),
            spec_all_hex(s@.take(i as int)),
        decreases n - i,
    {
        let b = s[i];
        let d: u8 = if 0x30 <= b && b <= 0x39 {
            b - 0x30
        } else if 0x61 <= b && b <= 0x66 {
            b - 0x57
        } else if 0x41 <= b && b <= 0x46 {
            b - 0x37
        } else {
            proof {
                assert(!spec_is_hex_digit(s@[i as int]));
            }
            return None;
        };
        proof {
            assert(s@.take(i + 1).drop_last() =~= s@.take(i as int));
            assert(s@.take(i + 1).last() == s@[i as int]);
        }
        if acc >= 0x1000_0000 {
            proof {
                lemma_hex_num_prefix(s@, i + 1);
            }
            return None;
        }
        acc = acc * 16 + d as u32;
        proof {
            assert(forall|j: int|
                0 <= j < i + 1 ==> spec_is_hex_digit(#[trigger] s@.take(i + 1)[j]));
        }
        i += 1;
    }
    proof {
        assert(s@.take(n as int) =~= s@);
    }
    Some(acc)
}

/// Whether a byte is a decimal digit.
pub open spec fn spec_is_dec_digit(b: u8) -> bool {
    0x30 <= b <= 0x39
}

/// Whether every byte of a string is a decimal digit.
pub open spec fn spec_all_dec(s: Seq<u8>) -> bool {
    forall|i: int| 0 <= i < s.len() ==> spec_is_dec_digit(#[trigger] s[i])
}

/// The number a string of decimal digits denotes.
pub open spec fn spec_dec_num(s: Seq<u8>) -> int
    decreases s.len(),
{
    if s.len() == 0 {
        0
    } else {
        spec_dec_num(s.drop_last()) * 10 + (s.last() - 0x30)
    }
}

proof fn lemma_dec_num_nonneg(s: Seq<u8>)
    requires
        spec_all_dec(s),
    ensures
        spec_dec_num(s) >= 0,
    decreases s.len(),
{
    if s.len() > 0 {
        assert(spec_all_dec(s.drop_last()));
        lemma_dec_num_nonneg(s.drop_last());
    }
}

proof fn lemma_dec_num_prefix(s: Seq<u8>, i: int)
    requires
        0 <= i <= s.len(),
        spec_all_dec(s),
    ensures
        spec_dec_num(s.take(i)) <= spec_dec_num(s),
    decreases s.len() - i,
{
    if i < s.len() {
        assert(s.take(i + 1).drop_last() =~= s.take(i));
        assert(s.take(i + 1).last() == s[i]);
        assert(spec_all_dec(s.take(i)));
        lemma_dec_num_nonneg(s.take(i));
        lemma_dec_num_prefix(s, i + 1);
    } else {
        assert(s.take(i) =~= s);
    }
}

/// What parsing a decimal string yields: its value, when the string is
/// nonempty, all digits, and in range for 32 bits; nothing otherwise.
pub open spec fn spec_parse_dec_u32(s: Seq<u8>) -> Option<u32> {
    if s.len() > 0 && spec_all_dec(s) && spec_dec_num(s) <= 0xFFFF_FFFF {
        Some(spec_dec_num(s) as u32)
    } else {
        None
    }
}

/// Parses a decimal byte string into a 32-bit value.
pub fn parse_dec_u32(s: &Vec<u8>) -> (r: Option<u32>)
    ensures
        r == spec_parse_dec_u32(s@),
{
    let n = s.len();
    if n == 0 {
        return None;
    }
    let mut acc: u32 = 0;
    let mut i: usize = 0;
    proof {
        assert(s@.take(0) =~= Seq::<u8>::empty());
    }
    while i < n
        invariant
            i <= n,
            n == s@.len(),
            acc == spec_dec_num(s@.take(i as int)),
            spec_all_dec(s@.take(i as int)),
        decreases n - i,
    {
        let b = s[i];
        if !(0x30 <= b && b <= 0x39) {
            proof {
                assert(!spec_is_dec_digit(s@[i as int]));
            }
            return None;
        }
        let d = b - 0x30;
        proof {
            assert(s@.take(i + 1).drop_last() =~= s@.take(i as int));
            assert(s@.take(i + 1).last() == s@[i as int]);
            assert(forall|j: int|
                0 <= j < i + 1 ==> spec_is_dec_digit(#[trigger] s@.take(i + 1)[j]));
        }
        if acc > 429496729 || (acc == 429496729 && d > 5) {
            proof {
                if spec_all_dec(s@) {
                    lemma_dec_num_prefix(s@, i + 1);
                }
            }
            return None;
        }
        acc = acc * 10 + d as u32;
        i += 1;
    }
    proof {
        assert(s@.take(n as int) =~= s@);
    }
    Some(acc)
}

/// The byte string with every leading `0x` pair removed.
pub open spec fn spec_strip_0x(s: Seq<u8>) -> Seq<u8>
    decreases s.len(),
{
    if s.len() >= 2 && s[0] == 0x30 && s[1] == 0x78 {
        spec_strip_0x(s.skip(2))
    } else {
        s
    }
}

/// Removes every leading `0x` prefix from a byte string.
pub fn strip_0x(s: &Vec<u8>) -> (out: Vec<u8>)
    ensures
        out@ == spec_strip_0x(s@),
{
    let n = s.len();
    let mut i: usize = 0;
    proof {
        assert(s@.skip(0) =~= s@);
    }
    while i < n && i + 1 < n && s[i] == 0x30 && s[i + 1] == 0x78
        invariant
            i <= n,
            n == s@.len(),
            spec_strip_0x(s@) == spec_strip_0x(s@.skip(i as int)),
        decreases n - i,
    {
        proof {
            assert(s@.skip(i as int)[0] == s@[i as int]);
            assert(s@.skip(i as int)[1] == s@[i + 1]);
            assert(s@.skip(i as int).skip(2) =~= s@.skip(i + 2));
        }
        i += 2;
    }
    proof {
        assert(spec_strip_0x(s@.skip(i as int)) == s@.skip(i as int));
        assert(s@.subrange(i as int, n as int) =~= s@.skip(i as int));
    }
    subvec(s, i, n)
}

} // verus!
