//! Verified text handling: decimal rendering of integers, and the character
//! transformations the format decoder normalizes its input with.

use vstd::prelude::*;
use vstd::string::*;

verus! {

/// The decimal digit character for a value below ten.
pub open spec fn digit_char(d: nat) -> char
    recommends
        d < 10,
{
    (0x30 + d) as u8 as char
}

/// The decimal digits of `n`, most significant first; empty for zero.
pub open spec fn digits_of(n: nat) -> Seq<char>
    decreases n,
{
    if n == 0 {
        Seq::empty()
    } else {
        digits_of(n / 10) + seq![digit_char(n % 10)]
    }
}

/// The decimal rendering of a natural number: "0" for zero, otherwise its
/// digits, most significant first.
pub open spec fn decimal_of(n: nat) -> Seq<char> {
    if n == 0 {
        seq!['0']
    } else {
        digits_of(n)
    }
}

/// Appends one character to a string.
/// Relies on String::push: it appends exactly the given character.
#[verifier::external_body]
pub(crate) fn push_char(s: &mut String, c: char)
    ensures
        final(s)@ == old(s)@ + seq![c],
{
    s.push(c);
}

/// Renders `n` in decimal, most significant digit first.
pub fn u64_to_decimal(n: u64) -> (r: String)
    ensures
        r@ == decimal_of(n as nat),
{
    let digits = u64_dec_chars(n);
    string_of_chars(&digits)
}

/// The decimal digits of `n`, most significant first, as characters.
pub fn u64_dec_chars(n: u64) -> (r: Vec<char>)
    ensures
        r@ == decimal_of(n as nat),
{
    let mut r: Vec<char> = Vec::new();
    if n == 0 {
        r.push('0');
        proof {
            assert(r@ =~= decimal_of(0));
        }
        return r;
    }
    let mut digits: Vec<char> = Vec::new();
    let mut rest: u64 = n;
    while rest > 0
        invariant
            digits_of(n as nat) =~= digits_of(rest as nat) + digits@.reverse(),
        decreases rest,
    {
        let ghost old_digits = digits@;
        let ghost old_rest = rest as nat;
        let d: u8 = (rest % 10) as u8;
        digits.push((0x30 + d) as char);
        rest = rest / 10;
        proof {
            assert(digits@ == old_digits + seq![digit_char(old_rest % 10)]);
            assert(digits@.reverse() =~= seq![digit_char(old_rest % 10)] + old_digits.reverse());
            assert(digits_of(n as nat) =~= digits_of(rest as nat) + digits@.reverse());
        }
    }
    let len: usize = digits.len();
    let mut i: usize = 0;
    while i < len
        invariant
            len == digits@.len(),
            i <= len,
            r@ =~= digits@.reverse().take(i as int),
        decreases len - i,
    {
        r.push(digits[len - 1 - i]);
        i = i + 1;
        proof {
            assert(r@ =~= digits@.reverse().take(i as int));
        }
    }
    proof {
        assert(r@ =~= digits@.reverse());
    }
    r
}

/// Appends the characters of `src` to `dst`, keeping `src`.
pub fn extend_chars(dst: &mut Vec<char>, src: &Vec<char>)
    ensures
        final(dst)@ == old(dst)@ + src@,
{
    let len = src.len();
    let mut i: usize = 0;
    proof {
        assert(dst@ =~= old(dst)@ + src@.take(0));
    }
    while i < len
        invariant
            len == src@.len(),
            i <= len,
            dst@ == old(dst)@ + src@.take(i as int),
        decreases len - i,
    {
        dst.push(src[i]);
        i += 1;
        proof {
            assert(dst@ =~= old(dst)@ + src@.take(i as int));
        }
    }
    proof {
        assert(src@.take(len as int) =~= src@);
    }
}

/// The lower-case hexadecimal digit character for a value below sixteen.
pub open spec fn hex_digit(d: nat) -> char
    recommends
        d < 16,
{
    if d < 10 {
        digit_char(d)
    } else {
        ((87 + d) as u8) as char
    }
}

/// The lower-case hexadecimal rendering of a byte sequence, two digits per
/// byte.
pub open spec fn hex_of(bytes: Seq<u8>) -> Seq<char>
    decreases bytes.len(),
{
    if bytes.len() == 0 {
        Seq::empty()
    } else {
        seq![hex_digit((bytes[0] >> 4) as nat), hex_digit((bytes[0] & 0x0f) as nat)]
            + hex_of(bytes.drop_first())
    }
}

/// Appending a byte appends its two digits.
proof fn lemma_hex_snoc(s: Seq<u8>, b: u8)
    ensures
        hex_of(s.push(b)) == hex_of(s) + seq![
            hex_digit((b >> 4) as nat),
            hex_digit((b & 0x0f) as nat),
        ],
    decreases s.len(),
{
    let pair = seq![hex_digit((b >> 4) as nat), hex_digit((b & 0x0f) as nat)];
    if s.len() == 0 {
        assert(s.push(b)[0] == b);
        assert(s.push(b).drop_first() =~= Seq::<u8>::empty());
        assert(hex_of(Seq::<u8>::empty()) == Seq::<char>::empty());
        assert(s.push(b).len() == 1);
        assert(hex_of(s.push(b)) == pair + hex_of(s.push(b).drop_first()));
        assert(hex_of(s) == Seq::<char>::empty());
        assert(pair + Seq::<char>::empty() =~= Seq::<char>::empty() + pair);
    } else {
        assert(s.push(b)[0] == s[0]);
        assert(s.push(b).drop_first() =~= s.drop_first().push(b));
        lemma_hex_snoc(s.drop_first(), b);
        let head = seq![hex_digit((s[0] >> 4) as nat), hex_digit((s[0] & 0x0f) as nat)];
        assert(s.push(b).len() > 0);
        assert(hex_of(s.push(b)) == head + hex_of(s.push(b).drop_first()));
        assert(hex_of(s) == head + hex_of(s.drop_first()));
        assert(head + (hex_of(s.drop_first()) + pair) =~= (head + hex_of(s.drop_first())) + pair);
    }
}

/// Hex output has two digits per byte.
pub proof fn lemma_hex_len(bytes: Seq<u8>)
    ensures
        hex_of(bytes).len() == 2 * bytes.len(),
    decreases bytes.len(),
{
    if bytes.len() > 0 {
        lemma_hex_len(bytes.drop_first());
    }
}

/// Hex digits of distinct values differ.
proof fn lemma_hex_digit_injective(d1: nat, d2: nat)
    requires
        d1 < 16,
        d2 < 16,
        hex_digit(d1) == hex_digit(d2),
    ensures
        d1 == d2,
{
    assert(hex_digit(d1) as u32 == hex_digit(d2) as u32);
}

/// Hex rendering loses nothing: two byte sequences with the same rendering
/// are the same sequence. The key a finding reports in hex therefore
/// determines the original serialized key exactly.
pub proof fn lemma_hex_of_injective(a: Seq<u8>, b: Seq<u8>)
    requires
        hex_of(a) == hex_of(b),
    ensures
        a == b,
    decreases a.len(),
{
    lemma_hex_len(a);
    lemma_hex_len(b);
    if a.len() == 0 {
        assert(a =~= b);
    } else {
        let a0 = a[0];
        let b0 = b[0];
        assert((a0 >> 4) < 16 && (a0 & 0x0f) < 16) by (bit_vector);
        assert((b0 >> 4) < 16 && (b0 & 0x0f) < 16) by (bit_vector);
        assert(hex_of(a)[0] == hex_digit((a0 >> 4) as nat));
        assert(hex_of(a)[1] == hex_digit((a0 & 0x0f) as nat));
        assert(hex_of(b)[0] == hex_digit((b0 >> 4) as nat));
        assert(hex_of(b)[1] == hex_digit((b0 & 0x0f) as nat));
        lemma_hex_digit_injective((a0 >> 4) as nat, (b0 >> 4) as nat);
        lemma_hex_digit_injective((a0 & 0x0f) as nat, (b0 & 0x0f) as nat);
        assert(a0 >> 4 == b0 >> 4 && a0 & 0x0f == b0 & 0x0f ==> a0 == b0) by (bit_vector);
        assert forall|k: int| 0 <= k < hex_of(a.drop_first()).len() implies hex_of(
            a.drop_first(),
        )[k] == hex_of(b.drop_first())[k] by {
            assert(hex_of(a)[k + 2] == hex_of(a.drop_first())[k]);
            assert(hex_of(b)[k + 2] == hex_of(b.drop_first())[k]);
        }
        lemma_hex_len(a.drop_first());
        lemma_hex_len(b.drop_first());
        assert(hex_of(a.drop_first()) =~= hex_of(b.drop_first()));
        lemma_hex_of_injective(a.drop_first(), b.drop_first());
        assert(a.len() == b.len());
        assert forall|k: int| 0 <= k < a.len() implies a[k] == b[k] by {
            if k > 0 {
                assert(a.drop_first()[k - 1] == b.drop_first()[k - 1]);
            }
        }
        assert(a =~= b);
    }
}

/// Renders bytes in lower-case hexadecimal, two digits per byte.
pub fn bytes_to_hex(bytes: &Vec<u8>) -> (r: String)
    ensures
        r@ == hex_of(bytes@),
{
    let len = bytes.len();
    let mut r = String::new();
    let mut i: usize = 0;
    proof {
        assert(bytes@.take(0) =~= Seq::<u8>::empty());
    }
    while i < len
        invariant
            len == bytes@.len(),
            i <= len,
            r@ == hex_of(bytes@.take(i as int)),
        decreases len - i,
    {
        let b = bytes[i];
        assert((b >> 4) < 16 && (b & 0x0f) < 16) by (bit_vector);
        let hi: u8 = b >> 4;
        let lo: u8 = b & 0x0f;
        if hi < 10 {
            push_char(&mut r, (48 + hi) as char);
        } else {
            push_char(&mut r, (87 + hi) as char);
        }
        if lo < 10 {
            push_char(&mut r, (48 + lo) as char);
        } else {
            push_char(&mut r, (87 + lo) as char);
        }
        proof {
            lemma_hex_snoc(bytes@.take(i as int), b);
            assert(bytes@.take(i as int).push(b) =~= bytes@.take(i as int + 1));
            assert(r@ =~= hex_of(bytes@.take(i as int)) + seq![
                hex_digit((b >> 4) as nat),
                hex_digit((b & 0x0f) as nat),
            ]);
        }
        i += 1;
    }
    proof {
        assert(bytes@.take(len as int) =~= bytes@);
    }
    r
}

/// The characters of a string, as a vector.
pub fn chars_of(s: &str) -> (r: Vec<char>)
    ensures
        r@ == s@,
{
    let len = s.unicode_len();
    let mut r: Vec<char> = Vec::new();
    let mut i: usize = 0;
    while i < len
        invariant
            len == s@.len(),
            i <= len,
            r@ =~= s@.take(i as int),
        decreases len - i,
    {
        r.push(s.get_char(i));
        i += 1;
        proof {
            assert(r@ =~= s@.take(i as int));
        }
    }
    proof {
        assert(r@ =~= s@);
    }
    r
}

/// The string holding exactly the given characters.
pub fn string_of_chars(v: &Vec<char>) -> (r: String)
    ensures
        r@ == v@,
{
    let mut r = String::new();
    let len = v.len();
    let mut i: usize = 0;
    while i < len
        invariant
            len == v@.len(),
            i <= len,
            r@ =~= v@.take(i as int),
        decreases len - i,
    {
        push_char(&mut r, v[i]);
        i += 1;
        proof {
            assert(r@ =~= v@.take(i as int));
        }
    }
    proof {
        assert(r@ =~= v@);
    }
    r
}

/// Whitespace, as far as the decoder tolerates it between the characters of
/// an encoded request.
pub open spec fn is_space(c: char) -> bool {
    c == ' ' || c == '\t' || c == '\n' || c == '\r'
}

/// Executable form of [`is_space`].
pub fn is_space_char(c: char) -> (r: bool)
    ensures
        r == is_space(c),
{
    c == ' ' || c == '\t' || c == '\n' || c == '\r'
}

/// ASCII case folding: upper-case letters become lower-case, everything else
/// is kept. The encodings the decoder recognizes are ASCII.
pub open spec fn lower_char(c: char) -> char {
    if 65 <= c as u32 && c as u32 <= 90 {
        ((c as u32 + 32) as u8) as char
    } else {
        c
    }
}

/// The sequence, case-folded character by character.
pub open spec fn spec_lower(s: Seq<char>) -> Seq<char> {
    s.map_values(|c: char| lower_char(c))
}

/// Case-folds a character vector.
pub fn lower_chars(v: &Vec<char>) -> (r: Vec<char>)
    ensures
        r@ == spec_lower(v@),
{
    let len = v.len();
    let mut r: Vec<char> = Vec::new();
    let mut i: usize = 0;
    while i < len
        invariant
            len == v@.len(),
            i <= len,
            r@ =~= spec_lower(v@.take(i as int)),
        decreases len - i,
    {
        let c = v[i];
        if 65 <= c as u32 && c as u32 <= 90 {
            r.push(((c as u32 + 32) as u8) as char);
        } else {
            r.push(c);
        }
        i += 1;
        proof {
            assert(r@ =~= spec_lower(v@.take(i as int)));
        }
    }
    proof {
        assert(r@ =~= spec_lower(v@));
    }
    r
}

/// The sequence with leading whitespace removed.
pub open spec fn spec_trim_front(s: Seq<char>) -> Seq<char>
    decreases s.len(),
{
    if s.len() > 0 && is_space(s[0]) {
        spec_trim_front(s.drop_first())
    } else {
        s
    }
}

/// The sequence with trailing whitespace removed.
pub open spec fn spec_trim_back(s: Seq<char>) -> Seq<char>
    decreases s.len(),
{
    if s.len() > 0 && is_space(s.last()) {
        spec_trim_back(s.drop_last())
    } else {
        s
    }
}

/// The sequence with whitespace removed at both ends.
pub open spec fn spec_trim(s: Seq<char>) -> Seq<char> {
    spec_trim_back(spec_trim_front(s))
}

/// Trims whitespace from both ends of a character vector.
pub fn trim_chars(v: &Vec<char>) -> (r: Vec<char>)
    ensures
        r@ == spec_trim(v@),
{
    let len = v.len();
    let mut a: usize = 0;
    proof {
        assert(v@.skip(0) =~= v@);
    }
    while a < len && is_space_char(v[a])
        invariant
            len == v@.len(),
            a <= len,
            spec_trim_front(v@) == spec_trim_front(v@.skip(a as int)),
        decreases len - a,
    {
        proof {
            assert(v@.skip(a as int).drop_first() =~= v@.skip(a as int + 1));
        }
        a += 1;
    }
    proof {
        assert(spec_trim_front(v@) =~= v@.skip(a as int));
    }
    let mut b: usize = len;
    while b > a && is_space_char(v[b - 1])
        invariant
            len == v@.len(),
            a <= b <= len,
            spec_trim_front(v@) == v@.skip(a as int),
            spec_trim_back(v@.skip(a as int)) == spec_trim_back(v@.subrange(a as int, b as int)),
        decreases b,
    {
        proof {
            assert(v@.subrange(a as int, b as int).drop_last() =~= v@.subrange(a as int, b as int - 1));
        }
        b -= 1;
    }
    proof {
        assert(spec_trim_back(v@.subrange(a as int, b as int)) =~= v@.subrange(a as int, b as int));
    }
    let mut r: Vec<char> = Vec::new();
    let mut i: usize = a;
    while i < b
        invariant
            a <= i <= b <= len,
            len == v@.len(),
            r@ =~= v@.subrange(a as int, i as int),
        decreases b - i,
    {
        r.push(v[i]);
        i += 1;
        proof {
            assert(r@ =~= v@.subrange(a as int, i as int));
        }
    }
    proof {
        assert(v@.skip(a as int).subrange(0, (b - a) as int) =~= v@.subrange(a as int, b as int));
        assert(r@ =~= spec_trim(v@));
    }
    r
}

/// The sequence with every `+` and every whitespace character removed: the
/// variant used for sniffing bech32-derived prefixes, which tolerate inserted
/// separators.
pub open spec fn spec_squeeze(s: Seq<char>) -> Seq<char>
    decreases s.len(),
{
    if s.len() == 0 {
        Seq::empty()
    } else {
        let rest = spec_squeeze(s.drop_first());
        if s[0] == '+' || is_space(s[0]) {
            rest
        } else {
            seq![s[0]] + rest
        }
    }
}

/// Removes every `+` and whitespace character.
pub fn squeeze_chars(v: &Vec<char>) -> (r: Vec<char>)
    ensures
        r@ == spec_squeeze(v@),
{
    let len = v.len();
    let mut r: Vec<char> = Vec::new();
    let mut i: usize = 0;
    proof {
        assert(v@.skip(0) =~= v@);
        assert(r@ + spec_squeeze(v@) =~= spec_squeeze(v@));
    }
    while i < len
        invariant
            len == v@.len(),
            i <= len,
            spec_squeeze(v@) == r@ + spec_squeeze(v@.skip(i as int)),
        decreases len - i,
    {
        let ghost pre = r@;
        let c = v[i];
        proof {
            assert(v@.skip(i as int).drop_first() =~= v@.skip(i as int + 1));
        }
        if !(c == '+' || is_space_char(c)) {
            r.push(c);
            proof {
                assert(r@ =~= pre + seq![c]);
                assert(pre + (seq![c] + spec_squeeze(v@.skip(i as int + 1))) =~= (pre + seq![c])
                    + spec_squeeze(v@.skip(i as int + 1)));
            }
        }
        i += 1;
    }
    proof {
        assert(v@.skip(len as int) =~= Seq::<char>::empty());
        assert(spec_squeeze(v@) =~= r@);
    }
    r
}

/// Whether `p` is a prefix of `s`.
pub open spec fn has_prefix(s: Seq<char>, p: Seq<char>) -> bool {
    s.len() >= p.len() && s.take(p.len() as int) == p
}

/// Whether the vector starts with the given characters.
pub fn starts_with_chars(v: &Vec<char>, p: &Vec<char>) -> (r: bool)
    ensures
        r == has_prefix(v@, p@),
{
    let plen = p.len();
    if v.len() < plen {
        return false;
    }
    let mut i: usize = 0;
    while i < plen
        invariant
            plen == p@.len(),
            v@.len() >= plen,
            i <= plen,
            forall|k: int| 0 <= k < i ==> v@[k] == p@[k],
        decreases plen - i,
    {
        if v[i] != p[i] {
            assert(v@.take(plen as int)[i as int] != p@[i as int]);
            return false;
        }
        i += 1;
    }
    proof {
        assert(v@.take(plen as int) =~= p@);
    }
    true
}

/// Whether the vector contains the given character.
pub fn contains_char(v: &Vec<char>, c: char) -> (r: bool)
    ensures
        r == v@.contains(c),
{
    let len = v.len();
    let mut i: usize = 0;
    while i < len
        invariant
            len == v@.len(),
            i <= len,
            forall|k: int| 0 <= k < i ==> v@[k] != c,
        decreases len - i,
    {
        if v[i] == c {
            return true;
        }
        i += 1;
    }
    false
}

} // verus!
