//! Text form of UUIDs: the canonical lower-case hyphenated layout, and the
//! calls into the `uuid` crate that print and parse it.
use vstd::prelude::*;
use vstd::arithmetic::div_mod::*;
use vstd::arithmetic::mul::*;
use vstd::string::*;

verus! {

/// Lower-case hexadecimal digit for a value in `0..16`.
pub open spec fn hex_char(d: int) -> char {
    if d == 0 { '0' } else if d == 1 { '1' } else if d == 2 { '2' } else if d == 3 { '3' }
    else if d == 4 { '4' } else if d == 5 { '5' } else if d == 6 { '6' } else if d == 7 { '7' }
    else if d == 8 { '8' } else if d == 9 { '9' } else if d == 10 { 'a' } else if d == 11 { 'b' }
    else if d == 12 { 'c' } else if d == 13 { 'd' } else if d == 14 { 'e' } else { 'f' }
}

/// The `n` lowest hexadecimal digits of `x`, most significant first.
pub open spec fn hex_digits(x: nat, n: nat) -> Seq<char>
    decreases n,
{
    if n == 0 {
        Seq::empty()
    } else {
        hex_digits(x / 16, (n - 1) as nat).push(hex_char((x % 16) as int))
    }
}

pub open spec fn pow16(k: nat) -> nat
    decreases k,
{
    if k == 0 { 1 } else { 16 * pow16((k - 1) as nat) }
}

/// The canonical text of a UUID held as its 128-bit big-endian value:
/// 8-4-4-4-12 lower-case hex digits separated by hyphens.
pub open spec fn uuid_hyphenated(u: u128) -> Seq<char> {
    hex_digits((u as nat) / pow16(24), 8) + seq!['-']
        + hex_digits((u as nat) / pow16(20), 4) + seq!['-']
        + hex_digits((u as nat) / pow16(16), 4) + seq!['-']
        + hex_digits((u as nat) / pow16(12), 4) + seq!['-']
        + hex_digits(u as nat, 12)
}

/// `s` with every hyphen taken out.
pub open spec fn strip_hyphens(s: Seq<char>) -> Seq<char>
    decreases s.len(),
{
    if s.len() == 0 {
        s
    } else if s.last() == '-' {
        strip_hyphens(s.drop_last())
    } else {
        strip_hyphens(s.drop_last()).push(s.last())
    }
}

pub proof fn lemma_hex_digits_len(x: nat, n: nat)
    ensures
        hex_digits(x, n).len() == n,
    decreases n,
{
    if n > 0 {
        lemma_hex_digits_len(x / 16, (n - 1) as nat);
    }
}


pub proof fn lemma_pow16_values()
    ensures
        pow16(1) == 0x10,
        pow16(4) == 0x1_0000,
        pow16(8) == 0x1_0000_0000,
        pow16(12) == 0x1_0000_0000_0000,
        pow16(16) == 0x1_0000_0000_0000_0000,
        pow16(20) == 0x1_0000_0000_0000_0000_0000,
        pow16(24) == 0x1_0000_0000_0000_0000_0000_0000,
        pow16(32) == 0x1_0000_0000_0000_0000_0000_0000_0000_0000int,
{
    reveal_with_fuel(pow16, 33);
}

pub proof fn lemma_pow16_pos(k: nat)
    ensures
        pow16(k) > 0,
    decreases k,
{
    if k > 0 {
        lemma_pow16_pos((k - 1) as nat);
    }
}

/// Only the lowest `n` digits of `x` show.
pub proof fn lemma_hex_digits_mod(x: nat, n: nat)
    ensures
        hex_digits(x, n) == hex_digits(x % pow16(n), n),
    decreases n,
{
    if n > 0 {
        let p = pow16((n - 1) as nat);
        lemma_pow16_pos((n - 1) as nat);
        lemma_mod_mod(x as int, 16, p as int);
        lemma_mod_breakdown(x as int, 16, p as int);
        lemma_fundamental_div_mod_converse(
            (x % (16 * p)) as int,
            16,
            ((x / 16) % p) as int,
            (x % 16) as int,
        );
        lemma_hex_digits_mod(x / 16, (n - 1) as nat);
        assert((x % pow16(n)) / 16 == (x / 16) % p);
    }
}

/// The `n + k` lowest digits are the `n` digits above the `k` lowest ones,
/// followed by those `k` digits.
pub proof fn lemma_hex_digits_split(x: nat, n: nat, k: nat)
    ensures
        hex_digits(x, n + k) == hex_digits(x / pow16(k), n) + hex_digits(x % pow16(k), k),
    decreases k,
{
    if k == 0 {
        assert(x / 1 == x) by (nonlinear_arith);
        assert(hex_digits(x, n + k) =~= hex_digits(x / pow16(k), n) + hex_digits(x % pow16(k), k));
    } else {
        let p = pow16((k - 1) as nat);
        lemma_pow16_pos((k - 1) as nat);
        lemma_hex_digits_split(x / 16, n, (k - 1) as nat);
        lemma_div_denominator(x as int, 16, p as int);
        lemma_mod_mod(x as int, 16, p as int);
        lemma_mod_breakdown(x as int, 16, p as int);
        lemma_fundamental_div_mod_converse(
            (x % (16 * p)) as int,
            16,
            ((x / 16) % p) as int,
            (x % 16) as int,
        );
        assert(hex_digits(x, n + k) =~= hex_digits(x / pow16(k), n) + hex_digits(x % pow16(k), k));
    }
}

pub proof fn lemma_strip_hyphens_add(a: Seq<char>, b: Seq<char>)
    ensures
        strip_hyphens(a + b) == strip_hyphens(a) + strip_hyphens(b),
    decreases b.len(),
{
    if b.len() == 0 {
        assert(a + b =~= a);
        assert(strip_hyphens(a) + strip_hyphens(b) =~= strip_hyphens(a));
    } else {
        assert((a + b).drop_last() =~= a + b.drop_last());
        lemma_strip_hyphens_add(a, b.drop_last());
        if b.last() == '-' {
        } else {
            assert(strip_hyphens(a + b) =~= strip_hyphens(a) + strip_hyphens(b));
        }
    }
}

pub proof fn lemma_strip_hyphens_of_hex(x: nat, n: nat)
    ensures
        strip_hyphens(hex_digits(x, n)) == hex_digits(x, n),
    decreases n,
{
    if n > 0 {
        lemma_strip_hyphens_of_hex(x / 16, (n - 1) as nat);
        assert(hex_digits(x, n).drop_last() =~= hex_digits(x / 16, (n - 1) as nat));
    }
}

/// Taking the hyphens out of the text of a UUID leaves its 32 hex digits,
/// of which the first 12 are the digits of its top 48 bits.
pub proof fn lemma_uuid_leading_digits(u: u128)
    ensures
        strip_hyphens(uuid_hyphenated(u)).len() == 32,
        strip_hyphens(uuid_hyphenated(u)).take(12) == hex_digits((u as nat) / pow16(20), 12),
{
    let x = u as nat;
    let h1 = hex_digits(x / pow16(24), 8);
    let h2 = hex_digits(x / pow16(20), 4);
    let h3 = hex_digits(x / pow16(16), 4);
    let h4 = hex_digits(x / pow16(12), 4);
    let h5 = hex_digits(x, 12);
    let d = seq!['-'];
    assert(strip_hyphens(d) =~= Seq::<char>::empty()) by {
        assert(d.drop_last() =~= Seq::<char>::empty());
        assert(d.last() == '-');
        assert(strip_hyphens(Seq::<char>::empty()) =~= Seq::<char>::empty());
    }
    assert(uuid_hyphenated(u) =~= h1 + d + h2 + d + h3 + d + h4 + d + h5);
    lemma_strip_hyphens_add(h1 + d + h2 + d + h3 + d + h4 + d, h5);
    lemma_strip_hyphens_add(h1 + d + h2 + d + h3 + d + h4, d);
    lemma_strip_hyphens_add(h1 + d + h2 + d + h3 + d, h4);
    lemma_strip_hyphens_add(h1 + d + h2 + d + h3, d);
    lemma_strip_hyphens_add(h1 + d + h2 + d, h3);
    lemma_strip_hyphens_add(h1 + d + h2, d);
    lemma_strip_hyphens_add(h1 + d, h2);
    lemma_strip_hyphens_add(h1, d);
    lemma_strip_hyphens_of_hex(x / pow16(24), 8);
    lemma_strip_hyphens_of_hex(x / pow16(20), 4);
    lemma_strip_hyphens_of_hex(x / pow16(16), 4);
    lemma_strip_hyphens_of_hex(x / pow16(12), 4);
    lemma_strip_hyphens_of_hex(x, 12);
    lemma_hex_digits_len(x / pow16(24), 8);
    lemma_hex_digits_len(x / pow16(20), 4);
    lemma_hex_digits_len(x / pow16(16), 4);
    lemma_hex_digits_len(x / pow16(12), 4);
    lemma_hex_digits_len(x, 12);
    assert(strip_hyphens(uuid_hyphenated(u)) =~= h1 + h2 + h3 + h4 + h5);
    // the 12 digits of x / 16^20 are the 8 digits above its low 4, then those 4
    let y = x / pow16(20);
    lemma_pow16_values();
    lemma_hex_digits_split(y, 8, 4);
    lemma_div_denominator(x as int, pow16(20) as int, pow16(4) as int);
    assert(pow16(20) * pow16(4) == pow16(24));
    lemma_hex_digits_mod(y, 4);
    lemma_hex_digits_mod(y % pow16(4), 4);
    lemma_mod_mod(y as int, pow16(4) as int, 1);
    assert(hex_digits(y, 4) == hex_digits(y % pow16(4), 4));
    assert(strip_hyphens(uuid_hyphenated(u)).take(12) =~= h1 + h2);
}

/// The text of a UUID is ASCII and 36 characters long; its last 12 characters
/// are the digits of its low 48 bits.
pub proof fn lemma_uuid_text_shape(u: u128)
    ensures
        uuid_hyphenated(u).len() == 36,
        uuid_hyphenated(u).subrange(24, 36) == hex_digits(u as nat, 12),
{
    let x = u as nat;
    lemma_hex_digits_len(x / pow16(24), 8);
    lemma_hex_digits_len(x / pow16(20), 4);
    lemma_hex_digits_len(x / pow16(16), 4);
    lemma_hex_digits_len(x / pow16(12), 4);
    lemma_hex_digits_len(x, 12);
    assert(uuid_hyphenated(u).subrange(24, 36) =~= hex_digits(u as nat, 12));
}

pub proof fn lemma_hex_char_injective(a: int, b: int)
    requires
        0 <= a < 16,
        0 <= b < 16,
        hex_char(a) == hex_char(b),
    ensures
        a == b,
{
}

/// Equal digit strings mean equal values below `16^n`.
pub proof fn lemma_hex_digits_injective(x: nat, y: nat, n: nat)
    requires
        hex_digits(x, n) == hex_digits(y, n),
    ensures
        x % pow16(n) == y % pow16(n),
    decreases n,
{
    if n == 0 {
        assert(x % 1 == 0 && y % 1 == 0) by (nonlinear_arith);
    } else {
        let p = pow16((n - 1) as nat);
        lemma_pow16_pos((n - 1) as nat);
        assert(hex_digits(x, n).last() == hex_char((x % 16) as int));
        assert(hex_digits(x, n).drop_last() =~= hex_digits(x / 16, (n - 1) as nat));
        assert(hex_digits(y, n).drop_last() =~= hex_digits(y / 16, (n - 1) as nat));
        lemma_hex_char_injective((x % 16) as int, (y % 16) as int);
        lemma_hex_digits_injective(x / 16, y / 16, (n - 1) as nat);
        lemma_mod_breakdown(x as int, 16, p as int);
        lemma_mod_breakdown(y as int, 16, p as int);
    }
}

/// Two UUIDs with the same text are the same UUID.
pub proof fn lemma_uuid_text_injective(a: u128, b: u128)
    requires
        uuid_hyphenated(a) == uuid_hyphenated(b),
    ensures
        a == b,
{
    let x = a as nat;
    let y = b as nat;
    lemma_pow16_values();
    lemma_hex_digits_len(x / pow16(24), 8);
    lemma_hex_digits_len(x / pow16(20), 4);
    lemma_hex_digits_len(x / pow16(16), 4);
    lemma_hex_digits_len(x / pow16(12), 4);
    lemma_hex_digits_len(x, 12);
    lemma_hex_digits_len(y / pow16(24), 8);
    lemma_hex_digits_len(y / pow16(20), 4);
    lemma_hex_digits_len(y / pow16(16), 4);
    lemma_hex_digits_len(y / pow16(12), 4);
    lemma_hex_digits_len(y, 12);
    let ta = uuid_hyphenated(a);
    let tb = uuid_hyphenated(b);
    assert(ta.subrange(0, 8) =~= hex_digits(x / pow16(24), 8));
    assert(tb.subrange(0, 8) =~= hex_digits(y / pow16(24), 8));
    assert(ta.subrange(9, 13) =~= hex_digits(x / pow16(20), 4));
    assert(tb.subrange(9, 13) =~= hex_digits(y / pow16(20), 4));
    assert(ta.subrange(14, 18) =~= hex_digits(x / pow16(16), 4));
    assert(tb.subrange(14, 18) =~= hex_digits(y / pow16(16), 4));
    assert(ta.subrange(19, 23) =~= hex_digits(x / pow16(12), 4));
    assert(tb.subrange(19, 23) =~= hex_digits(y / pow16(12), 4));
    assert(ta.subrange(24, 36) =~= hex_digits(x, 12));
    assert(tb.subrange(24, 36) =~= hex_digits(y, 12));
    lemma_hex_digits_injective(x / pow16(24), y / pow16(24), 8);
    lemma_hex_digits_injective(x / pow16(20), y / pow16(20), 4);
    lemma_hex_digits_injective(x / pow16(16), y / pow16(16), 4);
    lemma_hex_digits_injective(x / pow16(12), y / pow16(12), 4);
    lemma_hex_digits_injective(x, y, 12);
    // rebuild each value from its five groups
    lemma_uuid_from_groups(x);
    lemma_uuid_from_groups(y);
}

proof fn lemma_uuid_from_groups(x: nat)
    requires
        x < 0x1_0000_0000_0000_0000_0000_0000_0000_0000int,
    ensures
        x == ((x / 0x1_0000_0000_0000_0000_0000_0000) % 0x1_0000_0000) * 0x1_0000_0000_0000_0000_0000_0000
            + ((x / 0x1_0000_0000_0000_0000_0000) % 0x1_0000) * 0x1_0000_0000_0000_0000_0000
            + ((x / 0x1_0000_0000_0000_0000) % 0x1_0000) * 0x1_0000_0000_0000_0000
            + ((x / 0x1_0000_0000_0000) % 0x1_0000) * 0x1_0000_0000_0000
            + x % 0x1_0000_0000_0000,
{
    let p12: int = 0x1_0000_0000_0000;
    let p16: int = 0x1_0000_0000_0000_0000;
    let p20: int = 0x1_0000_0000_0000_0000_0000;
    let p24: int = 0x1_0000_0000_0000_0000_0000_0000;
    let xi = x as int;
    lemma_fundamental_div_mod(xi, p24);
    lemma_mod_breakdown(xi, p20, 0x1_0000);
    lemma_mod_breakdown(xi, p16, 0x1_0000);
    lemma_mod_breakdown(xi, p12, 0x1_0000);
    lemma_small_mod((xi / p24) as nat, 0x1_0000_0000);
    assert(xi / p24 < 0x1_0000_0000) by {
        lemma_div_is_ordered(xi, 0x1_0000_0000_0000_0000_0000_0000_0000_0000int, p24);
        assert(0x1_0000_0000_0000_0000_0000_0000_0000_0000int / p24 == 0x1_0000_0000);
        lemma_div_is_strictly_ordered_by_bound(xi, p24);
    }
}

proof fn lemma_div_is_strictly_ordered_by_bound(x: int, d: int)
    requires
        0 <= x < 0x1_0000_0000_0000_0000_0000_0000_0000_0000int,
        d == 0x1_0000_0000_0000_0000_0000_0000,
    ensures
        x / d < 0x1_0000_0000,
{
    lemma_fundamental_div_mod(x, d);
    lemma_mod_pos_bound(x, d);
    if x / d >= 0x1_0000_0000 {
        lemma_mul_inequality(0x1_0000_0000, x / d, d);
    }
}

#[verifier::external_type_specification]
#[verifier::external_body]
pub struct ExUuidError(uuid::Error);

/// Prints a UUID through `uuid::Uuid`'s `Display`, which writes the
/// lower-case hyphenated form. The contract claims exactly that text.
#[verifier::external_body]
pub(crate) fn uuid_to_string(u: u128) -> (s: String)
    ensures
        s@ == uuid_hyphenated(u),
{
    uuid::Uuid::from_u128(u).to_string()
}

/// Parses text through `uuid::Uuid::parse_str`. The contract claims only that
/// the canonical hyphenated text of a UUID parses back to that UUID; what comes
/// back for other inputs (other accepted layouts, or an error) is left unsaid.
#[verifier::external_body]
pub(crate) fn uuid_parse(text: &str) -> (parsed: Result<u128, uuid::Error>)
    ensures
        is_uuid_text(text@) ==> parsed is Ok && uuid_hyphenated(parsed->Ok_0) == text@,
{
    match uuid::Uuid::parse_str(text) {
        Ok(v) => Ok(v.as_u128()),
        Err(e) => Err(e),
    }
}

/// Whether a UUID is marked as a random one: version 4 in its version
/// nibble, the RFC 4122 variant in its variant bits.
pub open spec fn is_random_uuid(u: u128) -> bool {
    u & 0xF000_C000_0000_0000_0000u128 == 0x4000_8000_0000_0000_0000u128
}

/// A fresh random UUID (`uuid::Uuid::new_v4`, which masks random bits and
/// sets the version and variant bits). The contract claims only those bits;
/// the rest is chance.
#[verifier::external_body]
pub(crate) fn new_random_uuid() -> (id: u128)
    ensures
        is_random_uuid(id),
{
    uuid::Uuid::new_v4().as_u128()
}

/// Whether `s` is the canonical text of some UUID.
pub open spec fn is_uuid_text(s: Seq<char>) -> bool {
    exists|u: u128| uuid_hyphenated(u) == s
}

/// The text with its hyphens taken out.
pub fn strip_hyphens_of(s: &str) -> (r: String)
    ensures
        r@ == strip_hyphens(s@),
{
    let n = s.unicode_len();
    let mut r = String::new();
    let mut i: usize = 0;
    assert(s@.take(0) =~= Seq::<char>::empty());
    while i < n
        invariant
            n == s@.len(),
            i <= n,
            r@ == strip_hyphens(s@.take(i as int)),
        decreases n - i,
    {
        let c = s.get_char(i);
        assert(s@.take(i + 1).drop_last() =~= s@.take(i as int));
        if c != '-' {
            let one = s.substring_char(i, i + 1);
            assert(one@ =~= seq![c]);
            r.append(one);
        }
        i = i + 1;
    }
    assert(s@.take(n as int) =~= s@);
    r
}

} // verus!
