//! Session identifiers: time-ordered 128-bit UUIDs and their hyphenated
//! text, which names a session's directory.

use vstd::prelude::*;

verus! {

/// The lowercase hex digit of `d`, for `0 <= d < 16`.
pub open spec fn hex_char(d: nat) -> char {
    if d == 0 { '0' } else if d == 1 { '1' } else if d == 2 { '2' } else if d == 3 { '3' }
    else if d == 4 { '4' } else if d == 5 { '5' } else if d == 6 { '6' } else if d == 7 { '7' }
    else if d == 8 { '8' } else if d == 9 { '9' } else if d == 10 { 'a' } else if d == 11 { 'b' }
    else if d == 12 { 'c' } else if d == 13 { 'd' } else if d == 14 { 'e' } else { 'f' }
}

pub open spec fn is_hex_char(c: char) -> bool {
    ('0' <= c <= '9') || ('a' <= c <= 'f')
}

pub open spec fn pow16(c: nat) -> nat
    decreases c,
{
    if c == 0 {
        1
    } else {
        16 * pow16((c - 1) as nat)
    }
}

/// The last `count` hex digits of `n`, most significant first.
pub open spec fn hex_digits(n: nat, count: nat) -> Seq<char>
    decreases count,
{
    if count == 0 {
        Seq::empty()
    } else {
        hex_digits(n / 16, (count - 1) as nat).push(hex_char(n % 16))
    }
}

/// The hyphenated text of a UUID: its 32 hex digits in groups of
/// 8-4-4-4-12, separated by `-`.
pub open spec fn hyphenated(id: u128) -> Seq<char> {
    let d = hex_digits(id as nat, 32);
    d.subrange(0, 8) + seq!['-'] + d.subrange(8, 12) + seq!['-'] + d.subrange(12, 16) + seq!['-']
        + d.subrange(16, 20) + seq!['-'] + d.subrange(20, 32)
}

proof fn lemma_hex_char(a: nat, b: nat)
    requires
        a < 16,
        b < 16,
    ensures
        is_hex_char(hex_char(a)),
        hex_char(a) == hex_char(b) ==> a == b,
{
}

proof fn lemma_hex_digits(n: nat, count: nat)
    ensures
        hex_digits(n, count).len() == count,
        forall|i: int| 0 <= i < count ==> is_hex_char(#[trigger] hex_digits(n, count)[i]),
    decreases count,
{
    if count > 0 {
        lemma_hex_digits(n / 16, (count - 1) as nat);
        lemma_hex_char(n % 16, n % 16);
    }
}

proof fn lemma_hex_digits_injective(a: nat, b: nat, count: nat)
    requires
        a < pow16(count),
        b < pow16(count),
        hex_digits(a, count) == hex_digits(b, count),
    ensures
        a == b,
    decreases count,
{
    if count > 0 {
        let c1 = (count - 1) as nat;
        let p = pow16(c1);
        let da = hex_digits(a / 16, c1);
        let db = hex_digits(b / 16, c1);
        assert(da =~= hex_digits(a, count).drop_last());
        assert(db =~= hex_digits(b, count).drop_last());
        assert(hex_char(a % 16) == hex_digits(a, count).last());
        assert(hex_char(b % 16) == hex_digits(b, count).last());
        lemma_hex_char(a % 16, b % 16);
        assert(a / 16 < p) by (nonlinear_arith)
            requires
                a < 16 * p,
        ;
        assert(b / 16 < p) by (nonlinear_arith)
            requires
                b < 16 * p,
        ;
        lemma_hex_digits_injective(a / 16, b / 16, c1);
        assert(a == 16 * (a / 16) + a % 16);
        assert(b == 16 * (b / 16) + b % 16);
    }
}

proof fn lemma_pow16_32()
    ensures
        pow16(32) == 0x1_0000_0000_0000_0000_0000_0000_0000_0000nat,
{
    reveal_with_fuel(pow16, 33);
}

/// The hyphenated text is 36 characters long, starts and ends with a hex
/// digit, and holds no `/`.
pub proof fn lemma_hyphenated_shape(id: u128)
    ensures
        hyphenated(id).len() == 36,
        is_hex_char(hyphenated(id)[0]),
        is_hex_char(hyphenated(id).last()),
        forall|i: int| 0 <= i < 36 ==> #[trigger] hyphenated(id)[i] != '/',
{
    let d = hex_digits(id as nat, 32);
    lemma_hex_digits(id as nat, 32);
    let h = hyphenated(id);
    assert(h[0] == d[0]);
    assert(h[35] == d[31]);
    assert forall|i: int| 0 <= i < 36 implies #[trigger] h[i] != '/' by {
        if i < 8 {
            assert(h[i] == d[i]);
        } else if i == 8 || i == 13 || i == 18 || i == 23 {
        } else if i < 13 {
            assert(h[i] == d[i - 1]);
        } else if i < 18 {
            assert(h[i] == d[i - 2]);
        } else if i < 23 {
            assert(h[i] == d[i - 3]);
        } else {
            assert(h[i] == d[i - 4]);
        }
    }
}

/// Two identifiers with the same hyphenated text are the same identifier.
pub proof fn lemma_hyphenated_injective(a: u128, b: u128)
    requires
        hyphenated(a) == hyphenated(b),
    ensures
        a == b,
{
    lemma_hex_digits(a as nat, 32);
    lemma_hex_digits(b as nat, 32);
    let da = hex_digits(a as nat, 32);
    let db = hex_digits(b as nat, 32);
    let ha = hyphenated(a);
    assert(da =~= ha.subrange(0, 8) + ha.subrange(9, 13) + ha.subrange(14, 18) + ha.subrange(19, 23)
        + ha.subrange(24, 36));
    assert(db =~= ha.subrange(0, 8) + ha.subrange(9, 13) + ha.subrange(14, 18) + ha.subrange(19, 23)
        + ha.subrange(24, 36));
    lemma_pow16_32();
    lemma_hex_digits_injective(a as nat, b as nat, 32);
}

/// The six node bytes as one 48-bit big-endian number.
pub open spec fn node_value(node: Seq<u8>) -> int {
    ((((node[0] * 256 + node[1]) * 256 + node[2]) * 256 + node[3]) * 256 + node[4]) * 256 + node[5]
}

/// Relies on `uuid::Uuid::now_v1`: a version 1 UUID made from the clock, a
/// process-wide wrapping counter and `node`, handed over as its big-endian
/// 128-bit value. Of every outcome: the version nibble is 1, the variant
/// bits are those of RFC 4122, and the low 48 bits are the node. The time and
/// counter bits are not promised: the counter wraps, so two calls may even
/// agree. (The call panics on a clock set before 1970.)
#[verifier::external_body]
pub(crate) fn fresh_session_id(node: &[u8; 6]) -> (r: u128)
    ensures
        (r >> 76u128) & 0xfu128 == 1,
        (r >> 62u128) & 0x3u128 == 2,
        r & 0xffff_ffff_ffffu128 == node_value(node@),
{
    uuid::Uuid::now_v1(node).as_u128()
}

/// Relies on the `Display` of `uuid::fmt::Hyphenated`: the sixteen big-endian
/// bytes of the UUID as lowercase hex digits in groups of 8-4-4-4-12.
#[verifier::external_body]
pub(crate) fn hyphenated_text(id: u128) -> (r: String)
    ensures
        r@ == hyphenated(id),
{
    uuid::Uuid::from_u128(id).hyphenated().to_string()
}

/// The text that names the session directory of the identifier `id`.
pub fn session_id_text(id: u128) -> (r: String)
    ensures
        r@ == hyphenated(id),
{
    hyphenated_text(id)
}

} // verus!
