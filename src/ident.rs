//! Internal identifiers, external 128-bit identifiers, and the mapping
//! between them.
use vstd::prelude::*;

verus! {

/// Identifier that the graph engine gives each entity.
#[derive(Clone, Copy, Debug, PartialEq, Eq, Hash, Structural)]
pub struct Id {
    pub raw: u64,
}

/// A 128-bit identifier of the external record format, held as the
/// big-endian value of its sixteen bytes.
#[derive(Clone, Copy, Debug, PartialEq, Eq, Hash, Structural)]
pub struct ExtId {
    pub value: u128,
}

/// The character of a decimal digit.
pub open spec fn digit_char(d: nat) -> char {
    seq!['0', '1', '2', '3', '4', '5', '6', '7', '8', '9'][d as int]
}

/// The character of a lower-case hexadecimal digit.
pub open spec fn hex_char(d: nat) -> char {
    if d < 10 {
        digit_char(d)
    } else {
        seq!['a', 'b', 'c', 'd', 'e', 'f'][d - 10]
    }
}

/// Decimal text of a natural number, without leading zeros.
pub open spec fn dec_text(n: nat) -> Seq<char>
    decreases n,
{
    if n < 10 {
        seq![digit_char(n)]
    } else {
        dec_text(n / 10).push(digit_char(n % 10))
    }
}

/// Stable textual form of an internal identifier: `ID(<decimal>)`.
pub open spec fn id_text(id: u64) -> Seq<char> {
    seq!['I', 'D', '('] + dec_text(id as nat) + seq![')']
}

pub open spec fn pow16(k: nat) -> nat
    decreases k,
{
    if k == 0 {
        1
    } else {
        16 * pow16((k - 1) as nat)
    }
}

/// Hexadecimal digit `i` of a 128-bit value, counting from the most
/// significant of its 32 digits.
pub open spec fn nibble(v: u128, i: nat) -> nat {
    (v as nat / pow16((31 - i) as nat)) % 16
}

/// The 32 lower-case hexadecimal digits of a 128-bit value.
pub open spec fn hex32(v: u128) -> Seq<char> {
    Seq::new(32, |i: int| hex_char(nibble(v, i as nat)))
}

/// Canonical hyphenated text of an identifier: hexadecimal digits grouped
/// 8-4-4-4-12.
pub open spec fn hyphen_text(v: u128) -> Seq<char> {
    let h = hex32(v);
    h.subrange(0, 8) + seq!['-'] + h.subrange(8, 12) + seq!['-'] + h.subrange(12, 16) + seq!['-']
        + h.subrange(16, 20) + seq!['-'] + h.subrange(20, 32)
}

/// Name for the value of the name-based (SHA-1, version 5) UUID that has the
/// nil UUID as namespace and the UTF-8 bytes of `name` as name.
pub uninterp spec fn v5_nil_of(name: Seq<char>) -> u128;

/// The external identifier derived from an internal one.
pub open spec fn ext_id_of(id: Id) -> ExtId {
    ExtId { value: v5_nil_of(id_text(id.raw)) }
}

/// The all-zero sentinel identifier.
pub open spec fn spec_nil() -> ExtId {
    ExtId { value: 0 }
}

/// Relies on uuid's `Uuid::new_v5` with the nil namespace: the value depends
/// on the name alone, and the builder sets the version digit (the
/// thirteenth hexadecimal digit) to 5.
#[verifier::external_body]
fn uuid_v5_nil(name: &str) -> (r: u128)
    ensures
        r == v5_nil_of(name@),
        nibble(r, 12) == 5,
{
    uuid::Uuid::new_v5(&uuid::Uuid::nil(), name.as_bytes()).as_u128()
}

/// Relies on uuid's hyphenated `Display`: lower-case digits grouped 8-4-4-4-12.
#[verifier::external_body]
fn uuid_hyphenated(v: u128) -> (r: String)
    ensures
        r@ == hyphen_text(v),
{
    uuid::Uuid::from_u128(v).hyphenated().to_string()
}

fn digit_str(d: u64) -> (r: &'static str)
    requires
        d < 10,
    ensures
        r@ == seq![digit_char(d as nat)],
{
    proof {
        reveal_strlit("0");
        reveal_strlit("1");
        reveal_strlit("2");
        reveal_strlit("3");
        reveal_strlit("4");
        reveal_strlit("5");
        reveal_strlit("6");
        reveal_strlit("7");
        reveal_strlit("8");
        reveal_strlit("9");
    }
    match d {
        0 => "0",
        1 => "1",
        2 => "2",
        3 => "3",
        4 => "4",
        5 => "5",
        6 => "6",
        7 => "7",
        8 => "8",
        _ => "9",
    }
}

/// Appends the decimal text of `n` to `out`.
pub fn push_decimal(out: &mut String, n: u64)
    ensures
        final(out)@ == old(out)@ + dec_text(n as nat),
    decreases n,
{
    if n >= 10 {
        push_decimal(out, n / 10);
    }
    out.append(digit_str(n % 10));
    proof {
        if n >= 10 {
            assert(old(out)@ + dec_text(n as nat) =~= old(out)@ + dec_text((n / 10) as nat) + seq![
                digit_char((n % 10) as nat),
            ]);
        }
    }
}

/// Decimal text of `n`.
pub fn decimal(n: u64) -> (r: String)
    ensures
        r@ == dec_text(n as nat),
{
    let mut s = String::new();
    push_decimal(&mut s, n);
    assert(s@ =~= dec_text(n as nat));
    s
}

/// Stable textual form of an internal identifier.
pub fn id_string(id: Id) -> (r: String)
    ensures
        r@ == id_text(id.raw),
{
    let mut s = String::from_str("ID(");
    push_decimal(&mut s, id.raw);
    s.append(")");
    proof {
        reveal_strlit("ID(");
        reveal_strlit(")");
        assert(s@ =~= id_text(id.raw));
    }
    s
}

proof fn lemma_pow16_positive(k: nat)
    ensures
        pow16(k) > 0,
    decreases k,
{
    if k > 0 {
        lemma_pow16_positive((k - 1) as nat);
    }
}

impl ExtId {
    /// The all-zero identifier, used for "unknown host".
    pub fn nil() -> (r: ExtId)
        ensures
            r == spec_nil(),
    {
        ExtId { value: 0 }
    }

    /// Whether this is the all-zero identifier.
    pub fn is_nil(&self) -> (r: bool)
        ensures
            r == (*self == spec_nil()),
    {
        self.value == 0
    }

    /// Hyphenated lower-case text of the identifier.
    pub fn hyphenated(&self) -> (r: String)
        ensures
            r@ == hyphen_text(self.value),
    {
        uuid_hyphenated(self.value)
    }
}

/// Maps an internal identifier to its external identifier: the name-based
/// UUID of the identifier's stable text. The result never equals the nil
/// sentinel.
pub fn external_id(id: Id) -> (r: ExtId)
    ensures
        r == ext_id_of(id),
        r != spec_nil(),
{
    let name = id_string(id);
    let v = uuid_v5_nil(name.as_str());
    proof {
        lemma_pow16_positive(19);
        if v == 0 {
            assert(nibble(v, 12) == 0);
        }
    }
    ExtId { value: v }
}

/// The mapping is a function of the identifier alone: equal identifiers give
/// equal external identifiers, and distinct identifiers are hashed from
/// distinct names.
pub proof fn lemma_external_id_deterministic(a: Id, b: Id)
    ensures
        a == b ==> ext_id_of(a) == ext_id_of(b),
        a != b ==> id_text(a.raw) != id_text(b.raw),
{
    if a != b && id_text(a.raw) == id_text(b.raw) {
        let ta = id_text(a.raw);
        let tb = id_text(b.raw);
        lemma_dec_text_len(a.raw as nat);
        lemma_dec_text_len(b.raw as nat);
        assert(dec_text(a.raw as nat) =~= ta.subrange(3, ta.len() - 1));
        assert(dec_text(b.raw as nat) =~= tb.subrange(3, tb.len() - 1));
        lemma_dec_text_injective(a.raw as nat, b.raw as nat);
    }
}

proof fn lemma_dec_text_len(n: nat)
    ensures
        n < 10 ==> dec_text(n).len() == 1,
        n >= 10 ==> dec_text(n).len() >= 2,
    decreases n,
{
    if n >= 10 {
        lemma_dec_text_len(n / 10);
    }
}

proof fn lemma_digit_char_injective(a: nat, b: nat)
    requires
        a < 10,
        b < 10,
        digit_char(a) == digit_char(b),
    ensures
        a == b,
{
}

proof fn lemma_dec_text_injective(n: nat, m: nat)
    requires
        dec_text(n) == dec_text(m),
    ensures
        n == m,
    decreases n,
{
    lemma_dec_text_len(n);
    lemma_dec_text_len(m);
    let s = dec_text(n);
    if n < 10 {
        assert(s[0] == digit_char(n));
        assert(dec_text(m)[0] == digit_char(m));
        lemma_digit_char_injective(n, m);
    } else {
        assert(s.last() == digit_char(n % 10));
        assert(dec_text(m).last() == digit_char(m % 10));
        lemma_digit_char_injective(n % 10, m % 10);
        assert(dec_text(n / 10) =~= s.drop_last());
        assert(dec_text(m / 10) =~= dec_text(m).drop_last());
        lemma_dec_text_injective(n / 10, m / 10);
    }
}

} // verus!
