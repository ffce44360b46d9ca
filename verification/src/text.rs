//! Text: the registry's keys, their order in storage, and amounts written
//! in decimal.

use vstd::prelude::*;
use vstd::utf8::encode_utf8;

verus! {

/// The texts of a list of strings.
pub open spec fn texts(v: Seq<String>) -> Seq<Seq<char>> {
    v.map_values(|s: String| s@)
}

/// The number of bytes that a text takes in storage (UTF-8).
pub open spec fn byte_len(s: Seq<char>) -> nat {
    encode_utf8(s).len()
}

/// The longest key component, in bytes, that the storage layer can encode
/// in front of another: its length is written in two bytes.
pub const MAX_COMPONENT_BYTES: usize = 0xFFFF;

/// Whether a text can stand as a component of an index key.
pub open spec fn fits(s: Seq<char>) -> bool {
    byte_len(s) <= MAX_COMPONENT_BYTES
}

/// Whether `s` can stand as a component of an index key.
pub fn text_fits(s: &str) -> (r: bool)
    ensures
        r == fits(s@),
{
    s.as_bytes().len() <= MAX_COMPONENT_BYTES
}

/// Byte strings in dictionary order: the order in which storage walks its
/// keys.
pub open spec fn bytes_lt(a: Seq<u8>, b: Seq<u8>) -> bool
    decreases a.len(),
{
    if b.len() == 0 {
        false
    } else if a.len() == 0 {
        true
    } else if a[0] != b[0] {
        a[0] < b[0]
    } else {
        bytes_lt(a.drop_first(), b.drop_first())
    }
}

/// Keys in the order of their stored bytes.
pub open spec fn key_lt(a: Seq<char>, b: Seq<char>) -> bool {
    bytes_lt(encode_utf8(a), encode_utf8(b))
}

/// No byte string comes before itself.
pub proof fn bytes_lt_irreflexive(a: Seq<u8>)
    ensures
        !bytes_lt(a, a),
    decreases a.len(),
{
    if a.len() > 0 {
        bytes_lt_irreflexive(a.drop_first());
    }
}

/// Dictionary order is transitive.
pub proof fn bytes_lt_transitive(a: Seq<u8>, b: Seq<u8>, c: Seq<u8>)
    requires
        bytes_lt(a, b),
        bytes_lt(b, c),
    ensures
        bytes_lt(a, c),
    decreases a.len(),
{
    if a.len() > 0 && a[0] == b[0] && b[0] == c[0] {
        bytes_lt_transitive(a.drop_first(), b.drop_first(), c.drop_first());
    }
}

/// No key comes before itself.
pub proof fn key_lt_irreflexive(a: Seq<char>)
    ensures
        !key_lt(a, a),
{
    bytes_lt_irreflexive(encode_utf8(a));
}

/// The order of keys is transitive.
pub proof fn key_lt_transitive(a: Seq<char>, b: Seq<char>, c: Seq<char>)
    requires
        key_lt(a, b),
        key_lt(b, c),
    ensures
        key_lt(a, c),
{
    bytes_lt_transitive(encode_utf8(a), encode_utf8(b), encode_utf8(c));
}

/// The key under which the link of `address` on `platform` is stored: the
/// address, an underscore, the platform.
pub open spec fn link_key(address: Seq<char>, platform: Seq<char>) -> Seq<char> {
    address + seq!['_'] + platform
}

/// Builds the key under which the link of `address` on `platform` is stored.
pub fn join_key(address: &str, platform: &str) -> (key: String)
    ensures
        key@ == link_key(address@, platform@),
{
    let mut key: String = address.to_owned();
    key.append("_");
    key.append(platform);
    proof {
        reveal_strlit("_");
        assert(key@ =~= link_key(address@, platform@));
    }
    key
}

/// The bytes of two texts written one after the other are the bytes of the
/// first followed by those of the second.
pub proof fn byte_len_adds(a: Seq<char>, b: Seq<char>)
    ensures
        byte_len(a + b) == byte_len(a) + byte_len(b),
    decreases a.len(),
{
    if a.len() == 0 {
        assert(a + b =~= b);
    } else {
        assert((a + b).drop_first() =~= a.drop_first() + b);
        byte_len_adds(a.drop_first(), b);
    }
}

/// The key of a link whose address and platform fit an index key is short
/// enough for its length to be written in four bytes.
pub proof fn link_key_is_short(address: Seq<char>, platform: Seq<char>)
    requires
        fits(address),
        fits(platform),
    ensures
        byte_len(link_key(address, platform)) <= u32::MAX,
{
    let underscore = seq!['_'];
    byte_len_adds(address + underscore, platform);
    byte_len_adds(address, underscore);
    assert(byte_len(underscore) <= 4) by {
        assert(underscore.drop_first() =~= Seq::<char>::empty());
        assert(encode_utf8(Seq::<char>::empty()).len() == 0);
        assert(encode_utf8(underscore) == vstd::utf8::encode_scalar(underscore[0] as u32)
            + encode_utf8(underscore.drop_first()));
    }
}

/// Two links of one address have the same key exactly when they are on the
/// same platform.
pub proof fn link_key_tells_platforms_apart(address: Seq<char>, p: Seq<char>, q: Seq<char>)
    ensures
        link_key(address, p) == link_key(address, q) <==> p == q,
{
    if link_key(address, p) == link_key(address, q) {
        let n = address.len() + 1;
        assert(link_key(address, p).subrange(n as int, link_key(address, p).len() as int) =~= p);
        assert(link_key(address, q).subrange(n as int, link_key(address, q).len() as int) =~= q);
    }
}

/// Two links on one platform have the same key exactly when they are of
/// the same address.
pub proof fn link_key_tells_addresses_apart(a: Seq<char>, b: Seq<char>, platform: Seq<char>)
    ensures
        link_key(a, platform) == link_key(b, platform) <==> a == b,
{
    if link_key(a, platform) == link_key(b, platform) {
        assert(link_key(a, platform).len() == a.len() + 1 + platform.len());
        assert(link_key(b, platform).len() == b.len() + 1 + platform.len());
        assert(link_key(a, platform).subrange(0, a.len() as int) =~= a);
        assert(link_key(b, platform).subrange(0, b.len() as int) =~= b);
    }
}

/// The character of one decimal digit.
pub open spec fn digit_char(d: nat) -> char {
    if d == 0 {
        '0'
    } else if d == 1 {
        '1'
    } else if d == 2 {
        '2'
    } else if d == 3 {
        '3'
    } else if d == 4 {
        '4'
    } else if d == 5 {
        '5'
    } else if d == 6 {
        '6'
    } else if d == 7 {
        '7'
    } else if d == 8 {
        '8'
    } else {
        '9'
    }
}

/// A number in decimal: its digits, most significant first, without sign
/// and without leading zeros.
pub open spec fn decimal(n: nat) -> Seq<char>
    decreases n,
{
    if n < 10 {
        seq![digit_char(n)]
    } else {
        decimal(n / 10).push(digit_char(n % 10))
    }
}

/// The text of one decimal digit.
fn digit_text(d: u8) -> (s: &'static str)
    requires
        d < 10,
    ensures
        s@ == seq![digit_char(d as nat)],
{
    proof {
        reveal_strlit("0");
        reveal_strlit("1");
        reveal_strlit("2");
        reveal_strlit("3");
        reveal_strlit("4");
        reveal_strlit("5");
        reveal_strlit("6");
        reveal_strlit("7");
        reveal_strlit("8");
        reveal_strlit("9");
    }
    let s: &'static str = if d == 0 {
        "0"
    } else if d == 1 {
        "1"
    } else if d == 2 {
        "2"
    } else if d == 3 {
        "3"
    } else if d == 4 {
        "4"
    } else if d == 5 {
        "5"
    } else if d == 6 {
        "6"
    } else if d == 7 {
        "7"
    } else if d == 8 {
        "8"
    } else {
        "9"
    };
    assert(s@ =~= seq![digit_char(d as nat)]);
    s
}

/// The digits of `n` from the least significant on: what is left to write
/// when the digits are taken off one by one.
spec fn low_digits_first(n: nat) -> Seq<nat>
    decreases n,
{
    if n < 10 {
        seq![n]
    } else {
        seq![n % 10] + low_digits_first(n / 10)
    }
}

/// Writing the low-first digits back to front gives the decimal text.
proof fn decimal_is_low_digits_reversed(n: nat)
    ensures
        decimal(n).len() == low_digits_first(n).len(),
        forall|i: int|
            0 <= i < decimal(n).len() ==> decimal(n)[i] == digit_char(
                #[trigger] low_digits_first(n)[decimal(n).len() - 1 - i],
            ),
    decreases n,
{
    if n >= 10 {
        decimal_is_low_digits_reversed(n / 10);
        let d = decimal(n);
        let l = low_digits_first(n);
        assert forall|i: int| 0 <= i < d.len() implies d[i] == digit_char(
            #[trigger] l[d.len() - 1 - i],
        ) by {
            let shorter = decimal(n / 10);
            if i < d.len() - 1 {
                assert(d[i] == shorter[i]);
                assert(l[d.len() - 1 - i] == low_digits_first(n / 10)[shorter.len() - 1 - i]);
            } else {
                assert(l[d.len() - 1 - i] == n % 10);
            }
        }
    }
}

/// Writes an amount in decimal.
pub fn to_decimal(n: u128) -> (s: String)
    ensures
        s@ == decimal(n as nat),
{
    let mut digits: Vec<u8> = Vec::new();
    let mut rest: u128 = n;
    while rest >= 10
        invariant
            forall|i: int| 0 <= i < digits.len() ==> digits[i] < 10,
            low_digits_first(n as nat) == digits@.map_values(|d: u8| d as nat) + low_digits_first(
                rest as nat,
            ),
        decreases rest,
    {
        let ghost before = digits@;
        let d: u8 = (rest % 10) as u8;
        digits.push(d);
        proof {
            assert(digits@.map_values(|d: u8| d as nat) + low_digits_first((rest / 10) as nat)
                =~= before.map_values(|d: u8| d as nat) + low_digits_first(rest as nat));
        }
        rest = rest / 10;
    }
    digits.push(rest as u8);
    proof {
        let low = low_digits_first(n as nat);
        assert(digits@.map_values(|d: u8| d as nat) =~= low);
        decimal_is_low_digits_reversed(n as nat);
        assert forall|i: int| 0 <= i < digits.len() implies decimal(n as nat)[i] == digit_char(
            #[trigger] digits[digits.len() - 1 - i] as nat,
        ) by {
            let j = digits.len() - 1 - i;
            assert(digits@.map_values(|d: u8| d as nat)[j] == digits[j] as nat);
            assert(decimal(n as nat)[i] == digit_char(low[decimal(n as nat).len() - 1 - i]));
        }
    }
    let mut s: String = String::new();
    let mut k: usize = digits.len();
    while k > 0
        invariant
            k <= digits.len(),
            digits.len() == decimal(n as nat).len(),
            forall|i: int| 0 <= i < digits.len() ==> digits[i] < 10,
            forall|i: int|
                0 <= i < digits.len() ==> decimal(n as nat)[i] == digit_char(
                    #[trigger] digits[digits.len() - 1 - i] as nat,
                ),
            s@ == decimal(n as nat).subrange(0, digits.len() - k),
        decreases k,
    {
        k = k - 1;
        let ghost before = s@;
        s.append(digit_text(digits[k]));
        proof {
            let i = digits.len() - 1 - k;
            assert(digits[digits.len() - 1 - i] == digits[k as int]);
            assert(s@ =~= decimal(n as nat).subrange(0, digits.len() - k));
        }
    }
    assert(s@ =~= decimal(n as nat));
    s
}

} // verus!
