//! Content-addressed message identity: the identifier of a message is the
//! decimal rendering of a 64-bit SipHash digest over the payload alone.
use std::collections::hash_map::DefaultHasher;
use std::hash::Hasher;
use vstd::prelude::*;
use vstd::std_specs::hash::DefaultHasherAdditionalSpecFns;

verus! {

/// The character of a decimal digit.
pub open spec fn digit_char(d: nat) -> char {
    if d == 0 {
        '0'
    } else if d == 1 {
        '1'
    } else if d == 2 {
        '2'
    } else if d == 3 {
        '3'
    } else if d == 4 {
        '4'
    } else if d == 5 {
        '5'
    } else if d == 6 {
        '6'
    } else if d == 7 {
        '7'
    } else if d == 8 {
        '8'
    } else {
        '9'
    }
}

/// The shortest decimal rendering of `n`.
pub open spec fn decimal(n: nat) -> Seq<char>
    decreases n,
{
    if n < 10 {
        seq![digit_char(n)]
    } else {
        decimal(n / 10) + seq![digit_char(n % 10)]
    }
}

/// The eight little-endian bytes of `n`: the length prefix that hashing a
/// byte slice feeds the hasher ahead of the bytes themselves.
pub open spec fn le_bytes(n: nat, k: nat) -> Seq<u8>
    decreases k,
{
    if k == 0 {
        Seq::empty()
    } else {
        seq![(n % 256) as u8] + le_bytes(n / 256, (k - 1) as nat)
    }
}

/// The writes made into the hasher for a payload: its length, then its bytes.
pub open spec fn hashed_writes(data: Seq<u8>) -> Seq<Seq<u8>> {
    seq![le_bytes(data.len(), 8), data]
}

/// The 64-bit digest of a payload.
pub open spec fn content_digest(data: Seq<u8>) -> u64 {
    DefaultHasher::spec_finish(hashed_writes(data))
}

/// The identifier of a message: it depends on the payload bytes alone, not
/// on the sender, the topic or the time.
pub open spec fn message_id_of(data: Seq<u8>) -> Seq<char> {
    decimal(content_digest(data) as nat)
}

proof fn lemma_digit_char_injective(a: nat, b: nat)
    requires
        a < 10,
        b < 10,
        digit_char(a) == digit_char(b),
    ensures
        a == b,
{
}

proof fn lemma_decimal_len(n: nat)
    ensures
        decimal(n).len() >= 1,
        n >= 10 ==> decimal(n).len() >= 2,
    decreases n,
{
    if n >= 10 {
        lemma_decimal_len(n / 10);
    }
}

/// Two numbers with the same decimal rendering are equal.
pub proof fn lemma_decimal_injective(a: nat, b: nat)
    requires
        decimal(a) == decimal(b),
    ensures
        a == b,
    decreases a,
{
    lemma_decimal_len(a);
    lemma_decimal_len(b);
    if a < 10 && b < 10 {
        assert(decimal(a)[0] == digit_char(a));
        assert(decimal(b)[0] == digit_char(b));
        lemma_digit_char_injective(a, b);
    } else if a >= 10 && b >= 10 {
        let da = decimal(a);
        let db = decimal(b);
        assert(da[da.len() - 1] == digit_char(a % 10));
        assert(db[db.len() - 1] == digit_char(b % 10));
        lemma_digit_char_injective(a % 10, b % 10);
        assert(decimal(a / 10) == da.drop_last());
        assert(decimal(b / 10) == db.drop_last());
        lemma_decimal_injective(a / 10, b / 10);
    }
}

/// Message identity is a function of the payload: equal payloads always get
/// equal identifiers, and two identifiers are equal exactly when the 64-bit
/// digests of the payloads are, so the rendering adds no collision of its own.
pub proof fn lemma_message_id_content_addressed(p1: Seq<u8>, p2: Seq<u8>)
    ensures
        p1 == p2 ==> message_id_of(p1) == message_id_of(p2),
        message_id_of(p1) == message_id_of(p2) <==> content_digest(p1) == content_digest(p2),
{
    if message_id_of(p1) == message_id_of(p2) {
        lemma_decimal_injective(content_digest(p1) as nat, content_digest(p2) as nat);
    }
}

fn digit_str(d: u64) -> (r: &'static str)
    requires
        d < 10,
    ensures
        r@ == seq![digit_char(d as nat)],
{
    proof {
        reveal_strlit("0");
        reveal_strlit("1");
        reveal_strlit("2");
        reveal_strlit("3");
        reveal_strlit("4");
        reveal_strlit("5");
        reveal_strlit("6");
        reveal_strlit("7");
        reveal_strlit("8");
        reveal_strlit("9");
    }
    if d == 0 {
        "0"
    } else if d == 1 {
        "1"
    } else if d == 2 {
        "2"
    } else if d == 3 {
        "3"
    } else if d == 4 {
        "4"
    } else if d == 5 {
        "5"
    } else if d == 6 {
        "6"
    } else if d == 7 {
        "7"
    } else if d == 8 {
        "8"
    } else {
        "9"
    }
}

/// Appends the decimal rendering of `n` to `out`.
pub fn push_decimal(n: u64, out: &mut String)
    ensures
        final(out)@ == old(out)@ + decimal(n as nat),
    decreases n,
{
    if n >= 10 {
        push_decimal(n / 10, out);
    }
    out.append(digit_str(n % 10));
    proof {
        if n >= 10 {
            assert(final(out)@ =~= old(out)@ + decimal(n as nat));
        }
    }
}

/// The decimal rendering of `n`.
pub fn decimal_string(n: u64) -> (r: String)
    ensures
        r@ == decimal(n as nat),
{
    let mut s = String::new();
    push_decimal(n, &mut s);
    proof {
        assert(s@ =~= decimal(n as nat));
    }
    s
}

/// The eight little-endian bytes of `n`.
pub fn length_prefix(n: u64) -> (r: Vec<u8>)
    ensures
        r@ == le_bytes(n as nat, 8),
{
    let mut out: Vec<u8> = Vec::new();
    let mut rest: u64 = n;
    let mut k: usize = 0;
    while k < 8
        invariant
            k <= 8,
            out@ + le_bytes(rest as nat, (8 - k) as nat) == le_bytes(n as nat, 8),
        decreases 8 - k,
    {
        let ghost prev = out@;
        out.push((rest % 256) as u8);
        proof {
            assert(le_bytes(rest as nat, (8 - k) as nat) == seq![(rest % 256) as u8] + le_bytes(
                (rest / 256) as nat,
                (8 - k - 1) as nat,
            ));
            assert(out@ + le_bytes((rest / 256) as nat, (8 - k - 1) as nat) =~= prev + le_bytes(
                rest as nat,
                (8 - k) as nat,
            ));
        }
        rest = rest / 256;
        k = k + 1;
    }
    proof {
        assert(out@ =~= out@ + le_bytes(rest as nat, 0));
    }
    out
}

/// The 64-bit digest of a payload: its length as eight little-endian bytes,
/// then its bytes, fed to a `DefaultHasher` (SipHash with fixed keys).
pub fn content_hash(data: &[u8]) -> (r: u64)
    ensures
        r == content_digest(data@),
{
    let prefix = length_prefix(data.len() as u64);
    let mut hasher = DefaultHasher::new();
    hasher.write(prefix.as_slice());
    hasher.write(data);
    let r = hasher.finish();
    proof {
        assert(hasher@ =~= hashed_writes(data@));
    }
    r
}

/// The identifier under which the messaging layer deduplicates a payload.
pub fn message_id(data: &[u8]) -> (r: String)
    ensures
        r@ == message_id_of(data@),
{
    decimal_string(content_hash(data))
}

} // verus!
