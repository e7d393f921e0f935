use vstd::prelude::*;

verus! {

/// The xxh64 digest (seed 0) of a byte sequence.
pub uninterp spec fn xxh64_of(bytes: Seq<u8>) -> u64;

/// Relies on `xxhash_rust::xxh64::xxh64`: the digest depends on the bytes
/// and the seed alone.
#[verifier::external_body]
fn xxh64_seed0(bytes: &[u8]) -> (r: u64)
    ensures
        r == xxh64_of(bytes@),
{
    xxhash_rust::xxh64::xxh64(bytes, 0)
}

/// The lowercase hexadecimal digit for `n` (taken modulo 16).
pub open spec fn hex_char(n: nat) -> char {
    let d = n % 16;
    if d < 10 {
        (('0' as u8) + d) as char
    } else {
        (('a' as u8) + (d - 10)) as char
    }
}

/// The last `n` hexadecimal digits of `v`, most significant first.
pub open spec fn hex_digits(v: nat, n: nat) -> Seq<char>
    decreases n,
{
    if n == 0 {
        Seq::empty()
    } else {
        hex_digits(v / 16, (n - 1) as nat).push(hex_char(v))
    }
}

/// The line hash of `bytes`: its digest as 16 lowercase hexadecimal digits.
pub open spec fn hash_text(bytes: Seq<u8>) -> Seq<char> {
    hex_digits(xxh64_of(bytes) as nat, 16)
}

/// `16^n`.
pub open spec fn pow16(n: nat) -> nat
    decreases n,
{
    if n == 0 {
        1
    } else {
        16 * pow16((n - 1) as nat)
    }
}

fn hex_str(d: u64) -> (r: &'static str)
    requires
        d < 16,
    ensures
        r@ == seq![hex_char(d as nat)],
{
    let r = match d {
        0 => "0",
        1 => "1",
        2 => "2",
        3 => "3",
        4 => "4",
        5 => "5",
        6 => "6",
        7 => "7",
        8 => "8",
        9 => "9",
        10 => "a",
        11 => "b",
        12 => "c",
        13 => "d",
        14 => "e",
        _ => "f",
    };
    proof {
        reveal_strlit("0");
        reveal_strlit("1");
        reveal_strlit("2");
        reveal_strlit("3");
        reveal_strlit("4");
        reveal_strlit("5");
        reveal_strlit("6");
        reveal_strlit("7");
        reveal_strlit("8");
        reveal_strlit("9");
        reveal_strlit("a");
        reveal_strlit("b");
        reveal_strlit("c");
        reveal_strlit("d");
        reveal_strlit("e");
        reveal_strlit("f");
    }
    r
}

fn push_hex(out: &mut String, v: u64, n: usize)
    ensures
        final(out)@ == old(out)@ + hex_digits(v as nat, n as nat),
    decreases n,
{
    if n > 0 {
        push_hex(out, v / 16, n - 1);
        let d = hex_str(v % 16);
        out.append(d);
        assert(final(out)@ =~= old(out)@ + hex_digits(v as nat, n as nat));
    }
}

/// The line hash of `line` (the bytes of a line without its terminator):
/// xxh64 with seed 0, rendered as exactly 16 lowercase hexadecimal digits.
pub fn line_hash(line: &[u8]) -> (r: String)
    ensures
        r@ == hash_text(line@),
        r@.len() == 16,
{
    let h = xxh64_seed0(line);
    let mut out = String::new();
    push_hex(&mut out, h, 16);
    proof {
        lemma_hex_digits_len(h as nat, 16);
    }
    out
}

proof fn lemma_hex_digits_len(v: nat, n: nat)
    ensures
        hex_digits(v, n).len() == n,
    decreases n,
{
    if n > 0 {
        lemma_hex_digits_len(v / 16, (n - 1) as nat);
    }
}

proof fn lemma_hex_char_injective(a: nat, b: nat)
    requires
        hex_char(a) == hex_char(b),
    ensures
        a % 16 == b % 16,
{
}

/// Two values below `16^n` have the same `n` hexadecimal digits only if they
/// are equal: the rendering loses nothing.
pub proof fn lemma_hex_injective(a: nat, b: nat, n: nat)
    requires
        a < pow16(n),
        b < pow16(n),
        hex_digits(a, n) == hex_digits(b, n),
    ensures
        a == b,
    decreases n,
{
    if n > 0 {
        let m = (n - 1) as nat;
        let da = hex_digits(a, n);
        let db = hex_digits(b, n);
        assert(da.last() == hex_char(a));
        assert(db.last() == hex_char(b));
        lemma_hex_char_injective(a, b);
        assert(da.drop_last() =~= hex_digits(a / 16, m));
        assert(db.drop_last() =~= hex_digits(b / 16, m));
        let p = pow16(m);
        assert(a / 16 < p) by (nonlinear_arith)
            requires a < 16 * p;
        assert(b / 16 < p) by (nonlinear_arith)
            requires b < 16 * p;
        lemma_hex_injective(a / 16, b / 16, m);
        assert(a == 16 * (a / 16) + a % 16) by (nonlinear_arith);
        assert(b == 16 * (b / 16) + b % 16) by (nonlinear_arith);
    }
}

/// Line hashes are a function of the line's bytes: identical bytes give
/// identical hashes, and two lines whose digests differ get different hash
/// strings. (That different bytes give different digests is a property of
/// xxh64 that holds only with high probability, and is not stated here.)
pub proof fn lemma_line_hash_deterministic(a: Seq<u8>, b: Seq<u8>)
    ensures
        a == b ==> hash_text(a) == hash_text(b),
        xxh64_of(a) != xxh64_of(b) ==> hash_text(a) != hash_text(b),
        hash_text(a).len() == 16,
{
    lemma_hex_digits_len(xxh64_of(a) as nat, 16);
    reveal_with_fuel(pow16, 17);
    assert(pow16(16) == 0x1_0000_0000_0000_0000nat);
    if hash_text(a) == hash_text(b) {
        lemma_hex_injective(xxh64_of(a) as nat, xxh64_of(b) as nat, 16);
    }
}

} // verus!
