//! Local currency identifiers and the byte key that names a token.
//!
//! The key format is this library's own: a token's identifier as eight bytes,
//! least significant first.
use vstd::prelude::*;

verus! {

/// Identifier of a token registered with the token ledger.
pub type TokenId = u64;

/// Number of bytes in the key of a token.
pub const TOKEN_KEY_LEN: usize = 8;

/// A local currency: the chain's own issued currency or a registered token.
#[derive(Clone, Copy, Debug, PartialEq, Eq, Structural)]
pub enum CurrencyId {
    Native,
    Token(TokenId),
}

/// Little-endian value of a byte string.
pub open spec fn le_value(s: Seq<u8>) -> nat
    decreases s.len(),
{
    if s.len() == 0 {
        0
    } else {
        s[0] as nat + 256 * le_value(s.drop_first())
    }
}

/// The `k` low bytes of `n`, least significant first.
pub open spec fn le_bytes(n: nat, k: nat) -> Seq<u8>
    decreases k,
{
    if k == 0 {
        Seq::empty()
    } else {
        seq![(n % 256) as u8].add(le_bytes(n / 256, (k - 1) as nat))
    }
}

/// `256` raised to `k`.
pub open spec fn pow256(k: nat) -> nat
    decreases k,
{
    if k == 0 {
        1
    } else {
        256 * pow256((k - 1) as nat)
    }
}

/// The key that names token `id`.
pub open spec fn token_key(id: TokenId) -> Seq<u8> {
    le_bytes(id as nat, TOKEN_KEY_LEN as nat)
}

/// The token a key names, if it names one: exactly eight bytes, read little-endian.
pub open spec fn token_of_key(key: Seq<u8>) -> Option<TokenId> {
    if key.len() == TOKEN_KEY_LEN {
        Some(le_value(key) as TokenId)
    } else {
        None
    }
}

proof fn lemma_le_value_bound(s: Seq<u8>)
    ensures
        le_value(s) < pow256(s.len()),
    decreases s.len(),
{
    if s.len() > 0 {
        lemma_le_value_bound(s.drop_first());
        let v = le_value(s.drop_first());
        let p = pow256((s.len() - 1) as nat);
        assert(s[0] as nat + 256 * v < 256 * p) by (nonlinear_arith)
            requires
                v < p,
                s[0] < 256,
        ;
    }
}

proof fn lemma_le_round_trip(n: nat, k: nat)
    requires
        n < pow256(k),
    ensures
        le_bytes(n, k).len() == k,
        le_value(le_bytes(n, k)) == n,
    decreases k,
{
    if k == 0 {
        assert(n == 0);
    } else {
        let p = pow256((k - 1) as nat);
        assert(n / 256 < p) by (nonlinear_arith)
            requires
                n < 256 * p,
        ;
        lemma_le_round_trip(n / 256, (k - 1) as nat);
        let b = le_bytes(n, k);
        assert(b.drop_first() =~= le_bytes(n / 256, (k - 1) as nat));
        assert(n == n % 256 + 256 * (n / 256)) by (nonlinear_arith);
    }
}

proof fn lemma_pow256_8()
    ensures
        pow256(8) == 0x1_0000_0000_0000_0000,
{
    reveal_with_fuel(pow256, 9);
}

/// Decoding the key of a token gives that token back.
pub proof fn lemma_token_key_round_trip(id: TokenId)
    ensures
        token_key(id).len() == TOKEN_KEY_LEN,
        token_of_key(token_key(id)) == Some(id),
{
    lemma_pow256_8();
    lemma_le_round_trip(id as nat, 8);
}

/// The key that names token `id`.
pub fn encode_token_key(id: TokenId) -> (r: Vec<u8>)
    ensures
        r@ == token_key(id),
{
    let mut out: Vec<u8> = Vec::new();
    let mut rest: u64 = id;
    let mut i: usize = 0;
    while i < TOKEN_KEY_LEN
        invariant
            i <= TOKEN_KEY_LEN,
            out@ + le_bytes(rest as nat, (TOKEN_KEY_LEN - i) as nat) == token_key(id),
        decreases TOKEN_KEY_LEN - i,
    {
        let ghost before = out@;
        let ghost tail = le_bytes((rest / 256) as nat, (TOKEN_KEY_LEN - i - 1) as nat);
        out.push((rest % 256) as u8);
        assert(out@ + tail =~= before + le_bytes(rest as nat, (TOKEN_KEY_LEN - i) as nat));
        rest = rest / 256;
        i = i + 1;
    }
    assert(out@ =~= token_key(id));
    out
}

/// The token that `key` names, or `None` where it names none.
pub fn decode_token_key(key: &Vec<u8>) -> (r: Option<TokenId>)
    ensures
        r == token_of_key(key@),
{
    if key.len() != TOKEN_KEY_LEN {
        return None;
    }
    let mut acc: u64 = 0;
    let mut i: usize = TOKEN_KEY_LEN;
    while i > 0
        invariant
            key@.len() == TOKEN_KEY_LEN,
            i <= TOKEN_KEY_LEN,
            acc as nat == le_value(key@.subrange(i as int, TOKEN_KEY_LEN as int)),
        decreases i,
    {
        let ghost s = key@.subrange(i - 1, TOKEN_KEY_LEN as int);
        assert(s.drop_first() =~= key@.subrange(i as int, TOKEN_KEY_LEN as int));
        proof {
            lemma_le_value_bound(s);
            lemma_pow256_8();
            assert(pow256(s.len()) <= pow256(8)) by {
                lemma_pow256_mono(s.len(), 8);
            }
        }
        acc = key[i - 1] as u64 + 256 * acc;
        i = i - 1;
    }
    assert(key@.subrange(0, TOKEN_KEY_LEN as int) =~= key@);
    Some(acc)
}

proof fn lemma_pow256_mono(a: nat, b: nat)
    requires
        a <= b,
    ensures
        pow256(a) <= pow256(b),
    decreases b,
{
    if a < b {
        lemma_pow256_mono(a, (b - 1) as nat);
        assert(pow256((b - 1) as nat) >= 1) by {
            lemma_pow256_pos((b - 1) as nat);
        }
    }
}

proof fn lemma_pow256_pos(a: nat)
    ensures
        pow256(a) >= 1,
    decreases a,
{
    if a > 0 {
        lemma_pow256_pos((a - 1) as nat);
    }
}

} // verus!
