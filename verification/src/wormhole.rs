//! The values of the Wormhole core bridge that this program's logic relies
//! on, and the byte encodings used to derive its program addresses.
use vstd::prelude::*;

verus! {

/// Wormhole chain ID of Solana.
pub const CHAIN_ID_SOLANA: u16 = 1;

/// The sequence number of the first message that an emitter posts.
pub const INITIAL_SEQUENCE: u64 = 1;

/// Seed prefix of the emitter address: the bytes of `"emitter"`.
pub const SEED_PREFIX_EMITTER: [u8; 7] = [101, 109, 105, 116, 116, 101, 114];

/// Seed prefix of a posted message account: the bytes of `"sent"`.
pub const SEED_PREFIX_SENT: [u8; 4] = [115, 101, 110, 116];

/// The bytes of `"emitter"`.
pub open spec fn emitter_prefix() -> Seq<u8> {
    seq![101u8, 109u8, 105u8, 116u8, 116u8, 101u8, 114u8]
}

/// The bytes of `"sent"`.
pub open spec fn sent_prefix() -> Seq<u8> {
    seq![115u8, 101u8, 110u8, 116u8]
}

/// How long the guardians wait before they attest a posted message.
#[derive(Clone, Copy, Debug, PartialEq, Eq, Structural)]
pub enum Finality {
    Confirmed,
    Finalized,
}

/// The number under which a finality is stored.
pub open spec fn finality_code(f: Finality) -> u8 {
    match f {
        Finality::Confirmed => 0,
        Finality::Finalized => 1,
    }
}

impl Finality {
    /// The number under which this finality is stored (`Confirmed` is 0,
    /// `Finalized` is 1).
    pub fn to_u8(&self) -> (r: u8)
        ensures
            r == finality_code(*self),
    {
        match self {
            Finality::Confirmed => 0,
            Finality::Finalized => 1,
        }
    }

    /// The finality stored under `value`, if any: 0 and 1 are the only codes.
    pub fn from_u8(value: u8) -> (r: Option<Finality>)
        ensures
            r matches Some(f) ==> finality_code(f) == value,
            r is None <==> value > 1,
    {
        if value == 0 {
            Some(Finality::Confirmed)
        } else if value == 1 {
            Some(Finality::Finalized)
        } else {
            None
        }
    }
}

/// The lowest `k` bytes of `n`, least significant first.
pub open spec fn le_bytes(n: nat, k: nat) -> Seq<u8>
    decreases k,
{
    if k == 0 {
        Seq::empty()
    } else {
        seq![(n % 256) as u8] + le_bytes(n / 256, (k - 1) as nat)
    }
}

/// The eight bytes of `n`, least significant first.
pub fn u64_le_bytes(n: u64) -> (r: Vec<u8>)
    ensures
        r@ == le_bytes(n as nat, 8),
{
    let mut bytes: Vec<u8> = Vec::new();
    let mut x: u64 = n;
    let mut i: usize = 0;
    while i < 8
        invariant
            i <= 8,
            bytes@ + le_bytes(x as nat, (8 - i) as nat) == le_bytes(n as nat, 8),
        decreases 8 - i,
    {
        let ghost before = bytes@;
        assert(le_bytes(x as nat, (8 - i) as nat) == seq![(x % 256) as u8] + le_bytes(
            (x / 256) as nat,
            (8 - i - 1) as nat,
        ));
        bytes.push((x % 256) as u8);
        assert(bytes@ + le_bytes((x / 256) as nat, (8 - i - 1) as nat) =~= before + le_bytes(
            x as nat,
            (8 - i) as nat,
        ));
        x = x / 256;
        i = i + 1;
    }
    assert(le_bytes(x as nat, 0) =~= Seq::<u8>::empty());
    assert(bytes@ + Seq::<u8>::empty() =~= bytes@);
    bytes
}

/// A copy of the bytes of `a`.
pub fn bytes_to_vec(a: &[u8]) -> (r: Vec<u8>)
    ensures
        r@ == a@,
{
    let mut v: Vec<u8> = Vec::new();
    for i in 0..a.len()
        invariant
            v@ == a@.subrange(0, i as int),
    {
        v.push(a[i]);
        assert(a@.subrange(0, i + 1) == a@.subrange(0, i as int).push(a@[i as int]));
    }
    assert(a@.subrange(0, a@.len() as int) == a@);
    v
}

/// The signer seeds of the message account that a post at `sequence`
/// writes: `"sent"`, the eight little-endian bytes of `sequence`, and the
/// account's bump.
pub fn message_signer_seeds(sequence: u64, bump: u8) -> (r: Vec<Vec<u8>>)
    ensures
        r.deep_view() == seq![sent_prefix(), le_bytes(sequence as nat, 8), seq![bump]],
{
    let prefix = SEED_PREFIX_SENT;
    let mut seeds: Vec<Vec<u8>> = Vec::new();
    seeds.push(bytes_to_vec(prefix.as_slice()));
    seeds.push(u64_le_bytes(sequence));
    seeds.push(vec![bump]);
    assert(prefix@ =~= sent_prefix());
    assert(seeds@[0].deep_view() =~= sent_prefix());
    assert(seeds@[1].deep_view() =~= le_bytes(sequence as nat, 8));
    assert(seeds@[2].deep_view() =~= seq![bump]);
    assert(seeds.deep_view() =~= seq![sent_prefix(), le_bytes(sequence as nat, 8), seq![bump]]);
    seeds
}

/// The signer seeds of this program's emitter: `"emitter"` and its bump.
pub fn emitter_signer_seeds(bump: u8) -> (r: Vec<Vec<u8>>)
    ensures
        r.deep_view() == seq![emitter_prefix(), seq![bump]],
{
    let prefix = SEED_PREFIX_EMITTER;
    let mut seeds: Vec<Vec<u8>> = Vec::new();
    seeds.push(bytes_to_vec(prefix.as_slice()));
    seeds.push(vec![bump]);
    assert(prefix@ =~= emitter_prefix());
    assert(seeds@[0].deep_view() =~= emitter_prefix());
    assert(seeds@[1].deep_view() =~= seq![bump]);
    assert(seeds.deep_view() =~= seq![emitter_prefix(), seq![bump]]);
    seeds
}

} // verus!
