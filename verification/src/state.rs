use vstd::bytes::*;
use vstd::prelude::*;

verus! {

/// Tag byte that opens every persisted escrow record.
pub const RECORD_TAG: u8 = 1;

/// Exact byte length of a persisted escrow record:
/// 1 tag + 8 seed + 32 maker + 32 mint_a + 32 mint_b + 8 receive + 1 bump.
pub const RECORD_LEN: usize = 114;

/// One pending conditional exchange.
///
/// The record's own address is a pure function of (namespace tag, `maker`,
/// `seed`); `bump` caches the disambiguation value returned by address
/// derivation when the record was created.  `receive` is the quantity of
/// `mint_b` the maker demands, strictly positive for the record's lifetime.
#[derive(Clone, Copy, Debug, PartialEq, Eq)]
pub struct Escrow {
    /// Maker-chosen nonce distinguishing this escrow among the maker's.
    pub seed: u64,
    /// Identity of the creating party.
    pub maker: [u8; 32],
    /// Identifier of the deposited asset.
    pub mint_a: [u8; 32],
    /// Identifier of the requested asset.
    pub mint_b: [u8; 32],
    /// Quantity of the requested asset the maker demands.
    pub receive: u64,
    /// Cached derivation bump of the record's address.
    pub bump: u8,
}

/// The persisted form of a record: tag, then each field in order, numeric
/// fields little-endian.
pub open spec fn spec_encode(e: Escrow) -> Seq<u8> {
    seq![RECORD_TAG] + spec_u64_to_le_bytes(e.seed) + e.maker@ + e.mint_a@ + e.mint_b@
        + spec_u64_to_le_bytes(e.receive) + seq![e.bump]
}

/// Every encoded record is `RECORD_LEN` bytes and opens with `RECORD_TAG`.
pub proof fn lemma_encode_form(e: Escrow)
    ensures
        spec_encode(e).len() == RECORD_LEN,
        spec_encode(e)[0] == RECORD_TAG,
{
    lemma_auto_spec_u64_to_from_le_bytes();
}

/// Two records with the same encoding agree on every field.
pub proof fn lemma_encode_injective(e1: Escrow, e2: Escrow)
    requires
        spec_encode(e1) == spec_encode(e2),
    ensures
        e1.seed == e2.seed,
        e1.maker@ == e2.maker@,
        e1.mint_a@ == e2.mint_a@,
        e1.mint_b@ == e2.mint_b@,
        e1.receive == e2.receive,
        e1.bump == e2.bump,
{
    lemma_auto_spec_u64_to_from_le_bytes();
    let s1 = spec_encode(e1);
    let s2 = spec_encode(e2);
    assert(s1.subrange(1, 9) =~= spec_u64_to_le_bytes(e1.seed));
    assert(s2.subrange(1, 9) =~= spec_u64_to_le_bytes(e2.seed));
    assert(e1.seed == e2.seed) by {
        assert(spec_u64_from_le_bytes(spec_u64_to_le_bytes(e1.seed)) == e1.seed);
        assert(spec_u64_from_le_bytes(spec_u64_to_le_bytes(e2.seed)) == e2.seed);
    }
    assert(e1.maker@ =~= s1.subrange(9, 41));
    assert(e2.maker@ =~= s2.subrange(9, 41));
    assert(e1.mint_a@ =~= s1.subrange(41, 73));
    assert(e2.mint_a@ =~= s2.subrange(41, 73));
    assert(e1.mint_b@ =~= s1.subrange(73, 105));
    assert(e2.mint_b@ =~= s2.subrange(73, 105));
    assert(s1.subrange(105, 113) =~= spec_u64_to_le_bytes(e1.receive));
    assert(s2.subrange(105, 113) =~= spec_u64_to_le_bytes(e2.receive));
    assert(e1.receive == e2.receive) by {
        assert(spec_u64_from_le_bytes(spec_u64_to_le_bytes(e1.receive)) == e1.receive);
        assert(spec_u64_from_le_bytes(spec_u64_to_le_bytes(e2.receive)) == e2.receive);
    }
    assert(e1.bump == s1[113]);
    assert(e2.bump == s2[113]);
}

/// Append every byte of `bytes` to `out`, in order.
pub(crate) fn push_bytes(out: &mut Vec<u8>, bytes: &[u8])
    ensures
        final(out)@ == old(out)@ + bytes@,
{
    let ghost base = out@;
    let mut i: usize = 0;
    while i < bytes.len()
        invariant
            i <= bytes@.len(),
            out@ == base + bytes@.subrange(0, i as int),
        decreases bytes@.len() - i,
    {
        out.push(bytes[i]);
        i = i + 1;
        proof {
            assert(bytes@.subrange(0, i as int) =~= bytes@.subrange(0, i - 1).push(
                bytes@[i - 1],
            ));
        }
    }
    proof {
        assert(bytes@.subrange(0, bytes@.len() as int) =~= bytes@);
    }
}

/// Serialize a record into its persisted form.
pub fn encode_record(e: &Escrow) -> (out: Vec<u8>)
    ensures
        out@ == spec_encode(*e),
        out@.len() == RECORD_LEN,
{
    let mut out: Vec<u8> = Vec::new();
    out.push(RECORD_TAG);
    let seed_bytes = u64_to_le_bytes(e.seed);
    push_bytes(&mut out, seed_bytes.as_slice());
    push_bytes(&mut out, e.maker.as_slice());
    push_bytes(&mut out, e.mint_a.as_slice());
    push_bytes(&mut out, e.mint_b.as_slice());
    let receive_bytes = u64_to_le_bytes(e.receive);
    push_bytes(&mut out, receive_bytes.as_slice());
    out.push(e.bump);
    proof {
        lemma_auto_spec_u64_to_from_le_bytes();
        assert(out@ =~= spec_encode(*e));
    }
    out
}

/// Copy 32 bytes starting at `start` into a fresh key.
fn read_key(bytes: &[u8], start: usize) -> (k: [u8; 32])
    requires
        start + 32 <= bytes@.len(),
    ensures
        k@ == bytes@.subrange(start as int, start as int + 32),
{
    let n: usize = bytes.len();
    let mut k = [0u8; 32];
    let mut i: usize = 0;
    while i < 32
        invariant
            i <= 32,
            start + 32 <= n == bytes@.len(),
            k@.len() == 32,
            forall|j: int| 0 <= j < i ==> k@[j] == bytes@[start + j],
        decreases 32 - i,
    {
        k[i] = bytes[start + i];
        i = i + 1;
    }
    proof {
        assert(k@ =~= bytes@.subrange(start as int, start as int + 32));
    }
    k
}

/// Read a little-endian 64-bit quantity starting at `start`.
fn read_u64(bytes: &[u8], start: usize) -> (x: u64)
    requires
        start + 8 <= bytes@.len(),
    ensures
        x == spec_u64_from_le_bytes(bytes@.subrange(start as int, start as int + 8)),
{
    let n: usize = bytes.len();
    let mut field: Vec<u8> = Vec::new();
    let mut i: usize = 0;
    while i < 8
        invariant
            i <= 8,
            start + 8 <= n == bytes@.len(),
            field@.len() == i,
            forall|j: int| 0 <= j < i ==> field@[j] == bytes@[start + j],
        decreases 8 - i,
    {
        field.push(bytes[start + i]);
        i = i + 1;
    }
    proof {
        assert(field@ =~= bytes@.subrange(start as int, start as int + 8));
    }
    u64_from_le_bytes(field.as_slice())
}

/// Parse a persisted record.  Succeeds exactly on byte strings of length
/// `RECORD_LEN` that open with `RECORD_TAG`, and then returns the one record
/// whose encoding is the input.
pub fn decode_record(bytes: &[u8]) -> (r: Option<Escrow>)
    ensures
        match r {
            Some(e) => bytes@ == spec_encode(e),
            None => bytes@.len() != RECORD_LEN || bytes@[0] != RECORD_TAG,
        },
{
    if bytes.len() != RECORD_LEN {
        return None;
    }
    if bytes[0] != RECORD_TAG {
        return None;
    }
    let seed = read_u64(bytes, 1);
    let maker = read_key(bytes, 9);
    let mint_a = read_key(bytes, 41);
    let mint_b = read_key(bytes, 73);
    let receive = read_u64(bytes, 105);
    let bump = bytes[113];
    let e = Escrow { seed, maker, mint_a, mint_b, receive, bump };
    proof {
        lemma_auto_spec_u64_to_from_le_bytes();
        assert(spec_u64_to_le_bytes(e.seed) =~= bytes@.subrange(1, 9));
        assert(spec_u64_to_le_bytes(e.receive) =~= bytes@.subrange(105, 113));
        assert(bytes@ =~= spec_encode(e));
    }
    Some(e)
}

/// Compare two 32-byte identities for equality.
pub fn key_eq(a: &[u8; 32], b: &[u8; 32]) -> (r: bool)
    ensures
        r <==> a@ == b@,
{
    let mut i: usize = 0;
    while i < 32
        invariant
            i <= 32,
            forall|j: int| 0 <= j < i ==> a@[j] == b@[j],
        decreases 32 - i,
    {
        if a[i] != b[i] {
            return false;
        }
        i = i + 1;
    }
    proof {
        assert(a@ =~= b@);
    }
    true
}

} // verus!
