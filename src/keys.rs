//! Composite storage keys of the per-depositor reward records: a length-prefixed
//! owner address followed by the pool key.

use vstd::prelude::*;

verus! {

/// The two big-endian bytes of a namespace length below 2^16.
pub open spec fn length_prefix(len: nat) -> Seq<u8> {
    seq![(len / 256) as u8, (len % 256) as u8]
}

/// The two-byte big-endian length prefix of `namespace`, which must be shorter
/// than 2^16 bytes.
pub fn encode_length(namespace: &[u8]) -> (r: [u8; 2])
    requires
        namespace@.len() <= 0xFFFF,
    ensures
        r@ == length_prefix(namespace@.len()),
{
    let len = namespace.len();
    let r = [(len / 256) as u8, (len % 256) as u8];
    assert(r@ =~= length_prefix(namespace@.len()));
    r
}

/// The first key after every record of owner `addr`: the owner's prefix followed
/// by four `0xFF` bytes.
pub open spec fn range_start(addr: Seq<u8>) -> Seq<u8> {
    length_prefix(addr.len()) + addr + seq![255u8, 255u8, 255u8, 255u8]
}

/// The start of a range scan that resumes after the owner `start_after`.
pub fn calc_range_start_addr(start_after: Option<Vec<u8>>) -> (r: Option<Vec<u8>>)
    requires
        start_after matches Some(a) ==> a@.len() <= 0xFFFF,
    ensures
        match start_after {
            Some(a) => r matches Some(v) && v@ == range_start(a@),
            None => r is None,
        },
{
    match start_after {
        Some(addr) => {
            let mut out: Vec<u8> = Vec::new();
            let prefix = encode_length(addr.as_slice());
            out.push(prefix[0]);
            out.push(prefix[1]);
            out.extend_from_slice(addr.as_slice());
            out.push(255);
            out.push(255);
            out.push(255);
            out.push(255);
            assert(out@ =~= range_start(addr@));
            Some(out)
        },
        None => None,
    }
}

/// The owner and pool parts of a composite key, where the key is well formed: a
/// two-byte big-endian owner length, that many owner bytes, then the pool key.
pub open spec fn key_parts(key: Seq<u8>) -> Option<(Seq<u8>, Seq<u8>)> {
    if key.len() < 2 {
        None
    } else {
        let len = key[0] as nat * 256 + key[1] as nat;
        if 2 + len <= key.len() {
            Some((key.subrange(2, 2 + len as int), key.subrange(2 + len as int, key.len() as int)))
        } else {
            None
        }
    }
}

/// Splits a composite reward key into owner and pool parts; `None` where the key
/// is too short for its length prefix.
pub fn decode_reward_key(key: &[u8]) -> (r: Option<(Vec<u8>, Vec<u8>)>)
    ensures
        match key_parts(key@) {
            Some((owner, pool)) => r matches Some((o, p)) && o@ == owner && p@ == pool,
            None => r is None,
        },
{
    if key.len() < 2 {
        return None;
    }
    let len = (key[0] as usize) * 256 + (key[1] as usize);
    if len > key.len() - 2 {
        return None;
    }
    let end: usize = 2 + len;
    let mut owner: Vec<u8> = Vec::new();
    let mut i: usize = 2;
    while i < end
        invariant
            end == 2 + len,
            2 <= i <= end <= key@.len(),
            owner@ == key@.subrange(2, i as int),
        decreases end - i,
    {
        owner.push(key[i]);
        i = i + 1;
        assert(owner@ =~= key@.subrange(2, i as int));
    }
    let mut pool: Vec<u8> = Vec::new();
    while i < key.len()
        invariant
            end == 2 + len,
            end <= i <= key@.len(),
            pool@ == key@.subrange(2 + len as int, i as int),
        decreases key@.len() - i,
    {
        pool.push(key[i]);
        i = i + 1;
        assert(pool@ =~= key@.subrange(2 + len as int, i as int));
    }
    Some((owner, pool))
}

} // verus!
