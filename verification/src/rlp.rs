use vstd::prelude::*;

verus! {

/// `data` without the zero bytes at its start.
pub open spec fn without_leading_zeros(data: Seq<u8>) -> Seq<u8>
    decreases data.len(),
{
    if data.len() > 0 && data[0] == 0 {
        without_leading_zeros(data.skip(1))
    } else {
        data
    }
}

/// The bytes of `value`, most significant first, with no leading zero byte;
/// zero has no bytes.
pub open spec fn be_trimmed(value: nat) -> Seq<u8>
    decreases value,
{
    if value == 0 {
        Seq::empty()
    } else {
        be_trimmed(value / 256).push((value % 256) as u8)
    }
}

/// The longest payload whose length is written into the prefix byte.
pub const SHORT_LIMIT: usize = 55;

/// The encoding of a byte string: a single byte below `0x80` stands for
/// itself; a string of up to 55 bytes follows a prefix of `0x80` plus its
/// length; a longer one follows `0xb7` plus the number of length bytes, and
/// the length bytes.
pub open spec fn rlp_bytes(data: Seq<u8>) -> Seq<u8> {
    if data.len() == 1 && data[0] < 0x80 {
        data
    } else if data.len() <= SHORT_LIMIT {
        seq![(0x80 + data.len()) as u8] + data
    } else {
        seq![(0xb7 + be_trimmed(data.len()).len()) as u8] + be_trimmed(data.len()) + data
    }
}

/// The encoding of a number: that of its bytes without leading zeros.
pub open spec fn rlp_u64(value: u64) -> Seq<u8> {
    rlp_bytes(be_trimmed(value as nat))
}

/// The items of a list, one after another.
pub open spec fn concatenated(items: Seq<Seq<u8>>) -> Seq<u8>
    decreases items.len(),
{
    if items.len() == 0 {
        Seq::empty()
    } else {
        concatenated(items.drop_last()) + items.last()
    }
}

/// The encoding of a list of encoded items: the items follow a prefix of
/// `0xc0` plus their total length where that is at most 55, else `0xf7` plus
/// the number of length bytes, and the length bytes.
pub open spec fn rlp_list(items: Seq<Seq<u8>>) -> Seq<u8> {
    let payload = concatenated(items);
    if payload.len() <= SHORT_LIMIT {
        seq![(0xc0 + payload.len()) as u8] + payload
    } else {
        seq![(0xf7 + be_trimmed(payload.len()).len()) as u8] + be_trimmed(payload.len()) + payload
    }
}

/// The byte sequences of a list of byte vectors.
pub open spec fn byte_views(items: Seq<Vec<u8>>) -> Seq<Seq<u8>> {
    Seq::new(items.len(), |i: int| items[i]@)
}

/// A number below 2^64 has at most eight bytes.
pub proof fn lemma_be_trimmed_len(value: nat)
    requires
        value <= u64::MAX,
    ensures
        be_trimmed(value).len() <= 8,
{
    reveal_with_fuel(be_trimmed, 10);
    assert(value / 256 / 256 / 256 / 256 / 256 / 256 / 256 / 256 == 0);
}

/// Copies `data` without the zero bytes at its start.
pub fn strip_leading_zeros(data: &[u8]) -> (out: Vec<u8>)
    ensures
        out@ == without_leading_zeros(data@),
{
    let mut start: usize = 0;
    assert(data@.skip(0) =~= data@);
    while start < data.len() && data[start] == 0
        invariant
            start <= data.len(),
            without_leading_zeros(data@.skip(start as int)) == without_leading_zeros(data@),
        decreases data.len() - start,
    {
        assert(data@.skip(start as int).skip(1) =~= data@.skip(start + 1));
        start += 1;
    }
    let tail = vstd::slice::slice_subrange(data, start, data.len());
    assert(tail@ =~= data@.skip(start as int));
    vstd::slice::slice_to_vec(tail)
}

/// The bytes of `value`, most significant first, without leading zeros.
pub fn u64_to_be_trimmed(value: u64) -> (out: Vec<u8>)
    ensures
        out@ == be_trimmed(value as nat),
    decreases value,
{
    if value == 0 {
        return Vec::new();
    }
    let mut out = u64_to_be_trimmed(value / 256);
    out.push((value % 256) as u8);
    out
}

/// Encodes a byte string.
pub fn rlp_encode_bytes(data: &[u8]) -> (out: Vec<u8>)
    ensures
        out@ == rlp_bytes(data@),
{
    if data.len() == 1 && data[0] < 0x80 {
        let out = vstd::slice::slice_to_vec(data);
        return out;
    }
    let mut out: Vec<u8> = Vec::new();
    if data.len() <= SHORT_LIMIT {
        out.push(0x80 + data.len() as u8);
    } else {
        let len_bytes = u64_to_be_trimmed(data.len() as u64);
        proof {
            lemma_be_trimmed_len(data@.len());
        }
        out.push(0xb7 + len_bytes.len() as u8);
        out.extend_from_slice(len_bytes.as_slice());
    }
    out.extend_from_slice(data);
    assert(out@ =~= rlp_bytes(data@));
    out
}

/// Encodes a number.
pub fn rlp_encode_u64(value: u64) -> (out: Vec<u8>)
    ensures
        out@ == rlp_u64(value),
{
    let bytes = u64_to_be_trimmed(value);
    rlp_encode_bytes(bytes.as_slice())
}

/// Encodes a list of items that are already encoded.
pub fn rlp_encode_list(items: &[Vec<u8>]) -> (out: Vec<u8>)
    ensures
        out@ == rlp_list(byte_views(items@)),
{
    let mut payload: Vec<u8> = Vec::new();
    let mut i: usize = 0;
    assert(byte_views(items@).take(0) =~= Seq::<Seq<u8>>::empty());
    while i < items.len()
        invariant
            i <= items.len(),
            payload@ == concatenated(byte_views(items@).take(i as int)),
        decreases items.len() - i,
    {
        assert(byte_views(items@).take(i + 1).drop_last() =~= byte_views(items@).take(i as int));
        payload.extend_from_slice(items[i].as_slice());
        i += 1;
    }
    assert(byte_views(items@).take(items@.len() as int) =~= byte_views(items@));
    let mut out: Vec<u8> = Vec::new();
    if payload.len() <= SHORT_LIMIT {
        out.push(0xc0 + payload.len() as u8);
    } else {
        let len_bytes = u64_to_be_trimmed(payload.len() as u64);
        proof {
            lemma_be_trimmed_len(payload@.len());
        }
        out.push(0xf7 + len_bytes.len() as u8);
        out.extend_from_slice(len_bytes.as_slice());
    }
    out.extend_from_slice(payload.as_slice());
    assert(out@ =~= rlp_list(byte_views(items@)));
    out
}

} // verus!
