//! The binary framing of a proposal record as it sits in durable storage.
//!
//! Every variable-length field carries an eight-byte little-endian length
//! prefix; the tallies are four-byte little-endian words and the activity
//! flag is one byte. `decode` is proved to invert `encode`.

use vstd::prelude::*;
use vstd::bytes::*;
use vstd::slice::{slice_subrange, slice_to_vec};
use vstd::utf8::{decode_utf8, encode_utf8, encode_utf8_decode_utf8, encode_utf8_valid_utf8, valid_utf8};
use vstd::string::StringSliceAdditionalSpecFns;
use vstd::pervasive::unreached;
use crate::identity::Identity;
use crate::proposal::{id_views, Proposal, ProposalModel};

verus! {

/// The concatenated encodings of the voter identities, each behind its own
/// length prefix.
pub open spec fn spec_encode_ids(ids: Seq<Seq<u8>>) -> Seq<u8>
    decreases ids.len(),
{
    if ids.len() == 0 {
        Seq::empty()
    } else {
        spec_u64_to_le_bytes(ids[0].len() as u64) + ids[0] + spec_encode_ids(ids.drop_first())
    }
}

/// The full encoding of a proposal record.
pub open spec fn spec_encode(m: ProposalModel) -> Seq<u8> {
    let desc = encode_utf8(m.description);
    spec_u64_to_le_bytes(desc.len() as u64) + desc + spec_u32_to_le_bytes(m.approve)
        + spec_u32_to_le_bytes(m.reject) + spec_u32_to_le_bytes(m.pass) + seq![
        if m.is_active {
            1u8
        } else {
            0u8
        },
    ] + spec_u64_to_le_bytes(m.owner.len() as u64) + m.owner + spec_u64_to_le_bytes(
        m.voted.len() as u64,
    ) + spec_encode_ids(m.voted)
}

/// Every length in the record fits its eight-byte prefix.
pub open spec fn encodable(m: ProposalModel) -> bool {
    &&& encode_utf8(m.description).len() <= u64::MAX
    &&& m.owner.len() <= u64::MAX
    &&& m.voted.len() <= u64::MAX
    &&& (forall|i: int| 0 <= i < m.voted.len() ==> (#[trigger] m.voted[i]).len() <= u64::MAX)
}

/// Appending one identity on the right extends the concatenated encoding on
/// the right.
proof fn lemma_encode_ids_push(ids: Seq<Seq<u8>>, x: Seq<u8>)
    ensures
        spec_encode_ids(ids.push(x)) == spec_encode_ids(ids) + spec_u64_to_le_bytes(
            x.len() as u64,
        ) + x,
    decreases ids.len(),
{
    lemma_auto_spec_u64_to_from_le_bytes();
    let s = ids.push(x);
    assert(s.len() == ids.len() + 1);
    assert(spec_encode_ids(s) == spec_u64_to_le_bytes(s[0].len() as u64) + s[0] + spec_encode_ids(
        s.drop_first(),
    ));
    if ids.len() == 0 {
        assert(s[0] == x);
        assert(s.drop_first() =~= Seq::<Seq<u8>>::empty());
        assert(spec_encode_ids(s.drop_first()) == Seq::<u8>::empty());
        assert(spec_encode_ids(ids) == Seq::<u8>::empty());
        assert(spec_encode_ids(s) =~= spec_encode_ids(ids) + spec_u64_to_le_bytes(x.len() as u64)
            + x);
    } else {
        assert(s[0] == ids[0]);
        assert(s.drop_first() =~= ids.drop_first().push(x));
        lemma_encode_ids_push(ids.drop_first(), x);
        assert(spec_encode_ids(ids) == spec_u64_to_le_bytes(ids[0].len() as u64) + ids[0]
            + spec_encode_ids(ids.drop_first()));
        assert(spec_encode_ids(s) =~= spec_encode_ids(ids) + spec_u64_to_le_bytes(x.len() as u64)
            + x);
    }
}

/// Relies on core::str::from_utf8: it succeeds exactly on valid UTF-8 input
/// and returns the string slice made of those bytes.
#[verifier::external_body]
fn utf8_to_str<'a>(v: &'a [u8]) -> (r: Option<&'a str>)
    ensures
        r is Some <==> valid_utf8(v@),
        r is Some ==> r.unwrap().spec_bytes() == v@,
{
    core::str::from_utf8(v).ok()
}

/// Appends the little-endian bytes of `x`.
fn push_u64(out: &mut Vec<u8>, x: u64)
    ensures
        final(out)@ == old(out)@ + spec_u64_to_le_bytes(x),
{
    let mut b = u64_to_le_bytes(x);
    out.append(&mut b);
}

/// Appends the little-endian bytes of `x`.
fn push_u32(out: &mut Vec<u8>, x: u32)
    ensures
        final(out)@ == old(out)@ + spec_u32_to_le_bytes(x),
{
    let mut b = u32_to_le_bytes(x);
    out.append(&mut b);
}

/// Appends a copy of the whole slice.
fn push_slice(out: &mut Vec<u8>, s: &[u8])
    ensures
        final(out)@ == old(out)@ + s@,
{
    let mut i: usize = 0;
    while i < s.len()
        invariant
            i <= s@.len(),
            out@ == old(out)@ + s@.take(i as int),
        decreases s@.len() - i,
    {
        out.push(s[i]);
        i += 1;
    }
    proof {
        assert(s@.take(s@.len() as int) =~= s@);
    }
}

/// Serialises a proposal record.
#[verifier::loop_isolation(false)]
pub(crate) fn encode(p: &Proposal) -> (r: Vec<u8>)
    ensures
        r@ == spec_encode(p@),
        encodable(p@),
{
    let mut out: Vec<u8> = Vec::new();
    let desc_bytes: &[u8] = p.description.as_str().as_bytes();
    push_u64(&mut out, desc_bytes.len() as u64);
    push_slice(&mut out, desc_bytes);
    push_u32(&mut out, p.approve);
    push_u32(&mut out, p.reject);
    push_u32(&mut out, p.pass);
    out.push(if p.is_active { 1u8 } else { 0u8 });
    push_u64(&mut out, p.owner.bytes.len() as u64);
    push_slice(&mut out, p.owner.bytes.as_slice());
    push_u64(&mut out, p.voted.len() as u64);
    let ghost prefix = out@;
    let ghost vot = p@.voted;
    let mut i: usize = 0;
    while i < p.voted.len()
        invariant
            i <= p.voted.len(),
            vot == p@.voted,
            vot.len() == p.voted@.len(),
            forall|j: int| 0 <= j < vot.len() ==> vot[j] == p.voted@[j]@,
            out@ == prefix + spec_encode_ids(vot.take(i as int)),
            forall|j: int| 0 <= j < i ==> (#[trigger] vot[j]).len() <= u64::MAX,
        decreases p.voted.len() - i,
    {
        let id: &Identity = &p.voted[i];
        push_u64(&mut out, id.bytes.len() as u64);
        push_slice(&mut out, id.bytes.as_slice());
        proof {
            assert(vot.take(i + 1) =~= vot.take(i as int).push(vot[i as int]));
            lemma_encode_ids_push(vot.take(i as int), vot[i as int]);
        }
        i += 1;
    }
    proof {
        assert(vot.take(vot.len() as int) =~= vot);
        assert(out@ =~= spec_encode(p@));
    }
    out
}

/// Rebuilds the record that `bytes` encodes. The caller supplies the encoded
/// model as a ghost witness, so this parser is total on its admitted inputs.
#[verifier::loop_isolation(false)]
#[verifier::rlimit(100)]
pub(crate) fn decode(bytes: &Vec<u8>, m: Ghost<ProposalModel>) -> (r: Proposal)
    requires
        bytes@ == spec_encode(m@),
        encodable(m@),
    ensures
        r@ == m@,
{
    broadcast use encode_utf8_valid_utf8;

    proof {
        lemma_auto_spec_u64_to_from_le_bytes();
        lemma_auto_spec_u32_to_from_le_bytes();
    }
    let ghost desc = encode_utf8(m@.description);
    let ghost dl: int = desc.len() as int;
    let ghost ol: int = m@.owner.len() as int;
    let ghost ids = m@.voted;
    let ghost idsl: int = spec_encode_ids(ids).len() as int;
    let total: usize = bytes.len();
    proof {
        assert(total as int == 37 + dl + ol + idsl);
    }

    // Description.
    proof {
        assert(bytes@.subrange(0, 8) =~= spec_u64_to_le_bytes(desc.len() as u64));
    }
    let dlen = read_u64(bytes, 0);
    let dlen_us = dlen as usize;
    proof {
        assert(bytes@.subrange(8, 8 + dl) =~= desc);
    }
    let desc_slice = slice_subrange(bytes.as_slice(), 8, 8 + dlen_us);
    let desc_str = match utf8_to_str(desc_slice) {
        Some(s) => s,
        None => {
            proof {
                assert(valid_utf8(desc_slice@));
            }
            unreached()
        },
    };
    proof {
        encode_utf8_decode_utf8(desc_str@);
        encode_utf8_decode_utf8(m@.description);
    }
    let description: String = desc_str.to_owned();

    // Tallies.
    let o_counts: usize = 8 + dlen_us;
    proof {
        assert(bytes@.subrange(o_counts as int, o_counts as int + 4) =~= spec_u32_to_le_bytes(
            m@.approve,
        ));
        assert(bytes@.subrange(o_counts as int + 4, o_counts as int + 8) =~= spec_u32_to_le_bytes(
            m@.reject,
        ));
        assert(bytes@.subrange(o_counts as int + 8, o_counts as int + 12) =~= spec_u32_to_le_bytes(
            m@.pass,
        ));
    }
    let approve = read_u32(bytes, o_counts);
    let reject = read_u32(bytes, o_counts + 4);
    let pass = read_u32(bytes, o_counts + 8);

    // Activity flag.
    let o_flag: usize = o_counts + 12;
    proof {
        assert(bytes@[o_flag as int] == (if m@.is_active {
            1u8
        } else {
            0u8
        }));
    }
    let is_active = bytes[o_flag] == 1u8;

    // Owner.
    let o_owner_len: usize = o_flag + 1;
    proof {
        assert(bytes@.subrange(o_owner_len as int, o_owner_len as int + 8)
            =~= spec_u64_to_le_bytes(m@.owner.len() as u64));
    }
    let olen = read_u64(bytes, o_owner_len);
    let olen_us = olen as usize;
    let o_owner: usize = o_owner_len + 8;
    proof {
        assert(bytes@.subrange(o_owner as int, o_owner as int + ol) =~= m@.owner);
    }
    let owner_bytes = slice_to_vec(slice_subrange(bytes.as_slice(), o_owner, o_owner + olen_us));
    let owner = Identity { bytes: owner_bytes };

    // Voters.
    let o_vcount: usize = o_owner + olen_us;
    proof {
        assert(bytes@.subrange(o_vcount as int, o_vcount as int + 8) =~= spec_u64_to_le_bytes(
            ids.len() as u64,
        ));
    }
    let vcount = read_u64(bytes, o_vcount);
    let mut voted: Vec<Identity> = Vec::new();
    let mut off: usize = o_vcount + 8;
    let mut i: u64 = 0;
    proof {
        assert(bytes@.subrange(off as int, bytes@.len() as int) =~= spec_encode_ids(ids));
        assert(ids.skip(0) =~= ids);
    }
    while i < vcount
        invariant
            0 <= i <= vcount,
            vcount == ids.len(),
            off <= bytes@.len(),
            encodable(m@),
            bytes@.subrange(off as int, bytes@.len() as int) == spec_encode_ids(
                ids.skip(i as int),
            ),
            id_views(voted@) == ids.take(i as int),
        decreases vcount - i,
    {
        let ghost rest = ids.skip(i as int);
        let ghost rest_enc = spec_encode_ids(rest);
        proof {
            assert(rest.len() > 0);
            assert(rest[0] == ids[i as int]);
            assert(rest_enc == spec_u64_to_le_bytes(ids[i as int].len() as u64) + ids[i as int]
                + spec_encode_ids(rest.drop_first()));
            assert(off + rest_enc.len() == bytes@.len());
            assert(off + 8 <= bytes@.len());
            assert(bytes@.subrange(off as int, off as int + 8) =~= rest_enc.subrange(0, 8));
            assert(rest_enc.subrange(0, 8) =~= spec_u64_to_le_bytes(ids[i as int].len() as u64));
        }
        let ilen = read_u64(bytes, off);
        let ilen_us = ilen as usize;
        let o_id: usize = off + 8;
        proof {
            assert(o_id + ilen_us <= bytes@.len());
            assert(bytes@.subrange(o_id as int, o_id as int + ilen_us as int) =~= rest_enc.subrange(
                8,
                8 + ilen_us as int,
            ));
            assert(rest_enc.subrange(8, 8 + ilen_us as int) =~= ids[i as int]);
        }
        let id_bytes = slice_to_vec(slice_subrange(bytes.as_slice(), o_id, o_id + ilen_us));
        voted.push(Identity { bytes: id_bytes });
        proof {
            assert(rest.drop_first() =~= ids.skip(i + 1));
            assert(bytes@.subrange(o_id as int + ilen_us as int, bytes@.len() as int)
                =~= rest_enc.subrange(8 + ilen_us as int, rest_enc.len() as int));
            assert(rest_enc.subrange(8 + ilen_us as int, rest_enc.len() as int)
                =~= spec_encode_ids(ids.skip(i + 1)));
            assert(id_views(voted@) =~= ids.take(i + 1));
        }
        off = o_id + ilen_us;
        i += 1;
    }
    proof {
        assert(ids.take(ids.len() as int) =~= ids);
    }

    let r = Proposal { description, approve, reject, pass, is_active, voted, owner };
    proof {
        assert(r@ =~= m@);
    }
    r
}

/// Reads the eight-byte little-endian word at `off`.
fn read_u64(bytes: &Vec<u8>, off: usize) -> (r: u64)
    requires
        off + 8 <= bytes@.len(),
    ensures
        r == spec_u64_from_le_bytes(bytes@.subrange(off as int, off as int + 8)),
{
    let n: usize = bytes.len();
    proof {
        assert(off + 8 <= n);
    }
    u64_from_le_bytes(slice_subrange(bytes.as_slice(), off, off + 8))
}

/// Reads the four-byte little-endian word at `off`.
fn read_u32(bytes: &Vec<u8>, off: usize) -> (r: u32)
    requires
        off + 4 <= bytes@.len(),
    ensures
        r == spec_u32_from_le_bytes(bytes@.subrange(off as int, off as int + 4)),
{
    let n: usize = bytes.len();
    proof {
        assert(off + 4 <= n);
    }
    u32_from_le_bytes(slice_subrange(bytes.as_slice(), off, off + 4))
}

} // verus!
