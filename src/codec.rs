//! The storage encoding of pledges: shard id, payload id, the height the
//! pledge holds until (eight bytes, little-endian), then the substate state
//! as a tag byte and its fields. An `Up` state stores its creator, the
//! length of its address (eight bytes, little-endian), the address and then
//! the data, which runs to the end.

use vstd::prelude::*;

use crate::hashing::extend_bytes;
use crate::ids::{
    bytes32_from_slice, from_le, le_digits, lemma_u64_le_injective, lemma_u64_le_len,
    pow256, u64_le, NodeHeight, PayloadId, ShardId,
};
use crate::substate::{ObjectPledge, ObjectPledgeView, SubstateState, SubstateStateView};

verus! {

/// Length of the fixed part: shard id, payload id, height and tag.
pub const PLEDGE_HEADER_LEN: usize = 73;

pub open spec fn state_bytes(s: SubstateStateView) -> Seq<u8> {
    match s {
        SubstateStateView::DoesNotExist => seq![0u8],
        SubstateStateView::Up { created_by, address, data } => seq![1u8] + created_by.bytes() + u64_le(
            address.len() as u64,
        ) + address + data,
        SubstateStateView::Down { deleted_by } => seq![2u8] + deleted_by.bytes(),
    }
}

/// The encoding of a pledge.
pub open spec fn pledge_bytes(p: ObjectPledgeView) -> Seq<u8> {
    p.shard_id.bytes() + p.pledged_to_payload.bytes() + u64_le(p.pledged_until.0) + state_bytes(
        p.current_state,
    )
}

/// A pledge whose address length fits the length field.
pub open spec fn encodable(p: ObjectPledgeView) -> bool {
    p.current_state matches SubstateStateView::Up { address, .. } ==> address.len() <= u64::MAX
}

pub proof fn lemma_le_digits_from_le(s: Seq<u8>)
    ensures
        le_digits(from_le(s), s.len()) == s,
        from_le(s) < pow256(s.len()),
    decreases s.len(),
{
    if s.len() > 0 {
        let rest = s.drop_first();
        lemma_le_digits_from_le(rest);
        let x = from_le(s);
        assert(x == s[0] as nat + 256 * from_le(rest));
        assert(x % 256 == s[0] as nat && x / 256 == from_le(rest)) by (nonlinear_arith)
            requires
                x == s[0] as nat + 256 * from_le(rest),
                s[0] < 256,
        ;
        assert(x < 256 * pow256(rest.len())) by (nonlinear_arith)
            requires
                x == s[0] as nat + 256 * from_le(rest),
                s[0] < 256,
                from_le(rest) < pow256(rest.len()),
        ;
        assert(le_digits(x, s.len()) =~= s);
    }
}

/// Reads eight little-endian bytes at `pos`.
fn read_u64(buf: &[u8], pos: usize) -> (r: u64)
    requires
        pos + 8 <= buf@.len(),
    ensures
        u64_le(r) == buf@.subrange(pos as int, pos + 8),
{
    let ghost s = buf@.subrange(pos as int, pos + 8);
    let n: usize = buf.len();
    let mut acc: u64 = 0;
    let mut i: usize = 8;
    proof {
        crate::ids::lemma_pow256_8();
        lemma_le_digits_from_le(s);
    }
    while i > 0
        invariant
            i <= 8,
            n == buf@.len(),
            pos + 8 <= n,
            s == buf@.subrange(pos as int, pos + 8),
            acc as nat == from_le(s.subrange(i as int, 8)),
            from_le(s.subrange(i as int, 8)) < pow256((8 - i) as nat),
        decreases i,
    {
        let ghost tail = s.subrange(i as int, 8);
        let ghost next = s.subrange(i - 1, 8);
        assert(next.drop_first() =~= tail);
        proof {
            lemma_le_digits_from_le(next);
            assert(pow256((8 - i + 1) as nat) == 256 * pow256((8 - i) as nat));
            crate::ids::lemma_pow256_8();
            lemma_pow256_monotonic((8 - i + 1) as nat, 8);
        }
        acc = acc * 256 + buf[pos + i - 1] as u64;
        i = i - 1;
    }
    assert(s.subrange(0, 8) =~= s);
    acc
}

pub proof fn lemma_pow256_monotonic(a: nat, b: nat)
    requires
        a <= b,
    ensures
        pow256(a) <= pow256(b),
    decreases b,
{
    if a < b {
        lemma_pow256_monotonic(a, (b - 1) as nat);
    }
}

/// Encodes a pledge.
pub fn encode_pledge(p: &ObjectPledge) -> (r: Vec<u8>)
    ensures
        r@ == pledge_bytes(p@),
{
    let mut r = p.shard_id.to_le_bytes();
    extend_bytes(&mut r, &p.pledged_to_payload.to_vec());
    extend_bytes(&mut r, &p.pledged_until.to_le_bytes());
    match &p.current_state {
        SubstateState::DoesNotExist => {
            r.push(0);
        },
        SubstateState::Up { created_by, address, data } => {
            r.push(1);
            extend_bytes(&mut r, &created_by.to_vec());
            extend_bytes(&mut r, &crate::ids::u64_to_le_bytes(address.len() as u64));
            extend_bytes(&mut r, address);
            extend_bytes(&mut r, data);
        },
        SubstateState::Down { deleted_by } => {
            r.push(2);
            extend_bytes(&mut r, &deleted_by.to_vec());
        },
    }
    r
}

pub open spec fn state_tag(s: SubstateStateView) -> u8 {
    match s {
        SubstateStateView::DoesNotExist => 0,
        SubstateStateView::Up { .. } => 1,
        SubstateStateView::Down { .. } => 2,
    }
}

/// The layout of an encoded pledge.
pub proof fn lemma_pledge_bytes_shape(v: ObjectPledgeView)
    requires
        encodable(v),
    ensures
        ({
            let s = pledge_bytes(v);
            &&& s.len() >= 73
            &&& s[72] == state_tag(v.current_state)
            &&& s.subrange(0, 32) == v.shard_id.bytes()
            &&& s.subrange(32, 64) == v.pledged_to_payload.bytes()
            &&& s.subrange(64, 72) == u64_le(v.pledged_until.0)
            &&& match v.current_state {
                SubstateStateView::DoesNotExist => s.len() == 73,
                SubstateStateView::Down { deleted_by } => s.len() == 105 && s.subrange(73, 105)
                    == deleted_by.bytes(),
                SubstateStateView::Up { created_by, address, data } => {
                    &&& s.len() == 113 + address.len() as int + data.len()
                    &&& s.subrange(73, 105) == created_by.bytes()
                    &&& s.subrange(105, 113) == u64_le(address.len() as u64)
                    &&& s.subrange(113, 113 + address.len() as int) == address
                    &&& s.subrange(113 + address.len() as int, s.len() as int) == data
                },
            }
        }),
{
    let s = pledge_bytes(v);
    lemma_u64_le_len(v.pledged_until.0);
    let h = v.shard_id.bytes() + v.pledged_to_payload.bytes() + u64_le(v.pledged_until.0);
    assert(h.len() == 72);
    let t = state_bytes(v.current_state);
    assert(s == h + t);
    assert(s.subrange(0, 32) =~= v.shard_id.bytes());
    assert(s.subrange(32, 64) =~= v.pledged_to_payload.bytes());
    assert(s.subrange(64, 72) =~= u64_le(v.pledged_until.0));
    assert(s[72] == t[0]);
    match v.current_state {
        SubstateStateView::DoesNotExist => {},
        SubstateStateView::Down { deleted_by } => {
            assert(s.subrange(73, 105) =~= deleted_by.bytes());
        },
        SubstateStateView::Up { created_by, address, data } => {
            lemma_u64_le_len(address.len() as u64);
            assert(s.subrange(73, 105) =~= created_by.bytes());
            assert(s.subrange(105, 113) =~= u64_le(address.len() as u64));
            assert(s.subrange(113, 113 + address.len() as int) =~= address);
            assert(s.subrange(113 + address.len() as int, s.len() as int) =~= data);
        },
    }
}

/// Storage round trip: an encodable pledge is the only one with its
/// encoding, so decoding what `encode_pledge` wrote gives back the same
/// pledge, field for field.
pub proof fn lemma_pledge_bytes_injective(a: ObjectPledgeView, b: ObjectPledgeView)
    requires
        encodable(a),
        encodable(b),
        pledge_bytes(a) == pledge_bytes(b),
    ensures
        a == b,
{
    lemma_pledge_bytes_shape(a);
    lemma_pledge_bytes_shape(b);
    let s = pledge_bytes(a);
    assert(a.shard_id.0 =~= b.shard_id.0);
    assert(a.pledged_to_payload.id =~= b.pledged_to_payload.id);
    lemma_u64_le_injective(a.pledged_until.0, b.pledged_until.0);
    match (a.current_state, b.current_state) {
        (SubstateStateView::Down { deleted_by: x }, SubstateStateView::Down { deleted_by: y }) => {
            assert(x.id =~= y.id);
        },
        (
            SubstateStateView::Up { created_by: c1, address: a1, data: d1 },
            SubstateStateView::Up { created_by: c2, address: a2, data: d2 },
        ) => {
            assert(c1.id =~= c2.id);
            lemma_u64_le_injective(a1.len() as u64, a2.len() as u64);
        },
        _ => {},
    }
}

/// Reads 32 bytes at `pos`.
fn read32(buf: &[u8], pos: usize) -> (r: [u8; 32])
    requires
        pos + 32 <= buf@.len(),
    ensures
        r@ == buf@.subrange(pos as int, pos + 32),
{
    let n: usize = buf.len();
    let v = copy_range(buf, pos, pos + 32);
    bytes32_from_slice(v.as_slice())
}

/// The bytes of `buf` from `start` up to `end`.
fn copy_range(buf: &[u8], start: usize, end: usize) -> (r: Vec<u8>)
    requires
        start <= end <= buf@.len(),
    ensures
        r@ == buf@.subrange(start as int, end as int),
{
    let mut r: Vec<u8> = Vec::new();
    let mut i: usize = start;
    while i < end
        invariant
            start <= i <= end,
            end <= buf@.len(),
            r@ == buf@.subrange(start as int, i as int),
        decreases end - i,
    {
        r.push(buf[i]);
        i = i + 1;
        assert(r@ =~= buf@.subrange(start as int, i as int));
    }
    r
}

/// Decodes a pledge: `Some` exactly when `buf` is the encoding of a pledge,
/// and then that pledge.
pub fn decode_pledge(buf: &[u8]) -> (r: Option<ObjectPledge>)
    ensures
        r matches Some(p) ==> encodable(p@) && pledge_bytes(p@) == buf@,
        forall|v: ObjectPledgeView|
            encodable(v) && #[trigger] pledge_bytes(v) == buf@ ==> (r matches Some(p) && p@ == v),
{
    let n: usize = buf.len();
    if n < PLEDGE_HEADER_LEN {
        proof {
            assert forall|v: ObjectPledgeView| encodable(v) implies #[trigger] pledge_bytes(v) != buf@ by {
                lemma_pledge_bytes_shape(v);
            }
        }
        return None;
    }
    let shard_id = ShardId(read32(buf, 0));
    let pledged_to_payload = PayloadId::from_array(read32(buf, 32));
    let pledged_until = NodeHeight(read_u64(buf, 64));
    let tag: u8 = buf[72];
    let current_state: SubstateState = if tag == 0 {
        if n != PLEDGE_HEADER_LEN {
            proof {
                assert forall|v: ObjectPledgeView| encodable(v) implies #[trigger] pledge_bytes(v) != buf@ by {
                    lemma_pledge_bytes_shape(v);
                }
            }
            return None;
        }
        SubstateState::DoesNotExist
    } else if tag == 2 {
        if n != 105 {
            proof {
                assert forall|v: ObjectPledgeView| encodable(v) implies #[trigger] pledge_bytes(v) != buf@ by {
                    lemma_pledge_bytes_shape(v);
                }
            }
            return None;
        }
        SubstateState::Down { deleted_by: PayloadId::from_array(read32(buf, 73)) }
    } else if tag == 1 {
        if n < 113 {
            proof {
                assert forall|v: ObjectPledgeView| encodable(v) implies #[trigger] pledge_bytes(v) != buf@ by {
                    lemma_pledge_bytes_shape(v);
                }
            }
            return None;
        }
        let created_by = PayloadId::from_array(read32(buf, 73));
        let address_len: u64 = read_u64(buf, 105);
        if address_len > (n - 113) as u64 {
            proof {
                assert forall|v: ObjectPledgeView| encodable(v) implies #[trigger] pledge_bytes(v) != buf@ by {
                    lemma_pledge_bytes_shape(v);
                    if pledge_bytes(v) == buf@ {
                        if let SubstateStateView::Up { address, .. } = v.current_state {
                            lemma_u64_le_injective(address_len, address.len() as u64);
                        }
                    }
                }
            }
            return None;
        }
        let split: usize = 113 + address_len as usize;
        let address = copy_range(buf, 113, split);
        let data = copy_range(buf, split, n);
        SubstateState::Up { created_by, address, data }
    } else {
        proof {
            assert forall|v: ObjectPledgeView| encodable(v) implies #[trigger] pledge_bytes(v) != buf@ by {
                lemma_pledge_bytes_shape(v);
            }
        }
        return None;
    };
    let p = ObjectPledge { shard_id, current_state, pledged_to_payload, pledged_until };
    proof {
        lemma_u64_le_len(pledged_until.0);
        let s = buf@;
        let h = s.subrange(0, 32) + s.subrange(32, 64) + s.subrange(64, 72);
        assert(h =~= s.subrange(0, 72));
        match p@.current_state {
            SubstateStateView::DoesNotExist => {
                assert(pledge_bytes(p@) =~= s);
            },
            SubstateStateView::Down { deleted_by } => {
                assert(pledge_bytes(p@) =~= s);
            },
            SubstateStateView::Up { created_by, address, data } => {
                lemma_u64_le_len(address.len() as u64);
                assert(pledge_bytes(p@) =~= s);
            },
        }
        assert forall|v: ObjectPledgeView| encodable(v) && #[trigger] pledge_bytes(v) == buf@ implies p@ == v by {
            lemma_pledge_bytes_injective(p@, v);
        }
    }
    Some(p)
}

} // verus!
