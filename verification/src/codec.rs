//! The persisted layout of an order record: a fixed-width little-endian
//! run of the fields,
//! maker(32) ‖ order_id(8) ‖ token_offer(32) ‖ amount_offer(8) ‖
//! token_wanted(32) ‖ amount_wanted(8) ‖ is_active(1) ‖ bump(1),
//! 122 bytes in all.

use vstd::prelude::*;

use crate::keys::Pubkey;
use crate::order::Order;

verus! {

/// The one-byte encoding of the activity flag.
pub open spec fn spec_active_byte(is_active: bool) -> u8 {
    if is_active {
        1u8
    } else {
        0u8
    }
}

/// The 122-byte persisted image of an order.
pub open spec fn spec_encode_order(o: Order) -> Seq<u8> {
    o.maker@ + vstd::bytes::spec_u64_to_le_bytes(o.order_id) + o.token_offer@
        + vstd::bytes::spec_u64_to_le_bytes(o.amount_offer) + o.token_wanted@
        + vstd::bytes::spec_u64_to_le_bytes(o.amount_wanted) + seq![spec_active_byte(o.is_active)]
        + seq![o.bump]
}

fn push_key(v: &mut Vec<u8>, k: &Pubkey)
    ensures
        final(v)@ == old(v)@ + k@,
{
    let mut i: usize = 0;
    while i < 32
        invariant
            0 <= i <= 32,
            v@ == old(v)@ + k@.subrange(0, i as int),
        decreases 32 - i,
    {
        v.push(k.bytes[i]);
        proof {
            assert(v@ =~= old(v)@ + k@.subrange(0, i + 1));
        }
        i += 1;
    }
    proof {
        assert(v@ =~= old(v)@ + k@);
    }
}

/// Write the order as its 122-byte persisted image.
pub fn encode_order(o: &Order) -> (r: Vec<u8>)
    ensures
        r@ == spec_encode_order(*o),
        r@.len() == Order::LEN,
{
    let mut v: Vec<u8> = Vec::new();
    push_key(&mut v, &o.maker);
    let mut id_bytes = vstd::bytes::u64_to_le_bytes(o.order_id);
    v.append(&mut id_bytes);
    push_key(&mut v, &o.token_offer);
    let mut offer_bytes = vstd::bytes::u64_to_le_bytes(o.amount_offer);
    v.append(&mut offer_bytes);
    push_key(&mut v, &o.token_wanted);
    let mut wanted_bytes = vstd::bytes::u64_to_le_bytes(o.amount_wanted);
    v.append(&mut wanted_bytes);
    if o.is_active {
        v.push(1u8);
    } else {
        v.push(0u8);
    }
    v.push(o.bump);
    proof {
        assert(v@ =~= spec_encode_order(*o));
        vstd::bytes::lemma_auto_spec_u64_to_from_le_bytes();
    }
    v
}

fn read_key(bytes: &Vec<u8>, offset: usize) -> (r: Pubkey)
    requires
        offset + 32 <= bytes@.len(),
    ensures
        r@ == bytes@.subrange(offset as int, offset + 32),
{
    let n = bytes.len();
    let mut arr: [u8; 32] = [0u8; 32];
    let mut i: usize = 0;
    while i < 32
        invariant
            0 <= i <= 32,
            n == bytes@.len(),
            offset + 32 <= n,
            forall|j: int| 0 <= j < i ==> arr@[j] == bytes@[offset + j],
        decreases 32 - i,
    {
        arr[i] = bytes[offset + i];
        i += 1;
    }
    proof {
        assert(arr@ =~= bytes@.subrange(offset as int, offset + 32));
    }
    Pubkey { bytes: arr }
}

/// Read an order back from its persisted image. `None` where the image is
/// not exactly 122 bytes or its activity byte is neither 0 nor 1; a
/// decoded record's every field equals what the image spells.
pub fn decode_order(bytes: &Vec<u8>) -> (r: Option<Order>)
    ensures
        match r {
            Some(o) => {
                &&& bytes@.len() == Order::LEN
                &&& (bytes@[120] == 0 || bytes@[120] == 1)
                &&& o.maker@ == bytes@.subrange(0, 32)
                &&& o.order_id == vstd::bytes::spec_u64_from_le_bytes(bytes@.subrange(32, 40))
                &&& o.token_offer@ == bytes@.subrange(40, 72)
                &&& o.amount_offer == vstd::bytes::spec_u64_from_le_bytes(bytes@.subrange(72, 80))
                &&& o.token_wanted@ == bytes@.subrange(80, 112)
                &&& o.amount_wanted == vstd::bytes::spec_u64_from_le_bytes(
                    bytes@.subrange(112, 120),
                )
                &&& o.is_active == (bytes@[120] == 1)
                &&& o.bump == bytes@[121]
            },
            None => !(bytes@.len() == Order::LEN && (bytes@[120] == 0 || bytes@[120] == 1)),
        },
{
    if bytes.len() != Order::LEN {
        return None;
    }
    let active_byte = bytes[120];
    let is_active = match active_byte {
        0u8 => false,
        1u8 => true,
        _ => {
            return None;
        },
    };
    let maker = read_key(bytes, 0);
    let order_id = vstd::bytes::u64_from_le_bytes(&bytes.as_slice()[32..40]);
    let token_offer = read_key(bytes, 40);
    let amount_offer = vstd::bytes::u64_from_le_bytes(&bytes.as_slice()[72..80]);
    let token_wanted = read_key(bytes, 80);
    let amount_wanted = vstd::bytes::u64_from_le_bytes(&bytes.as_slice()[112..120]);
    let bump = bytes[121];
    Some(Order { maker, order_id, token_offer, amount_offer, token_wanted, amount_wanted, is_active, bump })
}

/// Round trip: the image encode writes parses back to the record's every
/// field — the image is 122 bytes, its activity byte is lawful, and each
/// field's slice of the image spells that field.
pub proof fn law_codec_round_trip(o: Order)
    ensures
        spec_encode_order(o).len() == Order::LEN,
        spec_encode_order(o).subrange(0, 32) == o.maker@,
        vstd::bytes::spec_u64_from_le_bytes(spec_encode_order(o).subrange(32, 40)) == o.order_id,
        spec_encode_order(o).subrange(40, 72) == o.token_offer@,
        vstd::bytes::spec_u64_from_le_bytes(spec_encode_order(o).subrange(72, 80)) == o.amount_offer,
        spec_encode_order(o).subrange(80, 112) == o.token_wanted@,
        vstd::bytes::spec_u64_from_le_bytes(spec_encode_order(o).subrange(112, 120)) == o.amount_wanted,
        spec_encode_order(o)[120] == spec_active_byte(o.is_active),
        (spec_encode_order(o)[120] == 1) == o.is_active,
        spec_encode_order(o)[121] == o.bump,
{
    vstd::bytes::lemma_auto_spec_u64_to_from_le_bytes();
    let s = spec_encode_order(o);
    assert(s.subrange(0, 32) =~= o.maker@);
    assert(s.subrange(32, 40) =~= vstd::bytes::spec_u64_to_le_bytes(o.order_id));
    assert(s.subrange(40, 72) =~= o.token_offer@);
    assert(s.subrange(72, 80) =~= vstd::bytes::spec_u64_to_le_bytes(o.amount_offer));
    assert(s.subrange(80, 112) =~= o.token_wanted@);
    assert(s.subrange(112, 120) =~= vstd::bytes::spec_u64_to_le_bytes(o.amount_wanted));
}

} // verus!
