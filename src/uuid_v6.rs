//! The time-high-first identifier, whose bytes sort in tick order.
use vstd::prelude::*;

use crate::ident::{GenError, Uuid};
use crate::layout::{encode_v6, v6_layout};
use crate::timestamp::Timestamp;

verus! {

/// The length of a node identifier in bytes.
pub const NODE_ID_LEN: usize = 6;

/// Packs a timestamp and a node identifier into a time-high-first identifier.
/// A node that is not six bytes long is refused.
pub fn new_v6(ts: Timestamp, node_id: &[u8]) -> (r: Result<Uuid, GenError>)
    ensures
        r is Ok <==> node_id@.len() == NODE_ID_LEN,
        r is Ok ==> r->Ok_0@ == v6_layout(ts@.0, ts@.1, node_id@),
        r is Err ==> r->Err_0 == (GenError::InvalidNodeLength {
            expected: NODE_ID_LEN,
            got: node_id@.len() as usize,
        }),
{
    let len = node_id.len();
    if len != NODE_ID_LEN {
        return Err(GenError::InvalidNodeLength { expected: NODE_ID_LEN, got: len });
    }
    let node = [node_id[0], node_id[1], node_id[2], node_id[3], node_id[4], node_id[5]];
    assert(node@ =~= node_id@);
    let (ticks, counter) = ts.to_rfc4122();
    Ok(Uuid::new(encode_v6(ticks, counter, &node)))
}

} // verus!
