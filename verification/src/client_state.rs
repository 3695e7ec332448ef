use vstd::prelude::*;

use crate::address::Address;

verus! {

/// The policy ceiling on the caller-supplied result bound.
pub const MAX_RESULT_CEILING: u64 = 1337;

/// What is persisted for `max_result`: a caller-supplied zero is normalized
/// to the ceiling, anything else is kept as supplied.
pub open spec fn normalized_max_result(requested: u64) -> u64 {
    if requested == 0 {
        MAX_RESULT_CEILING
    } else {
        requested
    }
}

/// The persisted client record, fixed in size and written exactly once, at
/// initialization. The result fields belong to the later fulfillment step
/// and start zeroed here.
#[derive(Clone, Copy)]
pub struct VrfClientState {
    /// Disambiguation byte from address derivation; stored so the same
    /// address can be re-derived later from the VRF reference alone.
    pub bump: u8,
    /// Identifier of the VRF account this state is permanently bound to.
    pub vrf: Address,
    /// Upper bound used by the fulfillment step to scale a raw random value.
    pub max_result: u64,
    /// Raw randomness buffer, written only by the fulfillment step.
    pub result_buffer: [u8; 32],
    /// Scaled result, written only by the fulfillment step.
    pub result: u128,
    /// Time of the last fulfillment, written only by that step.
    pub timestamp: i64,
}

/// The serialized size of one record: an eight-byte record tag, the bump,
/// the 32-byte VRF reference, the bound, and the reserved fulfillment fields.
pub const CLIENT_STATE_SIZE: u64 = 8 + 1 + 32 + 8 + 32 + 16 + 8;

impl VrfClientState {
    /// The reserved fulfillment fields hold their zero defaults.
    pub open spec fn reserved_zeroed(self) -> bool {
        &&& self.result_buffer@ == Seq::new(32, |i: int| 0u8)
        &&& self.result == 0
        &&& self.timestamp == 0
    }

    /// A record as initialization leaves it: the persisted bound is in
    /// `(0, MAX_RESULT_CEILING]` and nothing of the fulfillment step has
    /// run yet.
    pub open spec fn wf(self) -> bool {
        &&& 0 < self.max_result <= MAX_RESULT_CEILING
        &&& self.reserved_zeroed()
    }

    /// The first-and-only population of a record: the derivation byte and the
    /// VRF reference are stored as given, the bound is normalized, and every
    /// reserved field starts zero.
    pub fn populated(bump: u8, vrf_reference: Address, max_result: u64) -> (r: VrfClientState)
        requires
            max_result <= MAX_RESULT_CEILING,
        ensures
            r.bump == bump,
            r.vrf == vrf_reference,
            r.max_result == normalized_max_result(max_result),
            r.reserved_zeroed(),
            r.wf(),
    {
        let persisted: u64 = if max_result == 0 {
            1337
        } else {
            max_result
        };
        let r = VrfClientState {
            bump,
            vrf: vrf_reference,
            max_result: persisted,
            result_buffer: [0u8; 32],
            result: 0,
            timestamp: 0,
        };
        proof {
            assert(r.result_buffer@ =~= Seq::new(32, |i: int| 0u8));
        }
        r
    }
}

} // verus!
