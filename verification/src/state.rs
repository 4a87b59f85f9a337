//! The packed state word.
//!
//! The channel keeps its open/closed flag and its message count in a single
//! unsigned word: the high bit is the flag, the remaining bits are the count.

use vstd::prelude::*;

verus! {

/// The `is_open` flag is stored in the left-most bit of the state word.
pub const OPEN_MASK: u64 = 0x8000_0000_0000_0000;

/// A channel starts out open, with no pending messages.
pub const INIT_STATE: u64 = 0x8000_0000_0000_0000;

/// The maximum number of messages a channel can track.
pub const MAX_CAPACITY: u64 = 0x7fff_ffff_ffff_ffff;

/// The configured buffer must stay strictly below this bound, so that every
/// producer keeps a guaranteed slot below `MAX_CAPACITY`.
pub const MAX_BUFFER: u64 = 0x3fff_ffff_ffff_ffff;

/// Decoded form of the packed state word.
#[derive(Clone, Copy, Debug, PartialEq, Eq, Structural)]
pub struct State {
    /// `true` while the channel is open.
    pub is_open: bool,
    /// Number of reserved messages in the channel.
    pub num_messages: u64,
}

/// What the packed word `num` stands for.
pub open spec fn spec_decode(num: u64) -> State {
    State {
        is_open: num >= OPEN_MASK,
        num_messages: if num >= OPEN_MASK {
            (num - OPEN_MASK) as u64
        } else {
            num
        },
    }
}

/// The packed word that stands for `s`.
pub open spec fn spec_encode(s: State) -> int {
    s.num_messages + if s.is_open {
        OPEN_MASK as int
    } else {
        0
    }
}

/// Splits a packed state word into the open flag and the message count.
pub fn decode_state(num: u64) -> (r: State)
    ensures
        r == spec_decode(num),
{
    let is_open = num & OPEN_MASK == OPEN_MASK;
    let num_messages = num & MAX_CAPACITY;
    proof {
        assert((num & 0x8000_0000_0000_0000u64 == 0x8000_0000_0000_0000u64) == (num
            >= 0x8000_0000_0000_0000u64)) by (bit_vector);
        assert(num & 0x7fff_ffff_ffff_ffffu64 == (if num >= 0x8000_0000_0000_0000u64 {
            (num - 0x8000_0000_0000_0000u64) as u64
        } else {
            num
        })) by (bit_vector);
    }
    State { is_open, num_messages }
}

/// Packs the open flag and the message count back into one state word.
pub fn encode_state(state: &State) -> (r: u64)
    requires
        state.num_messages <= MAX_CAPACITY,
    ensures
        r == spec_encode(*state),
        spec_decode(r) == *state,
{
    if state.is_open {
        state.num_messages + OPEN_MASK
    } else {
        state.num_messages
    }
}

/// Encoding a decoded word gives the word back: the state word holds nothing
/// besides the open flag and the count.
pub proof fn lemma_encode_decode(num: u64)
    ensures
        spec_encode(spec_decode(num)) == num,
{
}

/// Decoding an encoded state gives the state back, for every count the
/// channel can track.
pub proof fn lemma_decode_encode(s: State)
    requires
        s.num_messages <= MAX_CAPACITY,
    ensures
        spec_decode(spec_encode(s) as u64) == s,
{
}

} // verus!
