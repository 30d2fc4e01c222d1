//! The per-tick input record of one player, and the seat-dependent mirroring
//! of left and right.
use vstd::prelude::*;

verus! {

/// Bit of the input record set while "move left" is held.
pub const INPUT_LEFT: u8 = 1;
/// Bit of the input record set while "move right" is held.
pub const INPUT_RIGHT: u8 = 2;

/// The role a local participant picked before matchmaking.
#[derive(Clone, Copy, Debug, PartialEq, Eq, Structural)]
pub enum NetworkRole {
    Host,
    Client,
}

impl NetworkRole {
    /// The label of the menu button that selects this role.
    pub fn to_button_text(self) -> (r: &'static str)
        ensures
            self == NetworkRole::Host ==> r@ == "Host a Game"@,
            self == NetworkRole::Client ==> r@ == "Join Game"@,
    {
        match self {
            NetworkRole::Host => "Host a Game",
            NetworkRole::Client => "Join Game",
        }
    }
}

pub open spec fn encode_spec(left: bool, right: bool) -> u8 {
    ((if left { 1int } else { 0 }) + (if right { 2int } else { 0 })) as u8
}

pub open spec fn left_held(b: u8) -> bool {
    b % 2 == 1
}

pub open spec fn right_held(b: u8) -> bool {
    (b / 2) % 2 == 1
}

/// Packs the two held directions into an input record.
pub fn encode(left: bool, right: bool) -> (r: u8)
    ensures
        r == encode_spec(left, right),
        r < 4,
{
    let mut r: u8 = 0;
    if left {
        r = r | INPUT_LEFT;
    }
    if right {
        r = r | INPUT_RIGHT;
    }
    assert(0u8 | 1u8 == 1u8 && 0u8 | 2u8 == 2u8 && 1u8 | 2u8 == 3u8) by (bit_vector);
    r
}

/// Unpacks an input record into (left held, right held); reserved bits are
/// ignored.
pub fn decode(b: u8) -> (r: (bool, bool))
    ensures
        r == (left_held(b), right_held(b)),
{
    assert(b & 1u8 == b % 2) by (bit_vector);
    assert((b & 2u8 != 0u8) == ((b / 2) % 2 == 1)) by (bit_vector);
    (b & INPUT_LEFT != 0, b & INPUT_RIGHT != 0)
}

/// Swaps the left and right bits and clears the reserved bits.
pub fn mirror(b: u8) -> (r: u8)
    ensures
        r == encode_spec(right_held(b), left_held(b)),
{
    let (left, right) = decode(b);
    encode(right, left)
}

/// The input record a participant in `role` sends for the directions held on
/// its own screen: the host's board is seen rotated, so its left and right
/// are swapped.
pub fn local_input(left: bool, right: bool, role: NetworkRole) -> (r: u8)
    ensures
        role == NetworkRole::Client ==> r == encode_spec(left, right),
        role == NetworkRole::Host ==> r == encode_spec(right, left),
{
    let b = encode(left, right);
    match role {
        NetworkRole::Host => {
            proof { lemma_decode_encode(left, right); }
            mirror(b)
        },
        NetworkRole::Client => b,
    }
}

/// The direction a paddle moves under an input record: -1 for left, +1 for
/// right, 0 for both or neither.
pub open spec fn direction_spec(b: u8) -> int {
    (if right_held(b) { 1int } else { 0 }) - (if left_held(b) { 1int } else { 0 })
}

pub fn input_direction(b: u8) -> (r: i64)
    ensures
        r == direction_spec(b),
{
    let (left, right) = decode(b);
    let mut d: i64 = 0;
    if left {
        d = d - 1;
    }
    if right {
        d = d + 1;
    }
    d
}

/// A paddle reading an encoded record moves left for left alone, right for
/// right alone, and not at all for both or neither.
pub proof fn lemma_direction_of_encoded(left: bool, right: bool)
    ensures
        direction_spec(encode_spec(left, right)) == (if right { 1int } else { 0 }) - (if left { 1int } else { 0 }),
{
    lemma_decode_encode(left, right);
}

/// Decoding an encoded record gives back the two directions.
pub proof fn lemma_decode_encode(left: bool, right: bool)
    ensures
        left_held(encode_spec(left, right)) == left,
        right_held(encode_spec(left, right)) == right,
{
}

/// Mirroring twice is the identity on encoded records, and decoding a mirrored
/// record gives the two directions swapped.
pub proof fn lemma_mirror_round_trip(left: bool, right: bool)
    ensures
        ({
            let m = encode_spec(right_held(encode_spec(left, right)), left_held(encode_spec(left, right)));
            &&& left_held(m) == right && right_held(m) == left
            &&& encode_spec(right_held(m), left_held(m)) == encode_spec(left, right)
        }),
{
    lemma_decode_encode(left, right);
    lemma_decode_encode(right, left);
}

} // verus!
