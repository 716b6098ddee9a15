//! The wire messages: a fixed four-byte request and a fixed four-byte reply.
use vstd::prelude::*;

verus! {

/// Length in bytes of every message on the wire.
pub const MESSAGE_LEN: usize = 4;

/// The request bytes, ASCII `ping`.
pub open spec fn ping_bytes() -> Seq<u8> {
    seq![112u8, 105u8, 110u8, 103u8]
}

/// The reply bytes, ASCII `pong`.
pub open spec fn pong_bytes() -> Seq<u8> {
    seq![112u8, 111u8, 110u8, 103u8]
}

/// The request message as an array.
pub fn ping() -> (r: [u8; 4])
    ensures
        r@ == ping_bytes(),
{
    let r: [u8; 4] = [112u8, 105u8, 110u8, 103u8];
    assert(r@ =~= ping_bytes());
    r
}

/// The reply message as an array.
pub fn pong() -> (r: [u8; 4])
    ensures
        r@ == pong_bytes(),
{
    let r: [u8; 4] = [112u8, 111u8, 110u8, 103u8];
    assert(r@ =~= pong_bytes());
    r
}

/// Whether four received bytes are the request `ping`.
pub fn is_ping(request: &[u8; 4]) -> (r: bool)
    ensures
        r == (request@ == ping_bytes()),
{
    let r = request[0] == 112u8 && request[1] == 105u8 && request[2] == 110u8 && request[3] == 103u8;
    if r {
        assert(request@ =~= ping_bytes());
    } else {
        assert(request@ != ping_bytes()) by {
            if request@ == ping_bytes() {
                assert(request@[0] == 112u8 && request@[1] == 105u8);
                assert(request@[2] == 110u8 && request@[3] == 103u8);
            }
        }
    }
    r
}

/// The reply that a request earns: `pong` for `ping`, nothing for anything else.
pub fn reply_to(request: &[u8; 4]) -> (r: Option<[u8; 4]>)
    ensures
        request@ == ping_bytes() ==> (r matches Some(reply) && reply@ == pong_bytes()),
        request@ != ping_bytes() ==> r is None,
{
    if is_ping(request) {
        Some(pong())
    } else {
        None
    }
}

} // verus!
