//! Validation of the response to an Echo request.

use crate::frame::{is_terminal, seq_echo_of, status_of, REQUEST_LEN, RESULT_FRAME};
use vstd::prelude::*;

verus! {

/// What the device must answer to an Echo request for the self-test to
/// pass: status zero, the sequence number of the request, the terminal
/// frame type, and in bytes 2 to 7 the bytes 3 to 8 of the request.  Byte
/// `i` of the response is compared with byte `i + 1` of the request: the
/// request counts its endpoint id, the response has none, so the first
/// payload byte of the request has no place in the response.
pub open spec fn echo_reply_valid(request: Seq<u8>, response: Seq<u8>) -> bool {
    &&& request.len() == 9
    &&& response.len() == 8
    &&& status_of(response) == 0
    &&& seq_echo_of(response) == request[1] / 16
    &&& is_terminal(response)
    &&& forall|i: int| 2 <= i < 8 ==> #[trigger] response[i] == request[i + 1]
}

/// The one response that passes the self-test for a request.
pub open spec fn expected_echo_reply(request: Seq<u8>) -> Seq<u8> {
    seq![((request[1] / 16) * 16 + RESULT_FRAME) as u8, 0u8] + request.subrange(3, 9)
}

/// Checks the response to an Echo request.
pub fn check_echo(request: &[u8], response: &[u8; 8]) -> (valid: bool)
    ensures
        valid == echo_reply_valid(request@, response@),
{
    if request.len() != REQUEST_LEN {
        return false;
    }
    let head = response[0];
    let command = request[1];
    assert((head & 0xf0 == command & 0xf0) <==> (head / 16 == command / 16)) by (bit_vector);
    assert((head & 0x0f == 15) <==> (head % 16 == 15)) by (bit_vector);
    if response[1] != 0 || head & 0xf0 != command & 0xf0 || head & 0x0f != RESULT_FRAME {
        return false;
    }
    let mut i: usize = 2;
    while i < 8
        invariant
            2 <= i <= 8,
            request@.len() == 9,
            forall|j: int| 2 <= j < i ==> #[trigger] response@[j] == request@[j + 1],
        decreases 8 - i,
    {
        if response[i] != request[i + 1] {
            return false;
        }
        i += 1;
    }
    true
}

/// The self-test passes for exactly one response: the terminal frame with
/// status zero that carries the sequence number of the request and its
/// payload from the second byte on.
pub proof fn lemma_echo_reply_is_unique(request: Seq<u8>, response: Seq<u8>)
    requires
        request.len() == 9,
    ensures
        echo_reply_valid(request, response) <==> response == expected_echo_reply(request),
{
    if echo_reply_valid(request, response) {
        assert(response =~= expected_echo_reply(request));
    }
}

} // verus!
