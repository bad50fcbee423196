//! The control channel's wire format: a client sends the six bytes of the
//! word `switch` and gets no answer; this asks for a toggle.

use crate::engine::{Intent, IntentView};
use vstd::prelude::*;

verus! {

/// The length of a request.
pub const TOKEN_LEN: usize = 6;

/// The one request there is: the ASCII letters of `switch`.
pub open spec fn switch_token() -> Seq<u8> {
    seq![115u8, 119u8, 105u8, 116u8, 99u8, 104u8]
}

/// Why a connection gave rise to no intent.
#[derive(Clone, Copy, Debug, PartialEq, Eq, Structural)]
pub enum ChannelError {
    /// The client sent fewer bytes than a request has.
    ShortRead { len: usize },
    /// The client sent a request that is not the known one.
    UnknownToken,
}

/// What the bytes a client sent stand for. Only the first six count.
pub open spec fn request_of(received: Seq<u8>) -> Result<IntentView, ChannelError> {
    if received.len() < TOKEN_LEN {
        Err(ChannelError::ShortRead { len: received.len() as usize })
    } else if received.take(TOKEN_LEN as int) == switch_token() {
        Ok(IntentView::Toggle)
    } else {
        Err(ChannelError::UnknownToken)
    }
}

/// The bytes a client sends to ask for a toggle.
pub fn request_token() -> (token: Vec<u8>)
    ensures
        token@ == switch_token(),
{
    let token = vec![115u8, 119u8, 105u8, 116u8, 99u8, 104u8];
    assert(token@ =~= switch_token());
    token
}

/// Decides what the bytes read from one connection ask for.
///
/// A toggle, if they begin with the request token; otherwise the reason why
/// the connection is to be dropped without any intent.
pub fn decode_request(received: &[u8]) -> (request: Result<Intent, ChannelError>)
    ensures
        request is Ok == request_of(received@) is Ok,
        request matches Ok(intent) ==> request_of(received@) == Ok::<IntentView, ChannelError>(
            intent@,
        ),
        request matches Err(e) ==> request_of(received@) == Err::<IntentView, ChannelError>(e),
{
    if received.len() < TOKEN_LEN {
        return Err(ChannelError::ShortRead { len: received.len() });
    }
    let matches = received[0] == 115 && received[1] == 119 && received[2] == 105 && received[3]
        == 116 && received[4] == 99 && received[5] == 104;
    proof {
        let head = received@.take(TOKEN_LEN as int);
        if matches {
            assert(head =~= switch_token());
        } else {
            assert(head[0] == received@[0] && head[1] == received@[1] && head[2] == received@[2]
                && head[3] == received@[3] && head[4] == received@[4] && head[5] == received@[5]);
            assert(switch_token()[0] == 115 && switch_token()[1] == 119 && switch_token()[2] == 105
                && switch_token()[3] == 116 && switch_token()[4] == 99 && switch_token()[5]
                == 104);
        }
    }
    if matches {
        Ok(Intent::Toggle)
    } else {
        Err(ChannelError::UnknownToken)
    }
}

/// The request token, sent whole, asks for a toggle, whatever follows it; and
/// nothing shorter than a request asks for anything.
pub proof fn lemma_token_round_trip(rest: Seq<u8>, short: Seq<u8>)
    requires
        short.len() < TOKEN_LEN,
    ensures
        request_of(switch_token() + rest) == Ok::<IntentView, ChannelError>(IntentView::Toggle),
        request_of(short) is Err,
{
    assert((switch_token() + rest).take(TOKEN_LEN as int) =~= switch_token());
}

} // verus!
