//! The connection manager's computations: the Basic authentication
//! header value for the stream connection, and the response owed to
//! each inbound frame. The caller owns the socket; it reconnects after
//! a fixed cooldown whenever the read/write loop ends, without a retry
//! limit.

use vstd::prelude::*;
use base64::Engine;

verus! {

/// Seconds to wait between the end of one stream session and the next
/// connection attempt.
pub const RECONNECT_COOLDOWN_SECS: u64 = 5;

/// The standard base64 encoding (with padding) of a byte sequence.
pub uninterp spec fn base64_std_of(s: Seq<u8>) -> Seq<u8>;

/// Relies on base64's standard engine: the encoding is a function of
/// the input bytes alone, four output characters for every three input
/// bytes begun. The length bound keeps the encoded size representable,
/// which the engine otherwise treats as a fatal error.
#[verifier::external_body]
fn base64_std(input: &Vec<u8>) -> (r: Vec<u8>)
    requires
        input@.len() <= 0x3fffffff,
    ensures
        r@ == base64_std_of(input@),
        r@.len() == 4 * ((input@.len() + 2) / 3),
{
    base64::engine::general_purpose::STANDARD.encode(input.as_slice()).into_bytes()
}

/// The Basic authentication header value for the stream connection:
/// `Basic ` followed by the standard base64 encoding of
/// `admin:<secret>`, as bytes.
pub open spec fn spec_basic_auth_value(secret: Seq<u8>) -> Seq<u8> {
    seq![66u8, 97u8, 115u8, 105u8, 99u8, 32u8] + base64_std_of(
        seq![97u8, 100u8, 109u8, 105u8, 110u8, 58u8] + secret,
    )
}

/// Builds the Basic authentication header value: the fixed username
/// `admin` and the configured secret.
pub fn basic_auth_value(secret: &Vec<u8>) -> (r: Vec<u8>)
    requires
        secret@.len() <= 0x3ffffff0,
    ensures
        r@ == spec_basic_auth_value(secret@),
{
    let mut user_pass: Vec<u8> = Vec::new();
    user_pass.push(97);  // a
    user_pass.push(100);  // d
    user_pass.push(109);  // m
    user_pass.push(105);  // i
    user_pass.push(110);  // n
    user_pass.push(58);  // :
    let mut i: usize = 0;
    while i < secret.len()
        invariant
            0 <= i <= secret@.len(),
            user_pass@ == seq![97u8, 100u8, 109u8, 105u8, 110u8, 58u8] + secret@.take(i as int),
        decreases secret@.len() - i,
    {
        user_pass.push(secret[i]);
        proof {
            assert(user_pass@ =~= seq![97u8, 100u8, 109u8, 105u8, 110u8, 58u8] + secret@.take(
                i + 1,
            ));
        }
        i += 1;
    }
    proof {
        assert(secret@.take(secret@.len() as int) =~= secret@);
    }
    let encoded = base64_std(&user_pass);
    let mut out: Vec<u8> = Vec::new();
    out.push(66);  // B
    out.push(97);  // a
    out.push(115);  // s
    out.push(105);  // i
    out.push(99);  // c
    out.push(32);  // space
    let mut j: usize = 0;
    while j < encoded.len()
        invariant
            0 <= j <= encoded@.len(),
            out@ == seq![66u8, 97u8, 115u8, 105u8, 99u8, 32u8] + encoded@.take(j as int),
        decreases encoded@.len() - j,
    {
        out.push(encoded[j]);
        proof {
            assert(out@ =~= seq![66u8, 97u8, 115u8, 105u8, 99u8, 32u8] + encoded@.take(j + 1));
        }
        j += 1;
    }
    proof {
        assert(encoded@.take(encoded@.len() as int) =~= encoded@);
    }
    out
}

/// An inbound frame of the stream session, as the read loop sees it.
#[derive(Debug, Clone)]
pub enum StreamFrame {
    /// A text frame holding one event, as bytes.
    Text(Vec<u8>),
    /// A ping frame with its payload.
    Ping(Vec<u8>),
    /// A close frame: the peer ends the session.
    Close,
    /// Any other frame kind.
    Other,
}

/// The response the session owes to one inbound frame.
#[derive(Debug, Clone)]
pub enum FrameAction {
    /// Decode and process the payload as one event.
    Process(Vec<u8>),
    /// Answer with a pong carrying the identical payload.
    Pong(Vec<u8>),
    /// End the read loop gracefully; the cooldown-then-reconnect path
    /// follows.
    EndSession,
    /// Ignore the frame.
    Ignore,
}

/// Decides the response to one inbound frame: every ping is answered by
/// a pong carrying the identical payload, a text frame is processed, a
/// close frame ends the session, anything else is ignored.
pub fn frame_response(frame: StreamFrame) -> (r: FrameAction)
    ensures
        match frame {
            StreamFrame::Text(payload) => r matches FrameAction::Process(p) && p@ == payload@,
            StreamFrame::Ping(payload) => r matches FrameAction::Pong(p) && p@ == payload@,
            StreamFrame::Close => r is EndSession,
            StreamFrame::Other => r is Ignore,
        },
{
    match frame {
        StreamFrame::Text(payload) => FrameAction::Process(payload),
        StreamFrame::Ping(payload) => FrameAction::Pong(payload),
        StreamFrame::Close => FrameAction::EndSession,
        StreamFrame::Other => FrameAction::Ignore,
    }
}

} // verus!
