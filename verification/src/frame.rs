//! The framing shared with the other end of the tunnel: one byte for the channel, then the
//! raw bytes.

use vstd::prelude::*;
use vstd::slice::*;

verus! {

/// First byte of a frame that carries bytes of the TCP stream.
pub const CH_TCP: u8 = 0x00;

/// First byte of a frame that carries one UDP datagram.
pub const CH_UDP: u8 = 0x01;

/// What the bytes of a frame belong to.
#[derive(Debug, Clone, Copy, PartialEq, Eq, Structural)]
pub enum Channel {
    Tcp,
    Udp,
}

impl Channel {
    /// The byte that stands for the channel.
    pub open spec fn byte(self) -> u8 {
        match self {
            Channel::Tcp => CH_TCP,
            Channel::Udp => CH_UDP,
        }
    }
}

/// The frame of `data` on a channel.
pub open spec fn framed(channel: Channel, data: Seq<u8>) -> Seq<u8> {
    seq![channel.byte()] + data
}

/// The channel and the data of a frame. A frame that is empty or names no channel has none.
pub open spec fn unframed(frame: Seq<u8>) -> Option<(Channel, Seq<u8>)> {
    if frame.len() == 0 {
        None
    } else if frame[0] == CH_TCP {
        Some((Channel::Tcp, frame.skip(1)))
    } else if frame[0] == CH_UDP {
        Some((Channel::Udp, frame.skip(1)))
    } else {
        None
    }
}

/// Puts the byte of the channel before the data.
pub fn frame(channel: Channel, data: &[u8]) -> (res: Vec<u8>)
    ensures
        res@ == framed(channel, data@),
        res@.len() == data@.len() + 1,
        res@[0] == if channel == Channel::Tcp {
            0u8
        } else {
            1u8
        },
        forall|i: int| 0 <= i < data@.len() ==> res@[i + 1] == #[trigger] data@[i],
{
    let mut res: Vec<u8> = Vec::new();
    match channel {
        Channel::Tcp => res.push(CH_TCP),
        Channel::Udp => res.push(CH_UDP),
    }
    res.extend_from_slice(data);
    assert(res@ =~= framed(channel, data@));
    res
}

/// Takes a frame apart.
pub fn unframe(frame: &[u8]) -> (res: Option<(Channel, Vec<u8>)>)
    ensures
        match res {
            Some((channel, data)) => unframed(frame@) == Some((channel, data@)),
            None => unframed(frame@) is None,
        },
        res is Some <==> frame@.len() > 0 && frame@[0] <= 1,
        res matches Some((channel, data)) ==> {
            &&& channel == Channel::Tcp <==> frame@[0] == 0
            &&& data@.len() == frame@.len() - 1
            &&& forall|i: int| 0 <= i < data@.len() ==> #[trigger] data@[i] == frame@[i + 1]
        },
{
    if frame.len() == 0 {
        return None;
    }
    let channel = if frame[0] == CH_TCP {
        Channel::Tcp
    } else if frame[0] == CH_UDP {
        Channel::Udp
    } else {
        return None;
    };
    let mut data: Vec<u8> = Vec::new();
    data.extend_from_slice(slice_subrange(frame, 1, frame.len()));
    assert(data@ =~= frame@.skip(1));
    Some((channel, data))
}

/// Taking a frame apart gives back the channel and the bytes that it was made of.
pub proof fn law_unframe_gives_back_what_was_framed(channel: Channel, data: Seq<u8>)
    ensures
        unframed(framed(channel, data)) == Some((channel, data)),
{
    assert(framed(channel, data).skip(1) =~= data);
}

/// A frame that can be taken apart is the frame of what it holds.
pub proof fn law_frame_is_determined_by_its_parts(frame: Seq<u8>)
    requires
        unframed(frame) is Some,
    ensures
        frame == framed(unframed(frame)->Some_0.0, unframed(frame)->Some_0.1),
{
    assert(frame =~= seq![frame[0]] + frame.skip(1));
}

/// What `base64::engine::general_purpose::STANDARD` decodes a text to, where it accepts it.
pub uninterp spec fn base64_decoded(text: Seq<char>) -> Option<Seq<u8>>;

/// `STANDARD.decode` of the crate `base64`: the outcome, an error or the bytes, depends on
/// the text alone. Which bytes come of which text is left to the name.
#[verifier::external_body]
pub(crate) fn decode_base64(text: &str) -> (res: Option<Vec<u8>>)
    ensures
        match res {
            Some(bytes) => base64_decoded(text@) == Some(bytes@),
            None => base64_decoded(text@) is None,
        },
{
    base64::Engine::decode(&base64::engine::general_purpose::STANDARD, text).ok()
}

} // verus!
