//! The mailbox message: framing, encoding and decoding.
//!
//! A message occupies the launcher's slot of the shared memory region. On the
//! wire it is the little-endian field id, followed for text messages by a
//! little-endian byte count and that many bytes of UTF-16LE text (one message
//! appends a single trailing NUL byte beyond the declared count), for plain
//! flag messages by a little-endian value, and for bare markers by nothing.

use crate::codec::{
    lemma_u32_le_round_trip, lemma_units_round_trip, lemma_utf16_le_bytes_len, push_u32_le,
    push_utf16_le_bytes, read_u32_le, read_units_le, u32_from_le, u32_le, units_from_le_bytes,
    utf16_le_bytes,
};
use vstd::prelude::*;

verus! {

/// Total capacity of the shared memory region, in bytes.
pub const SHARED_MEMORY_CAPACITY: usize = 131072;

/// Offset of the launcher's message slot inside the region.
pub const LAUNCHER_PART_OFFSET: usize = 65536;

/// Bytes available for one message at the launcher's offset.
pub const LAUNCHER_PART_CAPACITY: usize = 65536;

/// What a message carries beyond its field id.
#[derive(Debug)]
pub enum MessageBody {
    /// UTF-16LE text, preceded by its byte count; `nul_terminated` marks the
    /// one message that appends a trailing NUL byte beyond that count.
    Text { units: Vec<u16>, nul_terminated: bool },
    /// A bare flag with an explicit 32-bit value.
    FlagValue(u32),
    /// A flag with no payload at all.
    FlagOnly,
}

/// One configuration message, ready to be laid out in the mailbox.
#[derive(Debug)]
pub struct Message {
    pub field_id: u32,
    pub body: MessageBody,
}

/// Mathematical model of a message body.
pub enum MessageBodyView {
    Text { units: Seq<u16>, nul_terminated: bool },
    FlagValue(u32),
    FlagOnly,
}

/// Mathematical model of a message.
pub struct MessageView {
    pub field_id: u32,
    pub body: MessageBodyView,
}

impl View for MessageBody {
    type V = MessageBodyView;

    open spec fn view(&self) -> MessageBodyView {
        match self {
            MessageBody::Text { units, nul_terminated } => MessageBodyView::Text {
                units: units@,
                nul_terminated: *nul_terminated,
            },
            MessageBody::FlagValue(v) => MessageBodyView::FlagValue(*v),
            MessageBody::FlagOnly => MessageBodyView::FlagOnly,
        }
    }
}

impl View for Message {
    type V = MessageView;

    open spec fn view(&self) -> MessageView {
        MessageView { field_id: self.field_id, body: self.body@ }
    }
}

impl MessageView {
    /// The exact byte image this message puts in the mailbox slot.
    pub open spec fn encoded(self) -> Seq<u8> {
        u32_le(self.field_id) + match self.body {
            MessageBodyView::Text { units, nul_terminated } => u32_le((2 * units.len()) as u32)
                + utf16_le_bytes(units) + if nul_terminated {
                seq![0u8]
            } else {
                Seq::<u8>::empty()
            },
            MessageBodyView::FlagValue(v) => u32_le(v),
            MessageBodyView::FlagOnly => Seq::<u8>::empty(),
        }
    }

    /// A message fits the mailbox slot.
    pub open spec fn wf(self) -> bool {
        match self.body {
            MessageBodyView::Text { units, nul_terminated } => 8 + 2 * units.len() + (if nul_terminated {
                1int
            } else {
                0int
            }) <= LAUNCHER_PART_CAPACITY,
            _ => true,
        }
    }

    /// The encoded image of a well-formed message fits the slot.
    pub proof fn lemma_encoded_len(self)
        requires
            self.wf(),
        ensures
            self.encoded().len() <= LAUNCHER_PART_CAPACITY,
    {
        match self.body {
            MessageBodyView::Text { units, nul_terminated } => {
                lemma_utf16_le_bytes_len(units);
            },
            _ => {},
        }
    }
}

impl Message {
    /// Lays the message out as the bytes written into the mailbox slot.
    pub fn encode(&self) -> (r: Vec<u8>)
        requires
            self@.wf(),
        ensures
            r@ == self@.encoded(),
            r@.len() <= LAUNCHER_PART_CAPACITY,
    {
        let mut out: Vec<u8> = Vec::new();
        push_u32_le(&mut out, self.field_id);
        match &self.body {
            MessageBody::Text { units, nul_terminated } => {
                proof {
                    lemma_utf16_le_bytes_len(units@);
                }
                let byte_count = 2 * (units.len() as u32);
                push_u32_le(&mut out, byte_count);
                push_utf16_le_bytes(&mut out, units);
                if *nul_terminated {
                    out.push(0u8);
                }
                assert(out@ =~= self@.encoded());
            },
            MessageBody::FlagValue(v) => {
                push_u32_le(&mut out, *v);
                assert(out@ =~= self@.encoded());
            },
            MessageBody::FlagOnly => {
                assert(out@ =~= self@.encoded());
            },
        }
        proof {
            self@.lemma_encoded_len();
        }
        out
    }
}

/// The message a text-message byte image decodes to: the field id, the text
/// read back from the declared byte count, and whether exactly one trailing
/// NUL byte follows the declared count.
pub open spec fn decode_text_spec(b: Seq<u8>) -> Option<MessageView> {
    if b.len() < 8 {
        None
    } else {
        let field_id = u32_from_le(b.subrange(0, 4));
        let count = u32_from_le(b.subrange(4, 8)) as int;
        if count % 2 != 0 {
            None
        } else if b.len() == 8 + count {
            Some(
                MessageView {
                    field_id,
                    body: MessageBodyView::Text {
                        units: units_from_le_bytes(b.subrange(8, 8 + count)),
                        nul_terminated: false,
                    },
                },
            )
        } else if b.len() == 8 + count + 1 && b[8 + count] == 0 {
            Some(
                MessageView {
                    field_id,
                    body: MessageBodyView::Text {
                        units: units_from_le_bytes(b.subrange(8, 8 + count)),
                        nul_terminated: true,
                    },
                },
            )
        } else {
            None
        }
    }
}

/// Reads a text message back from its byte image.
pub fn decode_text_message(bytes: &Vec<u8>) -> (r: Option<Message>)
    ensures
        match r {
            Some(m) => decode_text_spec(bytes@) == Some(m@),
            None => decode_text_spec(bytes@) is None,
        },
{
    let n = bytes.len();
    if n < 8 {
        return None;
    }
    let field_id = read_u32_le(bytes, 0);
    let count32 = read_u32_le(bytes, 4);
    proof {
        assert(bytes@.subrange(0, 4) =~= bytes@.subrange(0 as int, 0 as int + 4));
        assert(bytes@.subrange(4, 8) =~= bytes@.subrange(4 as int, 4 as int + 4));
    }
    if count32 % 2 != 0 {
        return None;
    }
    let count = count32 as u64;
    let n64 = n as u64;
    if n64 == 8 + count {
        let units = read_units_le(bytes, 8, (count32 / 2) as usize);
        proof {
            assert(bytes@.subrange(8, 8 + count as int) =~= bytes@.subrange(
                8 as int,
                8 as int + 2 * ((count32 / 2) as usize) as int,
            ));
        }
        Some(Message { field_id, body: MessageBody::Text { units, nul_terminated: false } })
    } else if n64 == 8 + count + 1 && bytes[n - 1] == 0 {
        let units = read_units_le(bytes, 8, (count32 / 2) as usize);
        proof {
            assert(bytes@.subrange(8, 8 + count as int) =~= bytes@.subrange(
                8 as int,
                8 as int + 2 * ((count32 / 2) as usize) as int,
            ));
            assert(bytes@[8 + count as int] == bytes@[n - 1]);
        }
        Some(Message { field_id, body: MessageBody::Text { units, nul_terminated: true } })
    } else {
        None
    }
}

/// Round trip: decoding the byte image of a well-formed text message
/// recovers the field id, the text, and the trailing-NUL mark.
pub proof fn lemma_text_round_trip(m: MessageView)
    requires
        m.wf(),
        m.body is Text,
    ensures
        decode_text_spec(m.encoded()) == Some(m),
{
    let b = m.encoded();
    match m.body {
        MessageBodyView::Text { units, nul_terminated } => {
            lemma_utf16_le_bytes_len(units);
            assert(b.subrange(0, 4) =~= u32_le(m.field_id));
            assert(b.subrange(4, 8) =~= u32_le((2 * units.len()) as u32));
            lemma_u32_le_round_trip(m.field_id);
            lemma_u32_le_round_trip((2 * units.len()) as u32);
            let count = u32_from_le(b.subrange(4, 8)) as int;
            assert(count == 2 * units.len());
            assert(b.subrange(8, 8 + count) =~= utf16_le_bytes(units));
            lemma_units_round_trip(units);
            if nul_terminated {
                assert(b.len() == 8 + count + 1);
                assert(b[8 + count] == 0);
            } else {
                assert(b.len() == 8 + count);
            }
        },
        _ => {},
    }
}

/// The one NUL-terminated message shows exactly one trailing NUL byte beyond
/// the byte count it declares.
pub proof fn lemma_nul_terminated_layout(m: MessageView)
    requires
        m.wf(),
        m.body matches MessageBodyView::Text { units, nul_terminated } && nul_terminated,
    ensures
        m.encoded().len() == 8 + u32_from_le(m.encoded().subrange(4, 8)) + 1,
        m.encoded().last() == 0,
{
    let b = m.encoded();
    match m.body {
        MessageBodyView::Text { units, nul_terminated } => {
            lemma_utf16_le_bytes_len(units);
            assert(b.subrange(4, 8) =~= u32_le((2 * units.len()) as u32));
            lemma_u32_le_round_trip((2 * units.len()) as u32);
        },
        _ => {},
    }
}

} // verus!
