//! The byte-framed serial sink: how text becomes bytes on the wire, and the
//! blocking discipline by which one text is handed to a transmitter.
//!
//! A transmitter accepts one byte at a time and may answer "not ready". The
//! sink never gives up on a byte that is not yet accepted, swallows every
//! failure, and ends each text with a flush.

use vstd::prelude::*;

verus! {

/// Byte sent once, before any text, to mark the start of the stream.
pub const FRAME_DELIMITER: u8 = 0x00;

/// Speed of the serial link, in bits per second.
pub const BAUD_RATE: u32 = 115_200;

/// The byte that stands for a character on the wire: the low eight bits of
/// its code point.
pub open spec fn wire_byte(c: char) -> u8 {
    ((c as u32) % 256) as u8
}

/// The bytes that stand for a text on the wire, one per character.
pub open spec fn wire_bytes(text: Seq<char>) -> Seq<u8> {
    Seq::new(text.len(), |i: int| wire_byte(text[i]))
}

/// Whether a text can go out as it is: none of its wire bytes is the frame
/// delimiter. The sink escapes nothing, so a text that is not frame safe
/// puts a second delimiter on the wire.
pub open spec fn frame_safe(text: Seq<char>) -> bool {
    forall|i: int| 0 <= i < text.len() ==> wire_byte(#[trigger] text[i]) != FRAME_DELIMITER
}

/// Encodes one character as its wire byte.
pub fn encode_char(c: char) -> (byte: u8)
    ensures
        byte == wire_byte(c),
{
    let code: u32 = c as u32;
    (code % 256) as u8
}

/// Encodes a text as its wire bytes, one per character and in order.
pub fn encode(text: &str) -> (bytes: Vec<u8>)
    ensures
        bytes@ == wire_bytes(text@),
{
    let mut bytes: Vec<u8> = Vec::new();
    let chars = text.chars();
    for c in it: chars
        invariant
            it.seq() == text@,
            bytes@ == wire_bytes(text@.take(it.index())),
    {
        bytes.push(encode_char(c));
        assert(bytes@ =~= wire_bytes(text@.take(it.index() + 1)));
    }
    assert(text@.take(text@.len() as int) =~= text@);
    bytes
}

/// What a transmitter answers to one request.
#[derive(Clone, Copy, Debug, PartialEq, Eq, Structural)]
pub enum TxReply {
    /// The byte was taken, or the buffer is drained.
    Accepted,
    /// The transmitter is busy: the same request is to be made again.
    NotReady,
    /// The transmitter reported an error.
    Failed,
}

/// What the sink asks of the transmitter next.
#[derive(Clone, Copy, Debug, PartialEq, Eq, Structural)]
pub enum TxRequest {
    /// Hand this byte to the transmitter.
    Write(u8),
    /// Ask the transmitter to drain its buffer.
    Flush,
    /// Nothing: the text is written.
    Finished,
}

/// The requests that writing `bytes` consists of when no request has to be
/// repeated: one write per byte, in order, then one flush.
pub open spec fn script(bytes: Seq<u8>) -> Seq<TxRequest> {
    Seq::new(
        bytes.len() + 1,
        |i: int|
            if i < bytes.len() {
                TxRequest::Write(bytes[i])
            } else {
                TxRequest::Flush
            },
    )
}

/// Number of replies in `replies` that settle a request, that is, all but
/// `NotReady`.
pub open spec fn settled(replies: Seq<TxReply>) -> nat
    decreases replies.len(),
{
    if replies.len() == 0 {
        0
    } else {
        settled(replies.drop_last()) + (if replies.last() == TxReply::NotReady {
            0nat
        } else {
            1nat
        })
    }
}

/// Mathematical state of one text on its way out: the bytes to send and how
/// many entries of their script are settled.
pub struct Progress {
    pub bytes: Seq<u8>,
    pub done: nat,
}

impl Progress {
    /// The request that is due in this state.
    pub open spec fn request(self) -> TxRequest {
        if self.done <= self.bytes.len() {
            script(self.bytes)[self.done as int]
        } else {
            TxRequest::Finished
        }
    }

    /// The state after the transmitter has answered the request that was
    /// due: `NotReady` changes nothing, any other reply settles the request.
    pub open spec fn after(self, reply: TxReply) -> Progress {
        if reply == TxReply::NotReady || self.done > self.bytes.len() {
            self
        } else {
            Progress { bytes: self.bytes, done: self.done + 1 }
        }
    }

    /// The state after a run of replies, each answering the request that was
    /// due when it came.
    pub open spec fn after_all(self, replies: Seq<TxReply>) -> Progress
        decreases replies.len(),
    {
        if replies.len() == 0 {
            self
        } else {
            self.after_all(replies.drop_last()).after(replies.last())
        }
    }
}

/// One text being written through the sink.
#[derive(Debug)]
pub struct TextWrite {
    bytes: Vec<u8>,
    sent: usize,
    flushed: bool,
}

impl View for TextWrite {
    type V = Progress;

    closed spec fn view(&self) -> Progress {
        Progress {
            bytes: self.bytes@,
            done: (self.sent + if self.flushed {
                1int
            } else {
                0int
            }) as nat,
        }
    }
}

impl TextWrite {
    #[verifier::type_invariant]
    spec fn consistent(self) -> bool {
        &&& self.sent <= self.bytes.len()
        &&& self.flushed ==> self.sent == self.bytes.len()
    }

    /// Starts writing `text`: nothing is sent yet.
    pub fn begin(text: &str) -> (write: TextWrite)
        ensures
            write@.bytes == wire_bytes(text@),
            write@.done == 0,
    {
        TextWrite { bytes: encode(text), sent: 0, flushed: false }
    }

    /// The request to make of the transmitter now.
    pub fn request(&self) -> (request: TxRequest)
        ensures
            request == self@.request(),
            self@.done <= self@.bytes.len() + 1,
    {
        proof {
            use_type_invariant(self);
        }
        if self.sent < self.bytes.len() {
            TxRequest::Write(self.bytes[self.sent])
        } else if !self.flushed {
            TxRequest::Flush
        } else {
            TxRequest::Finished
        }
    }

    /// Whether the text is written: every byte handed over and the flush
    /// settled.
    pub fn is_finished(&self) -> (finished: bool)
        ensures
            finished == (self@.done > self@.bytes.len()),
            finished == (self@.request() == TxRequest::Finished),
    {
        proof {
            use_type_invariant(self);
        }
        self.flushed
    }

    /// Takes the transmitter's answer to the request that was due. On
    /// `NotReady` nothing changes, so the same request is made again;
    /// `Accepted` and `Failed` alike move on to the next request.
    pub fn advance(&mut self, reply: TxReply)
        ensures
            final(self)@ == old(self)@.after(reply),
    {
        proof {
            use_type_invariant(&*self);
        }
        match reply {
            TxReply::NotReady => {},
            TxReply::Accepted | TxReply::Failed => {
                if self.sent < self.bytes.len() {
                    self.sent = self.sent + 1;
                } else if !self.flushed {
                    self.flushed = true;
                }
            },
        }
    }
}

/// A text is frame safe exactly when the delimiter is none of the bytes that
/// go out for it.
pub proof fn lemma_frame_safe_on_the_wire(text: Seq<char>)
    ensures
        frame_safe(text) <==> !wire_bytes(text).contains(FRAME_DELIMITER),
{
    if frame_safe(text) {
        assert forall|i: int| 0 <= i < wire_bytes(text).len() implies wire_bytes(text)[i]
            != FRAME_DELIMITER by {
            assert(wire_bytes(text)[i] == wire_byte(text[i]));
        }
    } else {
        let i = choose|i: int| 0 <= i < text.len() && wire_byte(#[trigger] text[i]) == FRAME_DELIMITER;
        assert(wire_bytes(text)[i] == FRAME_DELIMITER);
    }
}

/// A failure is swallowed: the sink goes on after `Failed` exactly as it
/// does after `Accepted`.
pub proof fn lemma_failure_is_swallowed(state: Progress)
    ensures
        state.after(TxReply::Failed) == state.after(TxReply::Accepted),
{
}

/// A transmitter that is not ready is asked again: the state, and with it
/// the request that is due, stays as it was.
pub proof fn lemma_not_ready_is_retried(state: Progress)
    ensures
        state.after(TxReply::NotReady) == state,
        state.after(TxReply::NotReady).request() == state.request(),
{
}

/// Whatever the transmitter answers, the sink works through the script of
/// its text in order: progress is the number of replies that settled a
/// request, capped at the end of the script, and the bytes never change.
pub proof fn lemma_progress_counts_settled(state: Progress, replies: Seq<TxReply>)
    ensures
        state.after_all(replies).bytes == state.bytes,
        state.done + settled(replies) <= state.bytes.len() ==> state.after_all(replies).done
            == state.done + settled(replies),
        state.done + settled(replies) > state.bytes.len() ==> state.after_all(replies).done
            == (if state.done > state.bytes.len() {
            state.done
        } else {
            state.bytes.len() + 1
        }),
    decreases replies.len(),
{
    if replies.len() > 0 {
        lemma_progress_counts_settled(state, replies.drop_last());
    }
}

/// From a fresh start, once `n` requests are settled the request that is
/// due is entry `n` of the script, and the text is finished exactly when the
/// whole script is settled.
pub proof fn lemma_requests_follow_script(bytes: Seq<u8>, replies: Seq<TxReply>)
    ensures
        ({
            let end = Progress { bytes, done: 0 }.after_all(replies);
            &&& settled(replies) <= bytes.len() ==> end.request() == script(bytes)[settled(
                replies,
            ) as int]
            &&& settled(replies) > bytes.len() <==> end.request() == TxRequest::Finished
        }),
{
    lemma_progress_counts_settled(Progress { bytes, done: 0 }, replies);
}

/// Writing an empty text asks for no byte to be written, and still for one
/// flush: the script is the flush alone, so whatever the transmitter
/// answers, the request that is due is the flush until one reply settles it,
/// and nothing afterwards.
pub proof fn lemma_empty_text_only_flushes(text: Seq<char>, replies: Seq<TxReply>)
    requires
        text.len() == 0,
    ensures
        script(wire_bytes(text)) == seq![TxRequest::Flush],
        ({
            let end = Progress { bytes: wire_bytes(text), done: 0 }.after_all(replies);
            &&& settled(replies) == 0 ==> end.request() == TxRequest::Flush
            &&& settled(replies) > 0 ==> end.request() == TxRequest::Finished
        }),
{
    assert(script(wire_bytes(text)) =~= seq![TxRequest::Flush]);
    lemma_requests_follow_script(wire_bytes(text), replies);
}

} // verus!
