//! One command/response exchange, as a state machine.
//!
//! The caller performs the serial I/O and reports each outcome here; the
//! machine decides everything else: which bytes to write, how the sequence
//! bit toggles when a write fails, how many bytes to read next, and when a
//! response frame is complete or the exchange has failed.
//!
//! The protocol sequence discipline:
//! - a failed write toggles the sequence bit on the outgoing frame (the
//!   device treats a repeated bit as a retransmission), and the frame is
//!   re-issued after the minimum polling interval;
//! - once a write succeeds, the session's process-wide sequence flag must
//!   become the complement of the bit just sent, so the next command is
//!   recognised as new.
//!
//! Reads happen in three steps, exactly one frame per command sent: one
//! byte for the start marker, two bytes for the sequence id and declared
//! length, then `length + 2` bytes for the data and the CRC-16 trailer.
//! A wrong start marker or a zero declared length is a framing error; a
//! read that the transport could not complete surfaces as a timeout or an
//! I/O error, never as a decode error.
use vstd::prelude::*;

use crate::error::Error;
use crate::wire::framed;
use crate::wire::frame_message;
use crate::wire::reframed;
use crate::wire::reframe_message;
use crate::wire::seq_id_byte;
use crate::wire::spec_seq_id_byte;
use crate::wire::MAX_DATA_LEN;
use crate::wire::MAX_FRAME_LEN;
use crate::wire::METADATA_LEN;
use crate::wire::START_MARKER;

verus! {

/// Where an exchange stands.
#[derive(Clone, Copy, Debug, PartialEq, Eq, Structural)]
pub enum Phase {
    /// The outgoing frame still has to be written (or re-written).
    Sending,
    /// Waiting for the one-byte start marker of the response.
    AwaitStx,
    /// Waiting for the sequence-id and length bytes of the response.
    AwaitHeader,
    /// Waiting for the declared data bytes and the CRC-16 trailer.
    AwaitBody,
    /// A whole response frame has been read.
    Complete,
    /// The exchange failed; the error was already handed to the caller.
    Failed,
}

/// One command/response exchange in flight.
pub struct Exchange {
    /// Message type byte of the command sent; the expected response identity.
    pub kind: u8,
    /// Whether the command travels inside an encrypted envelope.
    pub encrypted: bool,
    /// The outgoing frame as it would be written now.
    pub wire: Vec<u8>,
    /// The sequence flag carried by the outgoing frame.
    pub sent_flag: bool,
    /// The sequence flag of the very first write attempt.
    pub initial_flag: bool,
    /// How many write attempts have failed so far.
    pub write_failures: u64,
    /// Where the exchange stands.
    pub phase: Phase,
    /// The response frame accumulated so far.
    pub frame: Vec<u8>,
}

impl Exchange {
    /// Well-formedness: the outgoing frame is a real frame carrying the
    /// current sequence flag, the sequence bit records the parity of the
    /// failed writes, and the accumulated response frame matches the phase.
    pub open spec fn wf(&self) -> bool {
        &&& METADATA_LEN <= self.wire@.len()
        &&& self.wire@.len() <= MAX_FRAME_LEN
        &&& self.wire@[0] == START_MARKER
        &&& self.wire@[1] == spec_seq_id_byte(self.sent_flag, 0)
        &&& self.sent_flag == (self.initial_flag != (self.write_failures % 2 == 1))
        &&& ((self.phase is Sending || self.phase is AwaitStx) ==> self.frame@.len() == 0)
        &&& (self.phase is AwaitHeader ==> self.frame@ == seq![START_MARKER])
        &&& ((self.phase is AwaitBody || self.phase is Complete) ==> {
            &&& self.frame@.len() >= 3
            &&& self.frame@[0] == START_MARKER
            &&& self.frame@[2] != 0
        })
        &&& (self.phase is AwaitBody ==> self.frame@.len() == 3)
        &&& (self.phase is Complete ==> self.frame@.len() == self.frame@[2] + METADATA_LEN)
    }

    /// How many bytes the caller must read next.
    pub open spec fn spec_expected_read_len(&self) -> int {
        if self.phase is AwaitStx {
            1
        } else if self.phase is AwaitHeader {
            2
        } else if self.phase is AwaitBody {
            self.frame@[2] + 2
        } else {
            0
        }
    }

    /// Starts an exchange for a plaintext command whose frame data is
    /// `data` (the command byte followed by its parameters), sent under
    /// sequence flag `flag`.
    pub fn new_plain(kind: u8, data: &Vec<u8>, flag: bool) -> (ex: Exchange)
        requires
            1 <= data@.len() <= MAX_DATA_LEN,
            data@[0] == kind,
        ensures
            ex.wf(),
            ex.kind == kind,
            !ex.encrypted,
            ex.sent_flag == flag,
            ex.initial_flag == flag,
            ex.write_failures == 0,
            ex.phase is Sending,
            ex.wire@ == framed(spec_seq_id_byte(flag, 0), data@),
    {
        let wire = frame_message(seq_id_byte(flag, 0), data);
        Exchange {
            kind,
            encrypted: false,
            wire,
            sent_flag: flag,
            initial_flag: flag,
            write_failures: 0,
            phase: Phase::Sending,
            frame: Vec::new(),
        }
    }

    /// Starts an exchange for an encrypted envelope already framed by the
    /// codec; the frame is re-issued under sequence flag `flag`.
    pub fn new_encrypted(kind: u8, envelope: &Vec<u8>, flag: bool) -> (ex: Exchange)
        requires
            METADATA_LEN <= envelope@.len() <= MAX_FRAME_LEN,
        ensures
            ex.wf(),
            ex.kind == kind,
            ex.encrypted,
            ex.sent_flag == flag,
            ex.initial_flag == flag,
            ex.write_failures == 0,
            ex.phase is Sending,
            ex.wire@ == reframed(envelope@, spec_seq_id_byte(flag, 0)),
    {
        let wire = reframe_message(envelope, seq_id_byte(flag, 0));
        Exchange {
            kind,
            encrypted: true,
            wire,
            sent_flag: flag,
            initial_flag: flag,
            write_failures: 0,
            phase: Phase::Sending,
            frame: Vec::new(),
        }
    }

    /// The bytes to write for the current attempt.
    pub fn wire_bytes(&self) -> (r: &Vec<u8>)
        ensures
            r@ == self.wire@,
    {
        &self.wire
    }

    /// Records a failed write: the sequence bit on the outgoing frame is
    /// toggled and the frame re-issued, to be written again after the
    /// minimum polling interval.  There is no retry ceiling; a caller
    /// needing an upper bound imposes its own deadline.
    pub fn write_failed(&mut self)
        requires
            old(self).wf(),
            old(self).phase is Sending,
        ensures
            final(self).wf(),
            final(self).phase is Sending,
            final(self).sent_flag == !old(self).sent_flag,
            final(self).write_failures == if old(self).write_failures == u64::MAX {
                0u64
            } else {
                (old(self).write_failures + 1) as u64
            },
            final(self).wire@ == reframed(
                old(self).wire@,
                spec_seq_id_byte(final(self).sent_flag, 0),
            ),
            final(self).kind == old(self).kind,
            final(self).encrypted == old(self).encrypted,
            final(self).initial_flag == old(self).initial_flag,
            final(self).frame@ == old(self).frame@,
    {
        let flipped: bool = !self.sent_flag;
        let wire = reframe_message(&self.wire, seq_id_byte(flipped, 0));
        self.wire = wire;
        self.sent_flag = flipped;
        self.write_failures = if self.write_failures == u64::MAX {
            0
        } else {
            self.write_failures + 1
        };
    }

    /// Records a successful write and moves to reading the response.
    /// Returns the value the session's process-wide sequence flag must now
    /// take: the complement of the flag just sent.
    pub fn write_succeeded(&mut self) -> (next_flag: bool)
        requires
            old(self).wf(),
            old(self).phase is Sending,
        ensures
            final(self).wf(),
            final(self).phase is AwaitStx,
            next_flag == !old(self).sent_flag,
            (*final(self) == Exchange { phase: Phase::AwaitStx, ..*old(self) }),
    {
        self.phase = Phase::AwaitStx;
        !self.sent_flag
    }

    /// How many bytes the caller must read next.
    pub fn expected_read_len(&self) -> (n: usize)
        requires
            self.wf(),
        ensures
            n == self.spec_expected_read_len(),
    {
        match self.phase {
            Phase::AwaitStx => 1,
            Phase::AwaitHeader => 2,
            Phase::AwaitBody => (self.frame[2] as usize) + 2,
            _ => 0,
        }
    }

    /// Feeds in bytes the caller read.  `Ok(true)` means a whole response
    /// frame is ready; `Ok(false)` means more bytes are needed.  A wrong
    /// start marker or a zero declared length fails the exchange with a
    /// framing error.
    pub fn read_returned(&mut self, bytes: &Vec<u8>) -> (r: Result<bool, Error>)
        requires
            old(self).wf(),
            old(self).phase is AwaitStx || old(self).phase is AwaitHeader || old(
                self,
            ).phase is AwaitBody,
            bytes@.len() == old(self).spec_expected_read_len(),
        ensures
            final(self).wf(),
            final(self).kind == old(self).kind,
            final(self).encrypted == old(self).encrypted,
            final(self).sent_flag == old(self).sent_flag,
            final(self).initial_flag == old(self).initial_flag,
            final(self).write_failures == old(self).write_failures,
            final(self).wire@ == old(self).wire@,
            old(self).phase is AwaitStx ==> if bytes@[0] == START_MARKER {
                &&& r == Ok::<bool, Error>(false)
                &&& final(self).phase is AwaitHeader
                &&& final(self).frame@ == seq![START_MARKER]
            } else {
                &&& r == Err::<bool, Error>(Error::InvalidStx(bytes@[0]))
                &&& final(self).phase is Failed
            },
            old(self).phase is AwaitHeader ==> if bytes@[1] != 0 {
                &&& r == Ok::<bool, Error>(false)
                &&& final(self).phase is AwaitBody
                &&& final(self).frame@ == old(self).frame@ + bytes@
            } else {
                &&& r == Err::<bool, Error>(Error::InvalidLength(0))
                &&& final(self).phase is Failed
            },
            old(self).phase is AwaitBody ==> {
                &&& r == Ok::<bool, Error>(true)
                &&& final(self).phase is Complete
                &&& final(self).frame@ == old(self).frame@ + bytes@
            },
    {
        match self.phase {
            Phase::AwaitStx => {
                let b: u8 = bytes[0];
                if b == START_MARKER {
                    self.frame.push(START_MARKER);
                    self.phase = Phase::AwaitHeader;
                    proof {
                        assert(self.frame@ =~= seq![START_MARKER]);
                    }
                    Ok(false)
                } else {
                    self.phase = Phase::Failed;
                    Err(Error::InvalidStx(b))
                }
            },
            Phase::AwaitHeader => {
                let declared: u8 = bytes[1];
                if declared != 0 {
                    self.frame.push(bytes[0]);
                    self.frame.push(declared);
                    self.phase = Phase::AwaitBody;
                    proof {
                        assert(self.frame@ =~= old(self).frame@ + bytes@);
                    }
                    Ok(false)
                } else {
                    self.phase = Phase::Failed;
                    Err(Error::InvalidLength(0))
                }
            },
            _ => {
                let mut i: usize = 0;
                while i < bytes.len()
                    invariant
                        i <= bytes@.len(),
                        self.frame@ == old(self).frame@ + bytes@.subrange(0, i as int),
                        (*self == Exchange { frame: self.frame, ..*old(self) }),
                    decreases bytes@.len() - i,
                {
                    self.frame.push(bytes[i]);
                    i = i + 1;
                }
                self.phase = Phase::Complete;
                proof {
                    assert(bytes@.subrange(0, bytes@.len() as int) =~= bytes@);
                }
                Ok(true)
            },
        }
    }

    /// Records that the caller could not complete a read: the stream closed
    /// short or the transport's I/O timeout elapsed.  The exchange fails
    /// with a timeout or transport error — never a framing or decode error,
    /// whatever was declared in the header already read.
    pub fn read_failed(&mut self, timed_out: bool) -> (e: Error)
        requires
            old(self).wf(),
        ensures
            final(self).wf(),
            final(self).phase is Failed,
            e == if timed_out {
                Error::Timeout
            } else {
                Error::Io
            },
            !(e is Decode),
            !(e is InvalidStx),
            !(e is InvalidLength),
    {
        self.phase = Phase::Failed;
        if timed_out {
            Error::Timeout
        } else {
            Error::Io
        }
    }

    /// The completed response frame.
    pub fn response_frame(&self) -> (r: &Vec<u8>)
        requires
            self.phase is Complete,
        ensures
            r@ == self.frame@,
    {
        &self.frame
    }
}

/// After any run of failed write attempts, the sequence bit on the wire
/// differs from the first attempt's exactly when the number of failed
/// writes so far is odd: each failure toggles the bit once.
pub proof fn lemma_retry_parity(ex: Exchange)
    requires
        ex.wf(),
    ensures
        ex.sent_flag == (ex.initial_flag != (ex.write_failures % 2 == 1)),
{
}

/// Once a write succeeds, the process-wide flag becomes the complement of
/// the bit just sent, so it is consistent with the step count: it equals
/// the first attempt's bit exactly when the number of failed writes
/// before the success was odd.
pub proof fn lemma_flag_after_success(ex: Exchange, next_flag: bool)
    requires
        ex.wf(),
        next_flag == !ex.sent_flag,
    ensures
        next_flag == (ex.initial_flag == (ex.write_failures % 2 == 1)),
{
}

} // verus!
