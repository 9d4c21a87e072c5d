//! The retrying request/response exchange.
//!
//! The embedded controller is not always ready to answer: each attempt is
//! framed by short settle delays, failed attempts are separated by a long
//! backoff, and the whole exchange is capped at a fixed attempt budget.
//! This is a hardware-timing workaround, not a logical retry of a failed
//! business operation, so none of it may be elided.
//!
//! The delays and the HID feature-report write and read are outside work;
//! the caller performs them and hands every raw read back to
//! [`Exchange::offer`], which holds all the decisions: whether the bytes
//! answer the request, whether another attempt is allowed, and when the
//! budget is exhausted.

use vstd::prelude::*;

use crate::error::Error;
use crate::packet::{spec_decode, spec_encode, spec_matches, Packet, FRAME_LEN};

verus! {

/// Fixed retry budget of one exchange.
pub const MAX_ATTEMPTS: u8 = 5;

/// Settle delay before each feature-report write, in microseconds.
pub const PRE_SEND_DELAY_MICROS: u64 = 1000;

/// Settle delay between the write and the read-back, in microseconds.
pub const POST_SEND_DELAY_MICROS: u64 = 2000;

/// Backoff between failed attempts, in milliseconds, letting the
/// controller firmware recover.
pub const RETRY_BACKOFF_MILLIS: u64 = 500;

/// Report id prefixed to every write and returned by every read; not part
/// of the packet frame.
pub const REPORT_ID: u8 = 0x00;

/// Byte length of a raw read: the report id followed by one frame.
pub const RESPONSE_LEN: usize = FRAME_LEN + 1;

/// Whether one raw feature-report read answers the given request: right
/// length, decodable frame after the report id, matching class and id,
/// success status.
pub open spec fn spec_accepts(bytes: Seq<u8>, request: crate::packet::PacketModel) -> bool {
    &&& bytes.len() == RESPONSE_LEN
    &&& match spec_decode(bytes.drop_first()) {
        Some(p) => spec_matches(p, request),
        None => false,
    }
}

/// Checks one raw read against the request it should answer, returning
/// the decoded response when it matches. A wrong length, an undecodable
/// frame and a non-matching response all count the same: one failed
/// attempt.
pub fn accept_response(bytes: &[u8], request: &Packet) -> (r: Option<Packet>)
    ensures
        r matches Some(p) ==> spec_accepts(bytes@, request@) && spec_decode(bytes@.drop_first())
            == Some(p@) && spec_matches(p@, request@),
        r is None ==> !spec_accepts(bytes@, request@),
{
    if bytes.len() != RESPONSE_LEN {
        return None;
    }
    let frame: &[u8] = &bytes[1..RESPONSE_LEN];
    proof {
        assert(frame@ =~= bytes@.drop_first());
    }
    match Packet::decode(frame) {
        Ok(p) => {
            if p.matches(request) {
                Some(p)
            } else {
                None
            }
        }
        Err(_) => None,
    }
}

/// What the caller must do after offering one raw read.
#[derive(Debug, PartialEq)]
pub enum ExchangeStep {
    /// The response matched; the exchange is over.
    Done(Packet),
    /// The attempt failed; wait the backoff and run another attempt.
    Retry,
    /// The retry budget is exhausted.
    Failed(Error),
}

/// State of one exchange: the request it correlates responses against and
/// the number of failed attempts so far.
pub struct Exchange {
    request: Packet,
    attempts: u8,
    done: bool,
}

impl Exchange {
    /// The request this exchange answers for.
    pub closed spec fn spec_request(self) -> crate::packet::PacketModel {
        self.request@
    }

    /// Failed attempts so far.
    pub closed spec fn attempts_used(self) -> int {
        self.attempts as int
    }

    /// The attempt count never leaves the budget.
    pub closed spec fn inv(self) -> bool {
        self.attempts <= MAX_ATTEMPTS
    }

    /// Whether another attempt may run.
    pub closed spec fn active(self) -> bool {
        !self.done && self.attempts < MAX_ATTEMPTS
    }

    /// Starts an exchange for one request.
    pub fn begin(request: Packet) -> (s: Self)
        ensures
            s.inv(),
            s.active(),
            s.attempts_used() == 0,
            s.spec_request() == request@,
    {
        Exchange { request, attempts: 0, done: false }
    }

    /// The raw feature report to write for every attempt: the report id
    /// followed by the encoded request.
    pub fn report_bytes(&self) -> (r: Vec<u8>)
        ensures
            r@ == seq![REPORT_ID] + spec_encode(self.spec_request()),
            r@.len() == RESPONSE_LEN,
    {
        let mut out: Vec<u8> = Vec::new();
        out.push(REPORT_ID);
        let frame = self.request.encode();
        let mut i: usize = 0;
        while i < frame.len()
            invariant
                i <= frame@.len(),
                out@ =~= seq![REPORT_ID] + frame@.subrange(0, i as int),
            decreases frame@.len() - i,
        {
            out.push(frame[i]);
            i = i + 1;
        }
        proof {
            assert(frame@.subrange(0, frame@.len() as int) =~= frame@);
            assert(out@ =~= seq![REPORT_ID] + spec_encode(self.spec_request()));
        }
        out
    }

    /// Offers the raw bytes read back by one attempt and decides how the
    /// exchange goes on.
    ///
    /// A matching response ends the exchange at once, with no further
    /// attempt consumed; anything else consumes one attempt, and only
    /// when the whole budget is spent does the exchange fail, with
    /// [`Error::ExchangeFailed`] carrying the attempt count.
    ///
    /// An attempt whose write or read failed outright is offered as an
    /// empty read: transport-level failures are retried inside the
    /// exchange like any other failed attempt.
    pub fn offer(&mut self, bytes: &[u8]) -> (r: ExchangeStep)
        requires
            old(self).inv(),
            old(self).active(),
        ensures
            final(self).inv(),
            final(self).spec_request() == old(self).spec_request(),
            spec_accepts(bytes@, old(self).spec_request()) ==> {
                &&& r matches ExchangeStep::Done(p) && spec_decode(bytes@.drop_first())
                    == Some(p@) && spec_matches(p@, old(self).spec_request())
                &&& final(self).attempts_used() == old(self).attempts_used()
                &&& !final(self).active()
            },
            !spec_accepts(bytes@, old(self).spec_request()) ==> {
                &&& final(self).attempts_used() == old(self).attempts_used() + 1
                &&& (final(self).attempts_used() < MAX_ATTEMPTS ==> r is Retry
                    && final(self).active())
                &&& (final(self).attempts_used() == MAX_ATTEMPTS ==> (r matches ExchangeStep::Failed(e)
                    && e == Error::ExchangeFailed { attempts: MAX_ATTEMPTS }
                    && !final(self).active()))
            },
    {
        match accept_response(bytes, &self.request) {
            Some(p) => {
                self.done = true;
                ExchangeStep::Done(p)
            }
            None => {
                self.attempts = self.attempts + 1;
                if self.attempts < MAX_ATTEMPTS {
                    ExchangeStep::Retry
                } else {
                    ExchangeStep::Failed(Error::ExchangeFailed { attempts: MAX_ATTEMPTS })
                }
            }
        }
    }
}

} // verus!
