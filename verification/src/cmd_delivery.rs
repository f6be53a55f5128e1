//! Command delivery. The pusher walks the pending outbox rows in
//! order: it looks up each row's device, has the envelope built and
//! published, counts the delivery and marks the row delivered. A row
//! whose device is missing, whose envelope cannot be built or whose
//! publish fails is skipped and retried on a later pass. The ack
//! fan-in checks each acknowledgement against the key it came on.
//!
//! The work itself (database, Zenoh) is done by the serving layer,
//! which performs each action `Pusher::step` hands out and reports
//! what happened as the next event.

use vstd::prelude::*;

use crate::db::cmd_outbox::CmdRow;
use crate::error::{GatewayError, GatewayErrorView};
use crate::metrics::{bumped, Metrics};
use crate::text::{push_str, str_eq};

verus! {

/// Where the pusher is in its pass.
#[derive(PartialEq, Eq, Structural)]
pub enum PushPhase {
    Listing,
    Looking,
    Building,
    Publishing,
    Marking,
    Finished,
}

/// What the serving layer reports after performing an action.
pub enum PushEvent {
    /// The pending, unexpired rows in id order, or the listing error.
    Listed(Result<Vec<CmdRow>, GatewayError>),
    /// Whether the current row's device (and its org) was found.
    DeviceLookup(bool),
    /// Whether the envelope could be built: a valid zid, a valid cmd id,
    /// and an encodable body.
    Envelope(bool),
    /// Whether the publish succeeded.
    Published(bool),
    /// The delivery mark was written (its own failure is ignored).
    Marked,
    /// A blocking database task could not be joined, with the reason.
    JoinFailed(String),
}

/// What the serving layer is asked to do next.
pub enum PushAction {
    ListPending,
    LookupDevice { device_id: i64 },
    BuildEnvelope { row: usize },
    Publish { row: usize },
    MarkDelivered { cmd_id: String },
    Finish(Result<(), GatewayError>),
}

/// One pass of the pusher: the rows listed and the one being handled.
pub struct Pusher {
    rows: Vec<CmdRow>,
    next: usize,
    phase: PushPhase,
}

impl Pusher {
    /// The rows of this pass.
    pub closed spec fn rows(&self) -> Seq<CmdRow> {
        self.rows@
    }

    /// Index of the row being handled.
    pub closed spec fn next(&self) -> nat {
        self.next as nat
    }

    /// Where the pass is.
    pub closed spec fn phase(&self) -> PushPhase {
        self.phase
    }

    /// The row index is in range while a row is being handled.
    pub open spec fn wf(&self) -> bool {
        &&& (self.phase() == PushPhase::Listing ==> self.rows().len() == 0 && self.next() == 0)
        &&& (self.phase() != PushPhase::Listing && self.phase() != PushPhase::Finished ==> self.next()
            < self.rows().len())
        &&& self.next() <= self.rows().len()
    }

    /// The events the pass can take in its current phase.
    pub open spec fn expects(&self, e: PushEvent) -> bool {
        match (self.phase(), e) {
            (PushPhase::Finished, _) => false,
            (PushPhase::Listing, PushEvent::Listed(_)) => true,
            (PushPhase::Looking, PushEvent::DeviceLookup(_)) => true,
            (PushPhase::Building, PushEvent::Envelope(_)) => true,
            (PushPhase::Publishing, PushEvent::Published(_)) => true,
            (PushPhase::Marking, PushEvent::Marked) => true,
            (PushPhase::Listing, PushEvent::JoinFailed(_)) => true,
            (PushPhase::Looking, PushEvent::JoinFailed(_)) => true,
            (PushPhase::Marking, PushEvent::JoinFailed(_)) => true,
            _ => false,
        }
    }

    /// Whether the pass can take `e` now.
    pub fn accepts(&self, e: &PushEvent) -> (r: bool)
        ensures
            r == self.expects(*e),
    {
        match (&self.phase, e) {
            (PushPhase::Finished, _) => false,
            (PushPhase::Listing, PushEvent::Listed(_)) => true,
            (PushPhase::Looking, PushEvent::DeviceLookup(_)) => true,
            (PushPhase::Building, PushEvent::Envelope(_)) => true,
            (PushPhase::Publishing, PushEvent::Published(_)) => true,
            (PushPhase::Marking, PushEvent::Marked) => true,
            (PushPhase::Listing, PushEvent::JoinFailed(_)) => true,
            (PushPhase::Looking, PushEvent::JoinFailed(_)) => true,
            (PushPhase::Marking, PushEvent::JoinFailed(_)) => true,
            _ => false,
        }
    }

    /// The rows of this pass.
    pub fn row(&self, i: usize) -> (r: &CmdRow)
        requires
            i < self.rows().len(),
        ensures
            *r == self.rows()[i as int],
    {
        &self.rows[i]
    }

    /// A new pass, which starts by listing the pending rows.
    pub fn new() -> (r: (Pusher, PushAction))
        ensures
            r.0.wf(),
            r.0.phase() == PushPhase::Listing,
            r.1 is ListPending,
    {
        (Pusher { rows: Vec::new(), next: 0, phase: PushPhase::Listing }, PushAction::ListPending)
    }

    /// Moving on from row `old.next()`: the next row's device is looked
    /// up, or the pass ends successfully after the last row.
    pub open spec fn moved_on(old: Pusher, new: Pusher, a: PushAction) -> bool {
        &&& new.rows() == old.rows()
        &&& new.next() == old.next() + 1
        &&& if new.next() < new.rows().len() {
            &&& new.phase() == PushPhase::Looking
            &&& (a matches PushAction::LookupDevice { device_id } && device_id == new.rows()[new.next() as int].device_id)
        } else {
            &&& new.phase() == PushPhase::Finished
            &&& (a matches PushAction::Finish(res) && res is Ok)
        }
    }

    fn move_on(&mut self) -> (a: PushAction)
        requires
            old(self).wf(),
            old(self).phase() != PushPhase::Listing,
            old(self).phase() != PushPhase::Finished,
        ensures
            final(self).wf(),
            Pusher::moved_on(*old(self), *final(self), a),
    {
        let n = self.rows.len();
        self.next = self.next + 1;
        if self.next < n {
            self.phase = PushPhase::Looking;
            PushAction::LookupDevice { device_id: self.rows[self.next].device_id }
        } else {
            self.phase = PushPhase::Finished;
            PushAction::Finish(Ok(()))
        }
    }

    /// Takes the outcome of the last action and hands out the next
    /// one. A delivery is counted exactly when a publish succeeded, and
    /// the row marked delivered is the one just published.
    pub fn step(&mut self, event: PushEvent, metrics: &mut Metrics) -> (a: PushAction)
        requires
            old(self).wf(),
            old(self).expects(event),
            old(metrics).wf(),
        ensures
            final(self).wf(),
            final(metrics).wf(),
            (event matches PushEvent::Published(true)) ==> final(metrics).cmds() == bumped(
                old(metrics).cmds(),
                seq!["delivered"@],
                1,
            ) && final(metrics).same_except(old(metrics), "cmds"@),
            !(event matches PushEvent::Published(true)) ==> *final(metrics) == *old(metrics),
            match event {
                PushEvent::Listed(Err(e)) => {
                    &&& final(self).phase() == PushPhase::Finished
                    &&& (a matches PushAction::Finish(Err(f)) && f@ == e@)
                },
                PushEvent::Listed(Ok(rows)) => {
                    &&& final(self).rows() == rows@
                    &&& final(self).next() == 0
                    &&& rows@.len() == 0 ==> final(self).phase() == PushPhase::Finished && (a matches PushAction::Finish(res) && res is Ok)
                    &&& rows@.len() > 0 ==> final(self).phase() == PushPhase::Looking && (a matches PushAction::LookupDevice { device_id } && device_id == rows@[0].device_id)
                },
                PushEvent::DeviceLookup(false) => Pusher::moved_on(*old(self), *final(self), a),
                PushEvent::DeviceLookup(true) => {
                    &&& final(self).rows() == old(self).rows()
                    &&& final(self).next() == old(self).next()
                    &&& final(self).phase() == PushPhase::Building
                    &&& (a matches PushAction::BuildEnvelope { row } && row == old(self).next())
                },
                PushEvent::Envelope(false) => Pusher::moved_on(*old(self), *final(self), a),
                PushEvent::Envelope(true) => {
                    &&& final(self).rows() == old(self).rows()
                    &&& final(self).next() == old(self).next()
                    &&& final(self).phase() == PushPhase::Publishing
                    &&& (a matches PushAction::Publish { row } && row == old(self).next())
                },
                PushEvent::Published(false) => Pusher::moved_on(*old(self), *final(self), a),
                PushEvent::Published(true) => {
                    &&& final(self).rows() == old(self).rows()
                    &&& final(self).next() == old(self).next()
                    &&& final(self).phase() == PushPhase::Marking
                    &&& (a matches PushAction::MarkDelivered { cmd_id } && cmd_id@ == old(self).rows()[old(self).next() as int].cmd_id@)
                },
                PushEvent::Marked => Pusher::moved_on(*old(self), *final(self), a),
                PushEvent::JoinFailed(m) => {
                    &&& final(self).phase() == PushPhase::Finished
                    &&& (a matches PushAction::Finish(Err(f)) && f@ == GatewayErrorView::Config("blocking task join: "@ + m@))
                },
            },
    {
        match event {
            PushEvent::Listed(Err(e)) => {
                self.phase = PushPhase::Finished;
                PushAction::Finish(Err(e))
            },
            PushEvent::Listed(Ok(rows)) => {
                self.rows = rows;
                self.next = 0;
                if self.rows.len() == 0 {
                    self.phase = PushPhase::Finished;
                    PushAction::Finish(Ok(()))
                } else {
                    self.phase = PushPhase::Looking;
                    PushAction::LookupDevice { device_id: self.rows[0].device_id }
                }
            },
            PushEvent::DeviceLookup(found) => {
                if found {
                    self.phase = PushPhase::Building;
                    PushAction::BuildEnvelope { row: self.next }
                } else {
                    self.move_on()
                }
            },
            PushEvent::Envelope(built) => {
                if built {
                    self.phase = PushPhase::Publishing;
                    PushAction::Publish { row: self.next }
                } else {
                    self.move_on()
                }
            },
            PushEvent::Published(ok) => {
                if ok {
                    metrics.inc_cmd("delivered");
                    self.phase = PushPhase::Marking;
                    PushAction::MarkDelivered { cmd_id: self.rows[self.next].cmd_id.clone() }
                } else {
                    self.move_on()
                }
            },
            PushEvent::Marked => self.move_on(),
            PushEvent::JoinFailed(m) => {
                self.phase = PushPhase::Finished;
                let mut msg = "blocking task join: ".to_owned();
                push_str(&mut msg, m.as_str());
                PushAction::Finish(Err(GatewayError::Config(msg)))
            },
        }
    }
}

/// The fields of an acknowledgement body the gateway records.
pub struct AckBody {
    pub cmd_id: String,
    pub result: String,
    pub detail: Option<String>,
}

/// The verdict on an acknowledgement that arrived on key expression
/// `ke`, whose key names `key_cmd_id` (`None` when the key does not
/// parse) and whose body decoded to `body` (or the decoder's error).
pub open spec fn ack_verdict(ke: Seq<char>, key_cmd_id: Option<Seq<char>>, body: Result<Seq<char>, Seq<char>>) -> Result<
    (),
    GatewayErrorView,
> {
    match key_cmd_id {
        None => Err(GatewayErrorView::BadRequest("unparsable cmd-ack keyexpr: "@ + ke)),
        Some(k) => match body {
            Err(e) => Err(GatewayErrorView::BadRequest("cmd-ack envelope: "@ + e)),
            Ok(c) => if c != k {
                Err(GatewayErrorView::BadRequest("cmd-ack body cmd_id "@ + c + " != keyexpr "@ + k))
            } else {
                Ok(())
            },
        },
    }
}

/// Checks an acknowledgement against its key: the key must parse, the
/// body must decode, and both must name the same command. The body is
/// handed back for recording.
pub fn check_ack(ke: &str, key_cmd_id: Option<String>, body: Result<AckBody, String>) -> (r: Result<AckBody, GatewayError>)
    ensures
        match ack_verdict(
            ke@,
            crate::text::opt_chars(key_cmd_id),
            match body {
                Ok(b) => Ok(b.cmd_id@),
                Err(e) => Err(e@),
            },
        ) {
            Err(v) => r matches Err(f) && f@ == v,
            Ok(()) => (r matches Ok(b) && body matches Ok(c) && b == c),
        },
{
    let key = match key_cmd_id {
        None => {
            let mut m = "unparsable cmd-ack keyexpr: ".to_owned();
            push_str(&mut m, ke);
            return Err(GatewayError::BadRequest(m));
        },
        Some(k) => k,
    };
    match body {
        Err(e) => {
            let mut m = "cmd-ack envelope: ".to_owned();
            push_str(&mut m, e.as_str());
            Err(GatewayError::BadRequest(m))
        },
        Ok(b) => {
            if !str_eq(b.cmd_id.as_str(), key.as_str()) {
                let mut m = "cmd-ack body cmd_id ".to_owned();
                push_str(&mut m, b.cmd_id.as_str());
                push_str(&mut m, " != keyexpr ");
                push_str(&mut m, key.as_str());
                return Err(GatewayError::BadRequest(m));
            }
            Ok(b)
        },
    }
}

} // verus!
