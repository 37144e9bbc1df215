use vstd::prelude::*;

use crate::batching::{mail_update_batches, update_batches};
use crate::entities::ApiCallError;
use crate::folders::{kind_code, MailSetKind};
use crate::ids::IdTupleGenerated;

verus! {

/// The body of one request to the unread mail state service.
#[derive(Clone, Debug, PartialEq, Eq)]
pub struct UnreadMailStatePostIn {
    pub format: i64,
    pub unread: bool,
    pub mails: Vec<IdTupleGenerated>,
}

/// The body of one request to the simple move mail service.
#[derive(Clone, Debug, PartialEq, Eq)]
pub struct SimpleMoveMailPostIn {
    pub format: i64,
    pub destination_set_type: i64,
    pub mails: Vec<IdTupleGenerated>,
}

/// What a bulk update does to each mail it names.
#[derive(Clone, Copy, Debug, PartialEq, Eq, Structural)]
pub enum MailUpdateAction {
    /// Mark the mails as unread, or as read.
    SetUnread { unread: bool },
    /// Move the mails to the first folder of this role in their own mailboxes.
    SimpleMove { kind: MailSetKind },
}

/// One request of a bulk update, for the remote service that the action needs.
#[derive(Clone, Debug, PartialEq, Eq)]
pub enum MailUpdateRequest {
    UnreadMailState(UnreadMailStatePostIn),
    SimpleMoveMail(SimpleMoveMailPostIn),
}

/// True when `req` is the request that carries `action` for the mails of `batch`.
pub open spec fn is_request_for(
    req: MailUpdateRequest,
    action: MailUpdateAction,
    batch: Seq<IdTupleGenerated>,
) -> bool {
    match action {
        MailUpdateAction::SetUnread { unread } => match req {
            MailUpdateRequest::UnreadMailState(body) => body.format == 0 && body.unread == unread
                && body.mails@ == batch,
            _ => false,
        },
        MailUpdateAction::SimpleMove { kind } => match req {
            MailUpdateRequest::SimpleMoveMail(body) => body.format == 0
                && body.destination_set_type == kind_code(kind) && body.mails@ == batch,
            _ => false,
        },
    }
}

/// What the caller of a bulk update does next.
#[derive(Debug, PartialEq, Eq)]
pub enum UpdateStep {
    /// Send this request, then report how it went.
    Post(MailUpdateRequest),
    /// The update is over, with this result.
    Finished(Result<(), ApiCallError>),
}

/// A bulk update in progress: the requests still to send, one at a time, in order.
/// The first failure ends it; requests that were sent before it stay applied.
pub struct MailUpdate {
    action: MailUpdateAction,
    pending: Vec<Vec<IdTupleGenerated>>,
    finished: bool,
}

impl MailUpdate {
    pub closed spec fn action(&self) -> MailUpdateAction {
        self.action
    }

    /// The mail keys of the requests not yet handed out, in order.
    pub closed spec fn pending(&self) -> Seq<Seq<IdTupleGenerated>> {
        self.pending@.map_values(|v: Vec<IdTupleGenerated>| v@)
    }

    pub closed spec fn is_finished(&self) -> bool {
        self.finished
    }

    /// An update that applies `action` to `mails`: adjacent repeats are dropped and the
    /// rest is cut into requests of at most `MAX_MAIL_UPDATE_LIMIT` mails.
    pub fn new(action: MailUpdateAction, mails: &Vec<IdTupleGenerated>) -> (r: MailUpdate)
        ensures
            r.action() == action,
            r.pending() == update_batches(mails@),
            !r.is_finished(),
    {
        MailUpdate { action, pending: mail_update_batches(mails), finished: false }
    }

    pub fn finished(&self) -> (r: bool)
        ensures
            r == self.is_finished(),
    {
        self.finished
    }

    fn request(action: MailUpdateAction, mails: Vec<IdTupleGenerated>) -> (r: MailUpdateRequest)
        ensures
            is_request_for(r, action, mails@),
    {
        match action {
            MailUpdateAction::SetUnread { unread } => MailUpdateRequest::UnreadMailState(
                UnreadMailStatePostIn { format: 0, unread, mails },
            ),
            MailUpdateAction::SimpleMove { kind } => MailUpdateRequest::SimpleMoveMail(
                SimpleMoveMailPostIn { format: 0, destination_set_type: kind.code(), mails },
            ),
        }
    }

    /// Takes the outcome of the last request (`Ok(())` before the first one) and says
    /// what to do next: send the next request, or stop with the update's result.
    pub fn advance(&mut self, outcome: Result<(), ApiCallError>) -> (step: UpdateStep)
        requires
            !old(self).is_finished(),
        ensures
            final(self).action() == old(self).action(),
            outcome is Err ==> step == UpdateStep::Finished(outcome) && final(self).is_finished()
                && final(self).pending() == old(self).pending(),
            outcome is Ok && old(self).pending().len() == 0 ==> step == UpdateStep::Finished(
                Ok(()),
            ) && final(self).is_finished() && final(self).pending() == old(self).pending(),
            outcome is Ok && old(self).pending().len() > 0 ==> (match step {
                UpdateStep::Post(req) => is_request_for(
                    req,
                    old(self).action(),
                    old(self).pending()[0],
                ),
                UpdateStep::Finished(_) => false,
            }) && !final(self).is_finished() && final(self).pending() == old(
                self,
            ).pending().drop_first(),
    {
        match outcome {
            Err(e) => {
                self.finished = true;
                UpdateStep::Finished(Err(e))
            },
            Ok(()) => {
                if self.pending.len() == 0 {
                    self.finished = true;
                    UpdateStep::Finished(Ok(()))
                } else {
                    let batch = self.pending.remove(0);
                    proof {
                        assert(self.pending@.map_values(|v: Vec<IdTupleGenerated>| v@) =~= old(
                            self,
                        ).pending@.map_values(|v: Vec<IdTupleGenerated>| v@).drop_first());
                    }
                    UpdateStep::Post(MailUpdate::request(self.action, batch))
                }
            },
        }
    }
}

} // verus!
