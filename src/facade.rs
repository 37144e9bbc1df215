use vstd::prelude::*;

use std::sync::Arc;

use crate::batching::update_batches;
use crate::entities::{ApiCallError, GroupMembership, GroupType, MailBox, User};
use crate::folders::{is_simple_move_target, simple_move_targets, MailFolder, MailSetKind};
use crate::ids::{GeneratedId, IdTupleGenerated};
use crate::services::{MailUpdate, MailUpdateAction};

verus! {

/// The most folders that one mailbox's folder list is read for (a single page).
pub const FOLDER_PAGE_SIZE: usize = 100;

/// The most mails of a folder that are read (a single page, newest first).
pub const MAIL_PAGE_SIZE: usize = 20;

/// The order in which a range of a list is read.
#[derive(Clone, Copy, Debug, PartialEq, Eq, Structural)]
pub enum ListLoadDirection {
    ASC,
    DESC,
}

/// One page of a list to read from the entity store: up to `count` elements after
/// (ascending) or before (descending) the element `start`.
#[derive(Clone, Copy, Debug, PartialEq, Eq, Structural)]
pub struct RangeRequest {
    pub list_id: GeneratedId,
    pub start: GeneratedId,
    pub count: usize,
    pub direction: ListLoadDirection,
}

/// True when `memberships[i]` is the first membership in a mail group.
pub open spec fn is_first_mail_membership(memberships: Seq<GroupMembership>, i: int) -> bool {
    0 <= i < memberships.len() && memberships[i].group_type == GroupType::Mail && forall|j: int|
        0 <= j < i ==> #[trigger] memberships[j].group_type != GroupType::Mail
}

/// True when one of `memberships` is in a mail group.
pub open spec fn has_mail_membership(memberships: Seq<GroupMembership>) -> bool {
    exists|i: int| 0 <= i < memberships.len() && #[trigger] memberships[i].group_type == GroupType::Mail
}

/// High level operations on mail, over an entity store, the signed-in user and a
/// service executor. It keeps no state of its own between calls.
pub struct MailFacade<C, U, S> {
    crypto_entity_client: Arc<C>,
    user_facade: Arc<U>,
    service_executor: Arc<S>,
}

impl<C, U, S> MailFacade<C, U, S> {
    /// The entity store, the user source and the service executor, in that order.
    pub closed spec fn collaborators(&self) -> (Arc<C>, Arc<U>, Arc<S>) {
        (self.crypto_entity_client, self.user_facade, self.service_executor)
    }

    pub fn new(
        crypto_entity_client: Arc<C>,
        user_facade: Arc<U>,
        service_executor: Arc<S>,
    ) -> (r: MailFacade<C, U, S>)
        ensures
            r.collaborators() == (crypto_entity_client, user_facade, service_executor),
    {
        MailFacade { crypto_entity_client, service_executor, user_facade }
    }

    pub fn crypto_entity_client(&self) -> (r: &Arc<C>)
        ensures
            *r == self.collaborators().0,
    {
        &self.crypto_entity_client
    }

    pub fn user_facade(&self) -> (r: &Arc<U>)
        ensures
            *r == self.collaborators().1,
    {
        &self.user_facade
    }

    pub fn service_executor(&self) -> (r: &Arc<S>)
        ensures
            *r == self.collaborators().2,
    {
        &self.service_executor
    }

    /// The group whose mailbox group root leads to the user's mailbox: that of the
    /// user's first mail group membership.
    pub fn mail_group_of(&self, user: &User) -> (r: Result<GeneratedId, ApiCallError>)
        ensures
            has_mail_membership(user.memberships@) <==> r is Ok,
            r matches Ok(group) ==> exists|i: int|
                is_first_mail_membership(user.memberships@, i) && user.memberships@[i].group
                    == group,
            r matches Err(e) ==> e == ApiCallError::MissingMailGroup,
    {
        let mut i: usize = 0;
        while i < user.memberships.len()
            invariant
                i <= user.memberships.len(),
                forall|j: int|
                    0 <= j < i ==> #[trigger] user.memberships@[j].group_type != GroupType::Mail,
            decreases user.memberships.len() - i,
        {
            if user.memberships[i].group_type == GroupType::Mail {
                proof {
                    assert(is_first_mail_membership(user.memberships@, i as int));
                }
                return Ok(user.memberships[i].group);
            }
            i = i + 1;
        }
        Err(ApiCallError::MissingMailGroup)
    }

    /// The page of the mailbox's folder list to read: from the smallest identifier,
    /// ascending, at most `FOLDER_PAGE_SIZE` folders.
    pub fn folders_range(&self, mailbox: &MailBox) -> (r: Result<RangeRequest, ApiCallError>)
        ensures
            mailbox.folders is Some <==> r is Ok,
            r matches Ok(range) ==> range.list_id == mailbox.folders->Some_0.folders
                && range.start == GeneratedId::smallest() && range.count == FOLDER_PAGE_SIZE
                && range.direction == ListLoadDirection::ASC,
            r matches Err(e) ==> e == ApiCallError::MissingFolderList,
    {
        match &mailbox.folders {
            Some(folder_ref) => Ok(
                RangeRequest {
                    list_id: folder_ref.folders,
                    start: GeneratedId::min_id(),
                    count: FOLDER_PAGE_SIZE,
                    direction: ListLoadDirection::ASC,
                },
            ),
            None => Err(ApiCallError::MissingFolderList),
        }
    }

    /// The page of the folder's mail list to read: from the largest identifier,
    /// descending, at most `MAIL_PAGE_SIZE` mails.
    pub fn mails_range(&self, folder: &MailFolder) -> (r: RangeRequest)
        ensures
            r.list_id == folder.mails,
            r.start == GeneratedId::largest(),
            r.count == MAIL_PAGE_SIZE,
            r.direction == ListLoadDirection::DESC,
    {
        RangeRequest {
            list_id: folder.mails,
            start: GeneratedId::max_id(),
            count: MAIL_PAGE_SIZE,
            direction: ListLoadDirection::DESC,
        }
    }

    /// The update that marks `mails` as unread, or as read.
    pub fn unread_status_update(&self, mails: &Vec<IdTupleGenerated>, unread: bool) -> (r:
        MailUpdate)
        ensures
            r.action() == (MailUpdateAction::SetUnread { unread }),
            r.pending() == update_batches(mails@),
            !r.is_finished(),
    {
        MailUpdate::new(MailUpdateAction::SetUnread { unread }, mails)
    }

    /// The update that moves `mails` to the first folder of role `folder_type` in their
    /// own mailboxes. A role that the simple move service does not accept fails here,
    /// before any request exists.
    pub fn simple_move_update(&self, mails: &Vec<IdTupleGenerated>, folder_type: MailSetKind) -> (r:
        Result<MailUpdate, ApiCallError>)
        ensures
            simple_move_targets().contains(folder_type) <==> r is Ok,
            r matches Ok(update) ==> update.action() == (MailUpdateAction::SimpleMove {
                kind: folder_type,
            }) && update.pending() == update_batches(mails@) && !update.is_finished(),
            r matches Err(e) ==> e == (ApiCallError::UnsupportedMoveTarget { kind: folder_type }),
    {
        if !is_simple_move_target(folder_type) {
            return Err(ApiCallError::UnsupportedMoveTarget { kind: folder_type });
        }
        Ok(MailUpdate::new(MailUpdateAction::SimpleMove { kind: folder_type }, mails))
    }

    /// The update that moves `mails` to the trash folders of their own mailboxes.
    pub fn trash_update(&self, mails: &Vec<IdTupleGenerated>) -> (r: MailUpdate)
        ensures
            r.action() == (MailUpdateAction::SimpleMove { kind: MailSetKind::Trash }),
            r.pending() == update_batches(mails@),
            !r.is_finished(),
    {
        proof {
            assert(simple_move_targets()[0] == MailSetKind::Trash);
        }
        self.simple_move_update(mails, MailSetKind::Trash).unwrap()
    }
}

} // verus!
