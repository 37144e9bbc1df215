use vstd::prelude::*;

use crate::folders::MailSetKind;
use crate::ids::{GeneratedId, IdTupleGenerated};

verus! {

/// The kind of a group that a user belongs to.
#[derive(Clone, Copy, Debug, PartialEq, Eq, Structural)]
pub enum GroupType {
    User,
    Admin,
    MailingList,
    Customer,
    External,
    Mail,
    Contact,
    File,
    LocalAdmin,
    Calendar,
    Template,
    ContactList,
}

/// A user's membership in one group.
#[derive(Clone, Copy, Debug, PartialEq, Eq, Structural)]
pub struct GroupMembership {
    pub group: GeneratedId,
    pub group_type: GroupType,
}

/// The signed-in user, as far as mail retrieval reads it.
#[derive(Clone, Debug, PartialEq, Eq)]
pub struct User {
    pub memberships: Vec<GroupMembership>,
}

/// The entity of a mail group that points at its mailbox.
#[derive(Clone, Copy, Debug, PartialEq, Eq, Structural)]
pub struct MailboxGroupRoot {
    pub id: GeneratedId,
    pub mailbox: GeneratedId,
}

/// The reference from a mailbox to the list of its folders.
#[derive(Clone, Copy, Debug, PartialEq, Eq, Structural)]
pub struct MailFolderRef {
    pub folders: GeneratedId,
}

/// The root container of a user's mail. A mailbox made before folder lists existed
/// has no folder list reference.
#[derive(Clone, Copy, Debug, PartialEq, Eq, Structural)]
pub struct MailBox {
    pub id: GeneratedId,
    pub folders: Option<MailFolderRef>,
}

/// One mail, as the entity store hands it out.
#[derive(Clone, Copy, Debug, PartialEq, Eq, Structural)]
pub struct Mail {
    pub id: IdTupleGenerated,
    pub unread: bool,
}

/// Why an operation of the mail facade failed.
#[derive(Clone, Debug, PartialEq, Eq)]
pub enum ApiCallError {
    /// The current user is a member of no mail group.
    MissingMailGroup,
    /// The mailbox has no reference to a folder list.
    MissingFolderList,
    /// The simple move service does not accept this folder role as a destination.
    UnsupportedMoveTarget { kind: MailSetKind },
    /// A failure that the entity store or the remote service reported, passed on as it came.
    ServerResponse { status: u16, message: String },
}

} // verus!
