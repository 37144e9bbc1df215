use vstd::prelude::*;

use crate::ids::{GeneratedId, IdTupleGenerated};

verus! {

/// The role of a mail folder.
#[derive(Clone, Copy, Debug, PartialEq, Eq, Structural)]
pub enum MailSetKind {
    Custom,
    Inbox,
    Sent,
    Trash,
    Archive,
    Spam,
    Draft,
    All,
    Label,
}

/// The number by which the remote service knows each folder role.
pub open spec fn kind_code(kind: MailSetKind) -> i64 {
    match kind {
        MailSetKind::Custom => 0,
        MailSetKind::Inbox => 1,
        MailSetKind::Sent => 2,
        MailSetKind::Trash => 3,
        MailSetKind::Archive => 4,
        MailSetKind::Spam => 5,
        MailSetKind::Draft => 6,
        MailSetKind::All => 7,
        MailSetKind::Label => 8,
    }
}

impl MailSetKind {
    pub fn code(&self) -> (r: i64)
        ensures
            r == kind_code(*self),
    {
        match self {
            MailSetKind::Custom => 0,
            MailSetKind::Inbox => 1,
            MailSetKind::Sent => 2,
            MailSetKind::Trash => 3,
            MailSetKind::Archive => 4,
            MailSetKind::Spam => 5,
            MailSetKind::Draft => 6,
            MailSetKind::All => 7,
            MailSetKind::Label => 8,
        }
    }
}

/// The folder roles that the simple move service accepts as a destination. It must
/// follow what the server accepts.
pub open spec fn simple_move_targets() -> Seq<MailSetKind> {
    seq![MailSetKind::Trash]
}

pub fn allowed_simple_move_mail_targets() -> (r: Vec<MailSetKind>)
    ensures
        r@ == simple_move_targets(),
{
    let r = vec![MailSetKind::Trash];
    assert(r@ =~= simple_move_targets());
    r
}

/// Whether the simple move service accepts `kind` as a destination.
pub fn is_simple_move_target(kind: MailSetKind) -> (r: bool)
    ensures
        r == simple_move_targets().contains(kind),
{
    let targets = allowed_simple_move_mail_targets();
    let mut i: usize = 0;
    while i < targets.len()
        invariant
            i <= targets.len(),
            targets@ == simple_move_targets(),
            forall|j: int| 0 <= j < i ==> targets@[j] != kind,
        decreases targets.len() - i,
    {
        if targets[i] == kind {
            return true;
        }
        i = i + 1;
    }
    false
}

/// A mail folder.
#[derive(Clone, Copy, Debug, PartialEq, Eq, Structural)]
pub struct MailFolder {
    pub id: IdTupleGenerated,
    /// The list that holds the folder's mails.
    pub mails: GeneratedId,
    pub folder_type: MailSetKind,
}

/// An index over the folders of one mailbox.
pub struct FolderSystem {
    folders: Vec<MailFolder>,
}

impl View for FolderSystem {
    type V = Seq<MailFolder>;

    closed spec fn view(&self) -> Seq<MailFolder> {
        self.folders@
    }
}

/// The position of the first folder of role `kind` in `folders`, if any.
pub open spec fn first_of_kind(folders: Seq<MailFolder>, kind: MailSetKind) -> Option<int>
    decreases folders.len(),
{
    if folders.len() == 0 {
        None
    } else if folders[0].folder_type == kind {
        Some(0)
    } else {
        match first_of_kind(folders.drop_first(), kind) {
            Some(i) => Some(i + 1),
            None => None,
        }
    }
}

pub proof fn lemma_first_of_kind(folders: Seq<MailFolder>, kind: MailSetKind)
    ensures
        match first_of_kind(folders, kind) {
            Some(i) => 0 <= i < folders.len() && folders[i].folder_type == kind && forall|j: int|
                0 <= j < i ==> #[trigger] folders[j].folder_type != kind,
            None => forall|j: int|
                0 <= j < folders.len() ==> #[trigger] folders[j].folder_type != kind,
        },
    decreases folders.len(),
{
    if folders.len() > 0 {
        let rest = folders.drop_first();
        lemma_first_of_kind(rest, kind);
        assert forall|j: int| 0 < j < folders.len() implies #[trigger] folders[j] == rest[j - 1] by {}
    }
}

impl FolderSystem {
    pub fn new(folders: Vec<MailFolder>) -> (r: FolderSystem)
        ensures
            r@ == folders@,
    {
        FolderSystem { folders }
    }

    pub fn folders(&self) -> (r: &Vec<MailFolder>)
        ensures
            r@ == self@,
    {
        &self.folders
    }

    /// The first folder of role `kind`, if the mailbox has one.
    pub fn system_folder_by_type(&self, kind: MailSetKind) -> (r: Option<MailFolder>)
        ensures
            r == (match first_of_kind(self@, kind) {
                Some(i) => Some(self@[i]),
                None => None,
            }),
    {
        let mut i: usize = 0;
        while i < self.folders.len()
            invariant
                i <= self.folders.len(),
                forall|j: int| 0 <= j < i ==> #[trigger] self@[j].folder_type != kind,
            decreases self.folders.len() - i,
        {
            if self.folders[i].folder_type == kind {
                proof {
                    lemma_first_of_kind(self@, kind);
                    let found = first_of_kind(self@, kind);
                    assert(found == Some(i as int)) by {
                        assert(self@[i as int].folder_type == kind);
                    }
                }
                return Some(self.folders[i]);
            }
            i = i + 1;
        }
        proof {
            lemma_first_of_kind(self@, kind);
        }
        None
    }
}

} // verus!
