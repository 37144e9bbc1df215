pub mod batching;
pub mod entities;
pub mod facade;
pub mod folders;
pub mod ids;
pub mod services;

pub use entities::{ApiCallError, Mail, MailBox, MailboxGroupRoot};
pub use facade::{ListLoadDirection, MailFacade, RangeRequest};
pub use folders::{FolderSystem, MailFolder, MailSetKind};
pub use ids::{GeneratedId, IdTupleGenerated};
pub use services::{MailUpdate, SimpleMoveMailPostIn, UnreadMailStatePostIn, UpdateStep};
