use hyperactor_mailbox::error::{MailboxError, MailboxErrorKind};
use hyperactor_mailbox::reference::{ActorId, ProcId, WorldId};

#[test]
fn test_error() {
    let err = MailboxError::new(
        ActorId(ProcId(WorldId("myworld".into()), 2), "myactor".into(), 5),
        MailboxErrorKind::Closed,
    );
    assert_eq!(err.to_string(), "myworld[2].myactor[5]: mailbox closed");
}
