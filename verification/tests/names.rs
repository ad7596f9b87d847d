use hyperactor_mailbox::data::{Named, Text};

#[derive(Clone, Debug)]
struct TestMessage;

impl Named for TestMessage {
    fn typename_spec() -> Text {
        unreachable!()
    }

    fn typename() -> &'static str {
        "hyperactor::mailbox::tests::TestMessage"
    }
}

#[derive(Clone, Debug)]
struct TestMessage2;

impl Named for TestMessage2 {
    fn typename_spec() -> Text {
        unreachable!()
    }

    fn typename() -> &'static str {
        "some::custom::path"
    }
}

#[test]
fn test_remote_message_macros() {
    assert_eq!(
        TestMessage::typename(),
        "hyperactor::mailbox::tests::TestMessage"
    );
    assert_eq!(TestMessage2::typename(), "some::custom::path");
}

#[test]
fn names_of_wire_types() {
    assert_eq!(<u64 as Named>::typename(), "u64");
    assert_eq!(<i64 as Named>::typename(), "i64");
    assert_eq!(<hyperactor_mailbox::accum::Max<i64> as Named>::typename(), "i64");
}
