use jni_chat_listener::error::BridgeLayerError;
use jni_chat_listener::foreign::ForeignObject;
use jni_chat_listener::foreign::GlobalRef;
use jni_chat_listener::foreign::RuntimeHandle;
use jni_chat_listener::foreign::LISTENER_CLASS;
use jni_chat_listener::listener::JniChatListener;

fn runtime(raw: u64) -> RuntimeHandle {
    RuntimeHandle::from_raw(raw).expect("not null")
}

fn listener_object(identity: u64) -> ForeignObject {
    ForeignObject { identity, class_name: String::from(LISTENER_CLASS) }
}

#[test]
fn expected_class_name_is_the_make_chat_listener_contract() {
    assert_eq!(LISTENER_CLASS, "org.signal.libsignal.net.internal.MakeChatListener");
}

#[test]
fn new_accepts_object_of_expected_type() {
    let made = JniChatListener::new(runtime(0x1000), &listener_object(7));
    let adapter = made.expect("correctly typed");
    assert_eq!(adapter.target(), 7);
    assert_eq!(adapter.vm().raw(), 0x1000);
}

#[test]
fn new_rejects_object_of_other_type() {
    let object = ForeignObject { identity: 9, class_name: String::from("java.lang.Object") };
    let made = JniChatListener::new(runtime(1), &object);
    assert_eq!(made, Err(BridgeLayerError::TypeMismatch { actual: String::from("java.lang.Object") }));
}

#[test]
fn new_rejects_near_misses_of_the_type_name() {
    let names = [
        "",
        "org.signal.libsignal.net.internal.MakeChatListener ",
        "org.signal.libsignal.net.internal.MakeChatListene",
        "org.signal.libsignal.net.internal.makechatlistener",
        "org/signal/libsignal/net/internal/MakeChatListener",
        "MakeChatListener",
    ];
    for name in names {
        let object = ForeignObject { identity: 3, class_name: String::from(name) };
        assert_eq!(
            JniChatListener::new(runtime(1), &object),
            Err(BridgeLayerError::TypeMismatch { actual: String::from(name) })
        );
    }
}

#[test]
fn type_mismatch_is_not_fatal() {
    assert!(!BridgeLayerError::TypeMismatch { actual: String::new() }.is_fatal());
    assert!(BridgeLayerError::Attach(String::from("gone")).is_fatal());
    assert!(!BridgeLayerError::Conversion(String::new()).is_fatal());
    assert!(!BridgeLayerError::Invocation(String::new()).is_fatal());
    assert!(!BridgeLayerError::Translation(String::new()).is_fatal());
}

#[test]
fn clone_refers_to_same_object_and_runtime() {
    let adapter = JniChatListener::new(runtime(0xfeed), &listener_object(42)).expect("correctly typed");
    let copy = adapter.clone();
    assert_eq!(copy, adapter);
    assert_eq!(copy.target(), 42);
    assert_eq!(copy.vm().raw(), 0xfeed);
    assert_eq!(copy.vm(), adapter.vm());
}

#[test]
fn make_listener_is_a_clone() {
    let adapter = JniChatListener::new(runtime(5), &listener_object(11)).expect("correctly typed");
    let made = adapter.make_listener();
    assert_eq!(made, adapter);
    assert_eq!(made.target(), 11);
}

#[test]
fn clones_then_drops_leave_one_holder_each() {
    let adapter = JniChatListener::new(runtime(5), &listener_object(11)).expect("correctly typed");
    let mut holders = vec![adapter];
    for _ in 0..5 {
        let copy = holders[0].clone();
        holders.push(copy);
    }
    assert_eq!(holders.iter().filter(|h| h.target() == 11).count(), 6);
    while let Some(dropped) = holders.pop() {
        assert_eq!(dropped.target(), 11);
        assert_eq!(holders.iter().filter(|h| h.target() == 11).count(), holders.len());
    }
    assert!(holders.is_empty());
}

#[test]
fn global_ref_keeps_the_identity_of_its_object() {
    let reference = GlobalRef::acquire(&listener_object(77));
    assert_eq!(reference.identity(), 77);
    let second = reference.clone();
    assert_eq!(second.identity(), 77);
    assert_eq!(second, reference);
}

#[test]
fn runtime_handle_is_never_null() {
    assert_eq!(RuntimeHandle::from_raw(0), None);
    assert_eq!(RuntimeHandle::from_raw(1).map(|h| h.raw()), Some(1));
    assert_eq!(RuntimeHandle::from_raw(u64::MAX).map(|h| h.raw()), Some(u64::MAX));
}
