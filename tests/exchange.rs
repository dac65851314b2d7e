use hyper_line::attachment::{AttachmentKey, ClientAddr};
use hyper_line::exchange::Exchange;
use hyper_line::server::AppContext;
use hyper_line::status::Status;
use std::sync::atomic::{AtomicUsize, Ordering};
use std::sync::Arc;

const TEST_ATTACHMENT: AttachmentKey = AttachmentKey(1);

#[test]
fn test_exchange_attachments() {
    let mut ex: Exchange<usize, usize> = Exchange::new();
    ex.add_attachment::<String>(TEST_ATTACHMENT, String::from("This is a test value for the test attachment."));
    assert_eq!(ex.attachments().len(), 1);

    match ex.attachment::<String>(TEST_ATTACHMENT) {
        None => assert!(false),
        Some(test_attachment) => {
            assert_eq!(test_attachment, "This is a test value for the test attachment.");
        }
    }
}

#[test]
fn test_custom_listener() {
    let mut ex: Exchange<usize, usize> = Exchange::new();
    ex.add_custom_listener(|_ex| {
        println!("This is a custom listener executing...");
    });

    match ex.execute_custom_listeners() {
        Ok(_) => assert!(true),
        Err(_) => assert!(false, "Should execute custom listeners the first time."),
    }

    match ex.execute_custom_listeners() {
        Ok(_) => assert!(false, "Should NOT execute custom listeners the second time."),
        Err(_) => assert!(true),
    }
}

#[test]
fn attachment_read_as_other_type_is_absent() {
    let mut ex: Exchange<usize, usize> = Exchange::new();
    ex.add_attachment::<String>(AttachmentKey(7), String::from("seven"));
    assert!(ex.attachment::<u64>(AttachmentKey(7)).is_none());
    assert!(ex.attachment::<Vec<u8>>(AttachmentKey(7)).is_none());
    assert!(ex.attachment::<String>(AttachmentKey(8)).is_none());
    assert_eq!(ex.attachment::<String>(AttachmentKey(7)).unwrap(), "seven");
}

#[test]
fn attachments_of_two_types_share_a_tag() {
    let mut ex: Exchange<usize, usize> = Exchange::new();
    ex.add_attachment::<u64>(AttachmentKey(3), 42);
    ex.add_attachment::<bool>(AttachmentKey(3), true);
    assert_eq!(*ex.attachment::<u64>(AttachmentKey(3)).unwrap(), 42);
    assert_eq!(*ex.attachment::<bool>(AttachmentKey(3)).unwrap(), true);
    assert_eq!(ex.attachments().len(), 2);
}

#[test]
fn attachment_is_replaced_and_mutated() {
    let mut ex: Exchange<usize, usize> = Exchange::new();
    ex.add_attachment::<u64>(AttachmentKey(4), 1);
    ex.add_attachment::<u64>(AttachmentKey(4), 2);
    assert_eq!(ex.attachments().len(), 1);
    assert_eq!(*ex.attachment::<u64>(AttachmentKey(4)).unwrap(), 2);
    *ex.attachment_mut::<u64>(AttachmentKey(4)).unwrap() += 5;
    assert_eq!(*ex.attachment::<u64>(AttachmentKey(4)).unwrap(), 7);
    assert!(ex.attachment_mut::<String>(AttachmentKey(4)).is_none());
}

#[test]
fn client_address_attachment() {
    let mut ex: Exchange<usize, usize> = Exchange::new();
    let addr = ClientAddr { ip: String::from("192.0.2.5"), port: 5000 };
    ex.add_attachment::<ClientAddr>(AttachmentKey(AttachmentKey::CLIENT_SRC), addr);
    let got = ex.attachment::<ClientAddr>(AttachmentKey(AttachmentKey::CLIENT_SRC)).unwrap();
    assert_eq!(got.ip, "192.0.2.5");
    assert_eq!(got.port, 5000);
}

#[test]
fn new_exchange_has_code_200_and_no_flags() {
    let ex: Exchange<usize, usize> = Exchange::new();
    assert_eq!(ex.status().0, 200);
    assert_eq!(ex.response_code(), 200);
    assert!(ex.status().all_flags_clear(Status(Status::LIFECYCLE_FLAGS)));
}

#[test]
fn input_is_consumed_once_and_listeners_fire_first() {
    let fired = Arc::new(AtomicUsize::new(0));
    let seen = fired.clone();
    let mut ex: Exchange<Vec<u8>, Vec<u8>> = Exchange::new();
    ex.add_input_listener(move |state| {
        assert!(state.status().any_flags(Status(Status::INPUT_LISTENERS_COMPLETE)));
        seen.fetch_add(1, Ordering::SeqCst);
    });
    ex.save_input(b"hello".to_vec());
    assert_eq!(ex.input().unwrap(), &b"hello".to_vec());
    assert_eq!(ex.consume_request().unwrap(), b"hello".to_vec());
    assert_eq!(fired.load(Ordering::SeqCst), 1);
    assert!(!ex.status().any_flags_clear(Status(Status::INPUT_CONSUMED)));
    assert!(ex.input().is_err());
    assert!(ex.consume_request().is_err());
    assert_eq!(fired.load(Ordering::SeqCst), 1);
    assert!(ex.execute_input_listeners().is_err());
}

#[test]
fn output_is_consumed_once_and_keeps_the_code() {
    let fired = Arc::new(AtomicUsize::new(0));
    let seen = fired.clone();
    let mut ex: Exchange<Vec<u8>, Vec<u8>> = Exchange::new();
    ex.add_output_listener(move |_| {
        seen.fetch_add(1, Ordering::SeqCst);
    });
    ex.set_status_code(201);
    ex.save_output(b"done".to_vec());
    assert_eq!(ex.consume_output().unwrap(), b"done".to_vec());
    assert_eq!(ex.response_code(), 201);
    assert_eq!(fired.load(Ordering::SeqCst), 1);
    assert!(ex.consume_output().is_err());
    assert_eq!(fired.load(Ordering::SeqCst), 1);
    assert!(!ex.status().any_flags_clear(Status(Status::OUTPUT_CONSUMED | Status::OUTPUT_LISTENERS_COMPLETE)));
}

#[test]
fn listeners_run_in_insertion_order() {
    let order = Arc::new(AtomicUsize::new(0));
    let a = order.clone();
    let b = order.clone();
    let mut ex: Exchange<usize, usize> = Exchange::new();
    ex.add_custom_listener(move |_| {
        assert_eq!(a.fetch_add(1, Ordering::SeqCst), 0);
    });
    ex.add_custom_listener(move |_| {
        assert_eq!(b.fetch_add(1, Ordering::SeqCst), 1);
    });
    assert!(ex.execute_custom_listeners().is_ok());
    assert_eq!(order.load(Ordering::SeqCst), 2);
}

#[test]
fn setting_the_code_keeps_the_flags() {
    let mut ex: Exchange<usize, usize> = Exchange::new();
    ex.save_input(5);
    assert_eq!(ex.consume_request().unwrap(), 5);
    ex.set_status_code(1023);
    assert_eq!(ex.response_code(), 1023);
    assert!(!ex.status().any_flags_clear(Status(Status::INPUT_CONSUMED | Status::INPUT_LISTENERS_COMPLETE)));
    ex.set_status_code(101);
    assert_eq!(ex.response_code(), 101);
    assert_eq!(ex.status().0, 101 | Status::INPUT_CONSUMED | Status::INPUT_LISTENERS_COMPLETE);
}

#[test]
fn app_context_attachment() {
    let mut ex: Exchange<usize, usize> = Exchange::new();
    let context = Arc::new(AppContext {
        worker_threads: 2,
        worker_thread_name: String::from("WT"),
        port: 8080,
        config_dir: String::from("./config.json"),
        tls_enabled: false,
        tls_server_config: None,
        tls_client_config: None,
    });
    ex.add_attachment::<Arc<AppContext>>(AttachmentKey(AttachmentKey::APP_CONTEXT), context.clone());
    let got = ex.attachment::<Arc<AppContext>>(AttachmentKey(AttachmentKey::APP_CONTEXT)).unwrap();
    assert!(Arc::ptr_eq(got, &context));
    assert_eq!(got.port, 8080);
    assert!(ex.attachment::<String>(AttachmentKey(AttachmentKey::APP_CONTEXT)).is_none());
}

#[test]
fn custom_listeners_see_their_flag_set() {
    let fired = Arc::new(AtomicUsize::new(0));
    let seen = fired.clone();
    let mut ex: Exchange<usize, usize> = Exchange::new();
    ex.add_custom_listener(move |state| {
        assert!(!state.status().any_flags_clear(Status(Status::CUSTOM_LISTENERS_COMPLETE)));
        seen.fetch_add(1, Ordering::SeqCst);
    });
    assert!(ex.execute_custom_listeners().is_ok());
    assert_eq!(fired.load(Ordering::SeqCst), 1);
    assert!(ex.execute_custom_listeners().is_err());
    assert_eq!(fired.load(Ordering::SeqCst), 1);
}
