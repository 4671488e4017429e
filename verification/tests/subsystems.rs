use openvr::applications::{ApplicationsCall, KeyError, MAX_APPLICATION_KEY_LENGTH};
use openvr::loader::load;
use openvr::marshal::buffer;
use openvr::notifications::{NotificationsCall, VRNotificationError};
use openvr::overlay::{OverlayCall, VROverlayError};
use openvr::{
    init, ApplicationType, Applications, Claim, Context, InitFlag, InitOutcome, Notifications,
    Overlay,
};

fn live_context(flag: &mut InitFlag) -> Context {
    let pending = match init(flag, ApplicationType::Overlay) {
        Claim::Granted(pending) => pending,
        Claim::AlreadyInitialized => panic!("the runtime was free"),
    };
    let check = pending.native_init_returned(flag, 0).expect("no error");
    match check.version_checked(flag, true) {
        InitOutcome::Ready(context) => context,
        InitOutcome::ShutDown(e) => panic!("unexpected {:?}", e),
    }
}

fn overlay(context: &Context) -> Overlay<'_> {
    let found = load(context, "IVROverlay_019").ok().unwrap().resolve(0x1000, 0);
    context.overlay(found).ok().unwrap()
}

fn notifications(context: &Context) -> Notifications<'_> {
    let found = load(context, "IVRNotifications_002").ok().unwrap().resolve(0x2000, 0);
    context.notifications(found).ok().unwrap()
}

fn applications(context: &Context) -> Applications<'_> {
    let found = load(context, "IVRApplications_006").ok().unwrap().resolve(0x3000, 0);
    context.applications(found).ok().unwrap()
}

#[test]
fn overlay_find_marshals_the_key() {
    let mut flag = InitFlag::new();
    let context = live_context(&mut flag);
    let overlay = overlay(&context);
    match overlay.find("my.overlay").unwrap() {
        OverlayCall::FindOverlay { key } => assert_eq!(key.as_bytes_with_nul(), b"my.overlay\0"),
        other => panic!("unexpected call {:?}", other),
    }
    assert_eq!(overlay.find("my\0overlay").unwrap_err().nul_position(), 2);
}

#[test]
fn overlay_create_marshals_key_and_name() {
    let mut flag = InitFlag::new();
    let context = live_context(&mut flag);
    let overlay = overlay(&context);
    match overlay.create("key", "A Name").unwrap() {
        OverlayCall::CreateOverlay { key, name } => {
            assert_eq!(key.as_bytes_with_nul(), b"key\0");
            assert_eq!(name.as_bytes_with_nul(), b"A Name\0");
        }
        other => panic!("unexpected call {:?}", other),
    }
    assert_eq!(overlay.create("k\0", "name").unwrap_err().nul_position(), 1);
    assert_eq!(overlay.create("key", "na\0me").unwrap_err().nul_position(), 2);
    assert_eq!(overlay.create("\0key", "na\0me").unwrap_err().nul_position(), 0);
}

#[test]
fn overlay_destroy_names_the_handle() {
    let mut flag = InitFlag::new();
    let context = live_context(&mut flag);
    let overlay = overlay(&context);
    assert!(matches!(overlay.destroy(77), OverlayCall::DestroyOverlay { handle: 77 }));
}

#[test]
fn overlay_replies_keep_the_code() {
    let mut flag = InitFlag::new();
    let context = live_context(&mut flag);
    let overlay = overlay(&context);
    assert_eq!(overlay.handle_reply(0, 42), Ok(42));
    assert_eq!(overlay.status_reply(0), Ok(()));
    for code in (10u32..=27).chain([29, 30, 31, 32, 33, 34, u32::MAX]) {
        assert_eq!(overlay.handle_reply(code, 42), Err(VROverlayError(code)));
        assert_eq!(overlay.status_reply(code), Err(VROverlayError(code)));
        assert_eq!(VROverlayError::check(code).unwrap_err().0, code);
        assert_eq!(VROverlayError::from(code).0, code);
    }
}

#[test]
fn overlay_error_message() {
    assert_eq!(VROverlayError(0).message(), "EVROverlayError 0");
    assert_eq!(VROverlayError(17).message(), "EVROverlayError 17");
    assert_eq!(VROverlayError(u32::MAX).message(), "EVROverlayError 4294967295");
}

#[test]
fn notification_create_marshals_the_text() {
    let mut flag = InitFlag::new();
    let context = live_context(&mut flag);
    let notifications = notifications(&context);
    match notifications.create(5, 9, 1, "two\nlines", 3, None).unwrap() {
        NotificationsCall::CreateNotification {
            overlay_handle,
            user_value,
            notification_type,
            text,
            style,
            image,
        } => {
            assert_eq!(overlay_handle, 5);
            assert_eq!(user_value, 9);
            assert_eq!(notification_type, 1);
            assert_eq!(text.as_bytes_with_nul(), b"two\nlines\0");
            assert_eq!(style, 3);
            assert_eq!(image, 0);
        }
        other => panic!("unexpected call {:?}", other),
    }
    match notifications.create(5, 9, 1, "", 3, Some(0x5000)).unwrap() {
        NotificationsCall::CreateNotification { image, .. } => assert_eq!(image, 0x5000),
        other => panic!("unexpected call {:?}", other),
    }
    assert_eq!(notifications.create(5, 9, 1, "a\0", 3, None).unwrap_err().nul_position(), 1);
}

#[test]
fn notification_remove_and_replies() {
    let mut flag = InitFlag::new();
    let context = live_context(&mut flag);
    let notifications = notifications(&context);
    assert!(matches!(notifications.remove(8), NotificationsCall::RemoveNotification { id: 8 }));
    assert_eq!(notifications.id_reply(0, 8), Ok(8));
    assert_eq!(notifications.status_reply(0), Ok(()));
    for code in [100u32, 101, 102, 103, 104] {
        assert_eq!(notifications.id_reply(code, 8), Err(VRNotificationError(code)));
        assert_eq!(notifications.status_reply(code), Err(VRNotificationError(code)));
        assert_eq!(VRNotificationError::from(code).0, code);
    }
    assert_eq!(VRNotificationError(101).message(), "EVRNotificationError 101");
}

#[test]
fn application_calls_marshal_their_text() {
    let mut flag = InitFlag::new();
    let context = live_context(&mut flag);
    let apps = applications(&context);
    match apps.add_application_manifest("/a/manifest.vrmanifest", true).unwrap() {
        ApplicationsCall::AddApplicationManifest { path, temporary } => {
            assert_eq!(path.as_bytes_with_nul(), b"/a/manifest.vrmanifest\0");
            assert!(temporary);
        }
        other => panic!("unexpected call {:?}", other),
    }
    match apps.remove_application_manifest("/a").unwrap() {
        ApplicationsCall::RemoveApplicationManifest { path } => {
            assert_eq!(path.as_bytes_with_nul(), b"/a\0")
        }
        other => panic!("unexpected call {:?}", other),
    }
    match apps.is_application_installed("app.key").unwrap() {
        ApplicationsCall::IsApplicationInstalled { key } => {
            assert_eq!(key.as_bytes_with_nul(), b"app.key\0")
        }
        other => panic!("unexpected call {:?}", other),
    }
    match apps.launch_application("app.key").unwrap() {
        ApplicationsCall::LaunchApplication { key } => {
            assert_eq!(key.as_bytes_with_nul(), b"app.key\0")
        }
        other => panic!("unexpected call {:?}", other),
    }
    match apps.set_application_auto_launch("app.key", false).unwrap() {
        ApplicationsCall::SetApplicationAutoLaunch { key, auto_launch } => {
            assert_eq!(key.as_bytes_with_nul(), b"app.key\0");
            assert!(!auto_launch);
        }
        other => panic!("unexpected call {:?}", other),
    }
    match apps.get_application_auto_launch("app.key").unwrap() {
        ApplicationsCall::GetApplicationAutoLaunch { key } => {
            assert_eq!(key.as_bytes_with_nul(), b"app.key\0")
        }
        other => panic!("unexpected call {:?}", other),
    }
    assert!(matches!(apps.get_application_count(), ApplicationsCall::GetApplicationCount));
}

#[test]
fn application_calls_refuse_a_nul() {
    let mut flag = InitFlag::new();
    let context = live_context(&mut flag);
    let apps = applications(&context);
    assert_eq!(apps.add_application_manifest("a\0b", false).unwrap_err().nul_position(), 1);
    assert_eq!(apps.remove_application_manifest("\0").unwrap_err().nul_position(), 0);
    assert_eq!(apps.is_application_installed("ab\0").unwrap_err().nul_position(), 2);
    assert_eq!(apps.launch_application("abc\0d").unwrap_err().nul_position(), 3);
    assert_eq!(apps.set_application_auto_launch("\0\0", true).unwrap_err().nul_position(), 0);
    assert_eq!(apps.get_application_auto_launch("x\0").unwrap_err().nul_position(), 1);
}

#[test]
fn application_key_calls_ask_for_the_full_buffer() {
    let mut flag = InitFlag::new();
    let context = live_context(&mut flag);
    let apps = applications(&context);
    assert_eq!(MAX_APPLICATION_KEY_LENGTH, 128);
    assert!(matches!(
        apps.get_application_key_by_index(3),
        ApplicationsCall::GetApplicationKeyByIndex { index: 3, capacity: 128 }
    ));
    assert!(matches!(
        apps.get_application_key_by_process_id(4711),
        ApplicationsCall::GetApplicationKeyByProcessId { process_id: 4711, capacity: 128 }
    ));
}

#[test]
fn application_key_reply_reads_up_to_the_terminator() {
    let mut flag = InitFlag::new();
    let context = live_context(&mut flag);
    let apps = applications(&context);
    let mut out = buffer(MAX_APPLICATION_KEY_LENGTH);
    out[..9].copy_from_slice(b"steam.app");
    out[10] = b'x';
    assert_eq!(apps.key_reply(0, &out), Ok(String::from("steam.app")));
    let full = vec![b'k'; 128];
    assert_eq!(apps.key_reply(0, &full), Ok("k".repeat(128)));
    assert_eq!(apps.key_reply(0, &buffer(128)), Ok(String::new()));
}

#[test]
fn application_key_reply_trusts_no_buffer_on_failure() {
    let mut flag = InitFlag::new();
    let context = live_context(&mut flag);
    let apps = applications(&context);
    let mut out = buffer(MAX_APPLICATION_KEY_LENGTH);
    out[..9].copy_from_slice(b"steam.app");
    assert_eq!(apps.key_reply(109, &out), Err(KeyError::Runtime(109)));
    assert_eq!(apps.key_reply(0, &[0xff, 0]), Err(KeyError::NotUtf8));
    assert_eq!(apps.key_reply(200, &[0xff, 0]), Err(KeyError::Runtime(200)));
}

#[test]
fn application_status_reply_keeps_the_code() {
    let mut flag = InitFlag::new();
    let context = live_context(&mut flag);
    let apps = applications(&context);
    assert_eq!(apps.status_reply(0), Ok(()));
    for code in [100u32, 101, 107, 114, 200, 300, u32::MAX] {
        assert_eq!(apps.status_reply(code), Err(code));
    }
}
