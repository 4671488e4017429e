use openvr::error::{INIT_ERROR_INTERFACE_NOT_FOUND, INIT_ERROR_NOT_INITIALIZED};
use openvr::loader::{load, FnTable};
use openvr::{init, ApplicationType, Claim, Context, InitError, InitFlag, InitOutcome};

fn live_context(flag: &mut InitFlag) -> Context {
    let pending = match init(flag, ApplicationType::Scene) {
        Claim::Granted(pending) => pending,
        Claim::AlreadyInitialized => panic!("the runtime was free"),
    };
    let check = pending.native_init_returned(flag, 0).expect("no error");
    match check.version_checked(flag, true) {
        InitOutcome::Ready(context) => context,
        InitOutcome::ShutDown(e) => panic!("unexpected {:?}", e),
    }
}

/// Plays the host for one lookup against a scripted native reply.
fn load_interface<'a>(
    context: &'a Context,
    version_name: &str,
    reply: (usize, u32),
    keys_seen: &mut Vec<Vec<u8>>,
) -> Result<FnTable<'a>, InitError> {
    let query = load(context, version_name)?;
    keys_seen.push(query.lookup_key().as_bytes_with_nul().to_vec());
    query.resolve(reply.0, reply.1)
}

#[test]
fn lookup_key_is_the_prefix_and_the_versioned_name() {
    let mut flag = InitFlag::new();
    let context = live_context(&mut flag);
    let query = load(&context, "IVRSystem_022").ok().unwrap();
    assert_eq!(query.lookup_key().as_bytes_with_nul(), b"FnTable:IVRSystem_022\0");
    let query = load(&context, "").ok().unwrap();
    assert_eq!(query.lookup_key().as_bytes_with_nul(), b"FnTable:\0");
}

#[test]
fn table_is_taken_with_success_and_a_pointer() {
    let mut flag = InitFlag::new();
    let context = live_context(&mut flag);
    let mut keys = Vec::new();
    let table = load_interface(&context, "IVRSystem_022", (0x7f00_1000, 0), &mut keys)
        .ok()
        .unwrap();
    assert_eq!(table.as_address(), 0x7f00_1000);
    assert!(table.context().live());
    assert_eq!(keys, vec![b"FnTable:IVRSystem_022\0".to_vec()]);
}

#[test]
fn pointer_with_a_failure_code_is_not_exposed() {
    let mut flag = InitFlag::new();
    let context = live_context(&mut flag);
    let mut keys = Vec::new();
    for code in [1u32, 100, 105, 108, 109, u32::MAX] {
        let err = load_interface(&context, "IVROverlay_002", (0xdead_beef, code), &mut keys)
            .err()
            .unwrap();
        assert_eq!(err.code(), INIT_ERROR_INTERFACE_NOT_FOUND);
    }
}

#[test]
fn null_pointer_with_success_is_not_exposed() {
    let mut flag = InitFlag::new();
    let context = live_context(&mut flag);
    let mut keys = Vec::new();
    let err = load_interface(&context, "IVROverlay_002", (0, 0), &mut keys).err().unwrap();
    assert!(err.is_interface_not_found());
}

#[test]
fn scenario_overlay_lookup_fails_like_a_version_mismatch() {
    let mut flag = InitFlag::new();
    let context = live_context(&mut flag);
    let mut keys = Vec::new();
    let lookup = load_interface(&context, "IVROverlay_002", (0, 105), &mut keys).err().unwrap();
    assert_eq!(keys, vec![b"FnTable:IVROverlay_002\0".to_vec()]);
    assert!(lookup.is_interface_not_found());
    assert!(context.overlay(Err(lookup)).is_err());

    let mut other_flag = InitFlag::new();
    let pending = match init(&mut other_flag, ApplicationType::Scene) {
        Claim::Granted(pending) => pending,
        Claim::AlreadyInitialized => panic!("the runtime was free"),
    };
    let check = pending.native_init_returned(&mut other_flag, 0).expect("no error");
    let mismatch = match check.version_checked(&mut other_flag, false) {
        InitOutcome::Ready(_) => panic!("the version was invalid"),
        InitOutcome::ShutDown(e) => e,
    };
    assert_eq!(lookup, mismatch);
    assert_eq!(lookup.code(), mismatch.code());
}

#[test]
fn name_with_a_nul_never_reaches_the_runtime() {
    let mut flag = InitFlag::new();
    let context = live_context(&mut flag);
    let mut keys = Vec::new();
    let err = load_interface(&context, "IVR\0System", (0x1000, 0), &mut keys).err().unwrap();
    assert!(err.is_interface_not_found());
    assert!(keys.is_empty());
}

#[test]
fn dead_context_asks_nothing() {
    let mut flag = InitFlag::new();
    let mut context = live_context(&mut flag);
    assert!(context.shutdown(&mut flag));
    let mut keys = Vec::new();
    let err = load_interface(&context, "IVRSystem_022", (0x1000, 0), &mut keys).err().unwrap();
    assert_eq!(err.code(), INIT_ERROR_NOT_INITIALIZED);
    assert!(keys.is_empty());
}

#[test]
fn accessors_wrap_what_was_found() {
    let mut flag = InitFlag::new();
    let context = live_context(&mut flag);
    let find = |address: usize| load(&context, "X").ok().unwrap().resolve(address, 0);
    assert_eq!(context.applications(find(1)).ok().unwrap().0.as_address(), 1);
    assert_eq!(context.chaperone(find(2)).ok().unwrap().0.as_address(), 2);
    assert_eq!(context.chaperone_setup(find(3)).ok().unwrap().0.as_address(), 3);
    assert_eq!(context.compositor(find(4)).ok().unwrap().0.as_address(), 4);
    assert_eq!(context.driver_manager(find(5)).ok().unwrap().0.as_address(), 5);
    assert_eq!(context.extended_display(find(6)).ok().unwrap().0.as_address(), 6);
    assert_eq!(context.input(find(7)).ok().unwrap().0.as_address(), 7);
    assert_eq!(context.io_buffer(find(8)).ok().unwrap().0.as_address(), 8);
    assert_eq!(context.notifications(find(9)).ok().unwrap().0.as_address(), 9);
    assert_eq!(context.overlay(find(10)).ok().unwrap().0.as_address(), 10);
    assert_eq!(context.render_models(find(11)).ok().unwrap().0.as_address(), 11);
    assert_eq!(context.resources(find(12)).ok().unwrap().0.as_address(), 12);
    assert_eq!(context.screenshots(find(13)).ok().unwrap().0.as_address(), 13);
    assert_eq!(context.settings(find(14)).ok().unwrap().0.as_address(), 14);
    assert_eq!(context.spatial_anchors(find(15)).ok().unwrap().0.as_address(), 15);
    assert_eq!(context.system(find(16)).ok().unwrap().0.as_address(), 16);
    assert_eq!(context.tracked_camera(find(17)).ok().unwrap().0.as_address(), 17);
    let err = context.system(find(0)).err().unwrap();
    assert!(err.is_interface_not_found());
}
