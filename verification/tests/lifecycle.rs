use openvr::error::{
    INIT_ERROR_HMD_NOT_FOUND, INIT_ERROR_INTERFACE_NOT_FOUND, INIT_ERROR_NOT_INITIALIZED,
};
use openvr::lifecycle::RUNTIME_PATH_CAPACITY;
use openvr::loader::load;
use openvr::marshal::buffer;
use openvr::{init, ApplicationType, Claim, Context, Eye, InitError, InitFlag, InitOutcome};

/// A native boundary that replies as scripted and counts what it is asked.
struct SimulatedRuntime {
    init_code: u32,
    version_valid: bool,
    path: Option<Vec<u8>>,
    init_calls: Vec<u32>,
    version_checks: u32,
    shutdown_calls: u32,
    up: bool,
}

impl SimulatedRuntime {
    fn new(init_code: u32, version_valid: bool) -> Self {
        SimulatedRuntime {
            init_code,
            version_valid,
            path: None,
            init_calls: Vec::new(),
            version_checks: 0,
            shutdown_calls: 0,
            up: false,
        }
    }

    fn native_init(&mut self, application_type: u32) -> u32 {
        self.init_calls.push(application_type);
        if self.init_code == 0 {
            assert!(!self.up, "native init while the runtime is up");
            self.up = true;
        }
        self.init_code
    }

    fn native_is_version_valid(&mut self) -> bool {
        self.version_checks += 1;
        self.version_valid
    }

    fn native_shutdown(&mut self) {
        assert!(self.up, "native shutdown without a runtime that is up");
        self.up = false;
        self.shutdown_calls += 1;
    }

    fn native_runtime_path(&self, out: &mut [u8]) -> (bool, u32) {
        match &self.path {
            None => (false, 0),
            Some(p) => {
                let required = p.len() as u32 + 1;
                if out.len() >= required as usize {
                    out[..p.len()].copy_from_slice(p);
                    out[p.len()] = 0;
                }
                (true, required)
            }
        }
    }
}

/// Plays the host: runs a start-up against the simulated runtime.
fn initialize(
    sim: &mut SimulatedRuntime,
    flag: &mut InitFlag,
    ty: ApplicationType,
) -> Option<Result<Context, InitError>> {
    let pending = match init(flag, ty) {
        Claim::Granted(pending) => pending,
        Claim::AlreadyInitialized => return None,
    };
    let code = sim.native_init(pending.native_argument());
    let check = match pending.native_init_returned(flag, code) {
        Ok(check) => check,
        Err(e) => return Some(Err(e)),
    };
    let valid = sim.native_is_version_valid();
    match check.version_checked(flag, valid) {
        InitOutcome::Ready(context) => Some(Ok(context)),
        InitOutcome::ShutDown(e) => {
            sim.native_shutdown();
            Some(Err(e))
        }
    }
}

fn shut_down(sim: &mut SimulatedRuntime, flag: &mut InitFlag, context: &mut Context) {
    if context.shutdown(flag) {
        sim.native_shutdown();
    }
}

fn runtime_path(sim: &SimulatedRuntime, context: &Context) -> Option<String> {
    let capacity = context.runtime_path_request()?;
    let mut out = buffer(capacity);
    let (found, required) = sim.native_runtime_path(&mut out);
    context.get_runtime_path(found, required, &out)
}

#[test]
fn scenario_scene_start_path_and_shutdown() {
    let mut sim = SimulatedRuntime::new(0, true);
    sim.path = Some(b"/opt/runtime".to_vec());
    let mut flag = InitFlag::new();
    let mut context = initialize(&mut sim, &mut flag, ApplicationType::Scene)
        .expect("the runtime was free")
        .expect("the runtime came up");
    assert!(context.live());
    assert!(flag.get());
    assert_eq!(sim.init_calls, vec![1]);
    assert_eq!(sim.version_checks, 1);
    assert_eq!(runtime_path(&sim, &context), Some(String::from("/opt/runtime")));

    shut_down(&mut sim, &mut flag, &mut context);
    assert!(!context.live());
    assert!(!flag.get());
    assert_eq!(sim.shutdown_calls, 1);
    assert_eq!(context.runtime_path_request(), None);
    assert_eq!(runtime_path(&sim, &context), None);
    let mut out = buffer(RUNTIME_PATH_CAPACITY);
    out[..4].copy_from_slice(b"/opt");
    assert_eq!(context.get_runtime_path(true, 5, &out), None);
}

#[test]
fn scenario_utility_start_fails_with_hmd_not_found() {
    let mut sim = SimulatedRuntime::new(108, true);
    let mut flag = InitFlag::new();
    let err = initialize(&mut sim, &mut flag, ApplicationType::Utility)
        .expect("the runtime was free")
        .expect_err("the native init failed");
    assert_eq!(err.code(), 108);
    assert_eq!(err.code(), INIT_ERROR_HMD_NOT_FOUND);
    assert!(!err.is_interface_not_found());
    assert_eq!(sim.init_calls, vec![4]);
    assert_eq!(sim.version_checks, 0);
    assert_eq!(sim.shutdown_calls, 0);
    assert!(!flag.get());

    sim.init_code = 0;
    let context = initialize(&mut sim, &mut flag, ApplicationType::Utility)
        .expect("the flag was cleared by the failure")
        .expect("the second attempt succeeds");
    assert!(context.live());
    assert_eq!(sim.init_calls, vec![4, 4]);
}

#[test]
fn version_mismatch_shuts_the_runtime_down_and_clears_the_flag() {
    let mut sim = SimulatedRuntime::new(0, false);
    let mut flag = InitFlag::new();
    let err = initialize(&mut sim, &mut flag, ApplicationType::Scene)
        .expect("the runtime was free")
        .expect_err("the system interface is missing");
    assert_eq!(err.code(), INIT_ERROR_INTERFACE_NOT_FOUND);
    assert!(err.is_interface_not_found());
    assert_eq!(sim.shutdown_calls, 1);
    assert!(!sim.up);
    assert!(!flag.get());
    sim.version_valid = true;
    assert!(initialize(&mut sim, &mut flag, ApplicationType::Scene).unwrap().is_ok());
}

#[test]
fn second_start_up_is_refused_while_a_context_is_live() {
    let mut sim = SimulatedRuntime::new(0, true);
    let mut flag = InitFlag::new();
    let mut context = initialize(&mut sim, &mut flag, ApplicationType::Overlay).unwrap().unwrap();
    assert!(initialize(&mut sim, &mut flag, ApplicationType::Overlay).is_none());
    assert!(initialize(&mut sim, &mut flag, ApplicationType::Scene).is_none());
    assert_eq!(sim.init_calls.len(), 1);
    assert!(context.live());
    assert!(flag.get());
    shut_down(&mut sim, &mut flag, &mut context);
    assert!(initialize(&mut sim, &mut flag, ApplicationType::Overlay).unwrap().is_ok());
}

#[test]
fn second_start_up_is_refused_while_one_is_under_way() {
    let mut flag = InitFlag::new();
    let pending = match init(&mut flag, ApplicationType::Scene) {
        Claim::Granted(pending) => pending,
        Claim::AlreadyInitialized => panic!("the runtime was free"),
    };
    assert!(matches!(init(&mut flag, ApplicationType::Scene), Claim::AlreadyInitialized));
    let check = pending.native_init_returned(&mut flag, 0).unwrap();
    assert!(matches!(init(&mut flag, ApplicationType::Scene), Claim::AlreadyInitialized));
    assert!(matches!(check.version_checked(&mut flag, true), InitOutcome::Ready(_)));
    assert!(matches!(init(&mut flag, ApplicationType::Scene), Claim::AlreadyInitialized));
}

#[test]
fn shutdown_is_idempotent() {
    for calls in 1..6 {
        let mut sim = SimulatedRuntime::new(0, true);
        let mut flag = InitFlag::new();
        let mut context = initialize(&mut sim, &mut flag, ApplicationType::Scene).unwrap().unwrap();
        for _ in 0..calls {
            shut_down(&mut sim, &mut flag, &mut context);
            assert!(!context.live());
            assert!(!flag.get());
        }
        assert_eq!(sim.shutdown_calls, 1);
    }
}

#[test]
fn stale_context_does_not_shut_down_its_successor() {
    let mut sim = SimulatedRuntime::new(0, true);
    let mut flag = InitFlag::new();
    let mut first = initialize(&mut sim, &mut flag, ApplicationType::Scene).unwrap().unwrap();
    shut_down(&mut sim, &mut flag, &mut first);
    let second = initialize(&mut sim, &mut flag, ApplicationType::Scene).unwrap().unwrap();
    shut_down(&mut sim, &mut flag, &mut first);
    assert!(second.live());
    assert!(flag.get());
    assert!(sim.up);
    assert_eq!(sim.shutdown_calls, 1);
}

#[test]
fn at_most_one_context_is_live_over_many_sequences() {
    // Every sequence of start-ups and shutdowns of length 8 over three slots.
    for script in 0..(6u32.pow(6)) {
        let mut sim = SimulatedRuntime::new(0, true);
        let mut flag = InitFlag::new();
        let mut contexts: Vec<Context> = Vec::new();
        let mut s = script;
        for _ in 0..6 {
            let op = s % 6;
            s /= 6;
            match op {
                0 | 1 => {
                    sim.init_code = if op == 0 { 0 } else { 108 };
                    let was_live = contexts.iter().any(|c| c.live());
                    match initialize(&mut sim, &mut flag, ApplicationType::Scene) {
                        None => assert!(was_live),
                        Some(Ok(c)) => {
                            assert!(!was_live);
                            contexts.push(c)
                        }
                        Some(Err(e)) => {
                            assert!(!was_live);
                            assert_eq!(e.code(), 108)
                        }
                    }
                }
                2 => {
                    sim.init_code = 0;
                    sim.version_valid = false;
                    let _ = initialize(&mut sim, &mut flag, ApplicationType::Scene);
                    sim.version_valid = true;
                }
                n => {
                    let i = (n - 3) as usize;
                    if i < contexts.len() {
                        shut_down(&mut sim, &mut flag, &mut contexts[i]);
                    }
                }
            }
            let live = contexts.iter().filter(|c| c.live()).count();
            assert!(live <= 1);
            assert_eq!(flag.get(), live == 1);
            assert_eq!(sim.up, live == 1);
        }
    }
}

#[test]
fn runtime_path_is_absent_when_the_runtime_has_none() {
    let mut sim = SimulatedRuntime::new(0, true);
    let mut flag = InitFlag::new();
    let context = initialize(&mut sim, &mut flag, ApplicationType::Scene).unwrap().unwrap();
    assert_eq!(context.runtime_path_request(), Some(1024));
    assert_eq!(runtime_path(&sim, &context), None);
}

#[test]
fn runtime_path_is_absent_when_the_buffer_is_too_small() {
    let mut sim = SimulatedRuntime::new(0, true);
    let mut flag = InitFlag::new();
    let context = initialize(&mut sim, &mut flag, ApplicationType::Scene).unwrap().unwrap();
    sim.path = Some(vec![b'a'; 1023]);
    assert_eq!(runtime_path(&sim, &context), None);
    sim.path = Some(vec![b'a'; 1022]);
    assert_eq!(runtime_path(&sim, &context), Some("a".repeat(1022)));
    let out = buffer(8);
    assert_eq!(context.get_runtime_path(true, 8, &out), None);
    assert_eq!(context.get_runtime_path(true, 7, &out), Some(String::new()));
}

#[test]
fn runtime_path_is_absent_when_it_is_not_utf8() {
    let mut sim = SimulatedRuntime::new(0, true);
    let mut flag = InitFlag::new();
    let context = initialize(&mut sim, &mut flag, ApplicationType::Scene).unwrap().unwrap();
    sim.path = Some(vec![b'/', 0xff, b'x']);
    assert_eq!(runtime_path(&sim, &context), None);
}

#[test]
fn application_types_have_the_runtime_numbers() {
    assert_eq!(ApplicationType::Other.code(), 0);
    assert_eq!(ApplicationType::Scene.code(), 1);
    assert_eq!(ApplicationType::Overlay.code(), 2);
    assert_eq!(ApplicationType::Background.code(), 3);
    assert_eq!(ApplicationType::Utility.code(), 4);
    assert_eq!(ApplicationType::VRMonitor.code(), 5);
    assert_eq!(ApplicationType::SteamWatchdog.code(), 6);
    assert_eq!(ApplicationType::Bootstrapper.code(), 7);
    assert_eq!(Eye::Left.code(), 0);
    assert_eq!(Eye::Right.code(), 1);
}

#[test]
fn init_error_check_keeps_every_code() {
    assert_eq!(InitError::check(0), Ok(()));
    for code in [1u32, 100, 105, 108, 109, 126, 200, 2000, u32::MAX] {
        assert_eq!(InitError::check(code).unwrap_err().code(), code);
    }
    assert_eq!(InitError::interface_not_found().code(), 105);
    assert_eq!(InitError::not_initialized().code(), INIT_ERROR_NOT_INITIALIZED);
}

#[test]
fn nothing_is_loaded_through_a_context_that_is_shut_down() {
    let mut sim = SimulatedRuntime::new(0, true);
    let mut flag = InitFlag::new();
    let mut context = initialize(&mut sim, &mut flag, ApplicationType::Scene).unwrap().unwrap();
    assert!(load(&context, "IVRSystem_022").is_ok());
    shut_down(&mut sim, &mut flag, &mut context);
    let err = load(&context, "IVRSystem_022").err().unwrap();
    assert_eq!(err.code(), INIT_ERROR_NOT_INITIALIZED);
}
