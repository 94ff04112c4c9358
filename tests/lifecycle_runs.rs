use renderer::builder::BootstrapConfig;
use renderer::error::{BootstrapError, DriverError, LifecycleError};
use renderer::lifecycle::{Lifecycle, Phase, Stage, Teardown};

fn name(s: &str) -> Vec<u8> {
    s.as_bytes().to_vec()
}

fn with_layer() -> Result<Vec<Vec<u8>>, DriverError> {
    Ok(vec![name("VK_LAYER_KHRONOS_validation")])
}

/// Runs teardown as an owner would, returning the calls made in order.
fn tear_down(l: &mut Lifecycle) -> Vec<Teardown> {
    let mut calls = Vec::new();
    while let Some(step) = l.next_teardown() {
        calls.push(step);
        match step {
            Teardown::UninstallChannel => l.channel_uninstalled().unwrap(),
            Teardown::DestroyInstance => l.instance_destroyed().unwrap(),
        }
    }
    calls
}

#[test]
fn diagnostic_run_from_create_to_close() {
    let mut l = Lifecycle::new(BootstrapConfig::new(true));
    assert_eq!(l.phase(), Phase::Uninitialized);
    let request = l.negotiate(&with_layer(), vec![name("VK_KHR_surface")]).unwrap();
    assert_eq!(request.layers.len(), 1);
    let channel = l.instance_created(Ok(())).unwrap();
    assert!(channel.is_some());
    assert_eq!(l.channel_installed(Ok(())), Ok(()));
    assert_eq!(l.phase(), Phase::Created);
    assert!(l.has_debug_channel());
    for _ in 0..3 {
        assert_eq!(l.render(), Ok(()));
    }
    let calls = tear_down(&mut l);
    assert_eq!(calls, vec![Teardown::UninstallChannel, Teardown::DestroyInstance]);
    assert_eq!(l.phase(), Phase::Destroyed);
    assert!(!l.has_instance());
    assert!(!l.has_debug_channel());
    assert_eq!(l.render(), Err(LifecycleError::NotCreated));
}

#[test]
fn missing_layer_creates_nothing() {
    let mut l = Lifecycle::new(BootstrapConfig::new(true));
    let r = l.negotiate(&Ok(vec![name("VK_LAYER_OTHER")]), Vec::new());
    assert!(matches!(r, Err(BootstrapError::MissingValidationLayer)));
    assert_eq!(l.stage(), Stage::Idle);
    assert!(matches!(l.instance_created(Ok(())), Err(BootstrapError::OutOfOrder)));
    assert!(!l.has_instance());
    assert_eq!(l.next_teardown(), None);
}

#[test]
fn quiet_run_never_touches_a_channel() {
    let mut l = Lifecycle::new(BootstrapConfig::new(false));
    let request = l.negotiate(&Err(DriverError { code: -3 }), vec![name("VK_KHR_surface")]).unwrap();
    assert!(request.layers.is_empty());
    assert_eq!(request.extensions, vec![name("VK_KHR_surface")]);
    assert!(matches!(l.instance_created(Ok(())), Ok(None)));
    assert_eq!(l.phase(), Phase::Created);
    assert!(!l.has_debug_channel());
    assert_eq!(l.channel_uninstalled(), Err(LifecycleError::NoChannel));
    assert_eq!(tear_down(&mut l), vec![Teardown::DestroyInstance]);
    assert_eq!(l.phase(), Phase::Destroyed);
}

#[test]
fn instance_cannot_go_before_its_channel() {
    let mut l = Lifecycle::new(BootstrapConfig::new(true));
    l.negotiate(&with_layer(), Vec::new()).unwrap();
    l.instance_created(Ok(())).unwrap();
    l.channel_installed(Ok(())).unwrap();
    assert_eq!(l.instance_destroyed(), Err(LifecycleError::ChannelStillInstalled));
    assert!(l.has_instance());
    assert!(l.has_debug_channel());
    assert_eq!(l.next_teardown(), Some(Teardown::UninstallChannel));
    assert_eq!(l.channel_uninstalled(), Ok(()));
    assert_eq!(l.render(), Err(LifecycleError::NotCreated));
    assert_eq!(l.next_teardown(), Some(Teardown::DestroyInstance));
    assert_eq!(l.instance_destroyed(), Ok(()));
    assert_eq!(l.instance_destroyed(), Err(LifecycleError::NoInstance));
}

#[test]
fn rejected_instance_leaves_nothing() {
    let mut l = Lifecycle::new(BootstrapConfig::new(true));
    l.negotiate(&with_layer(), Vec::new()).unwrap();
    let e = DriverError { code: -7 };
    assert!(matches!(l.instance_created(Err(e)), Err(BootstrapError::DriverRejected(x)) if x == e));
    assert_eq!(l.phase(), Phase::Uninitialized);
    assert!(!l.has_instance());
    assert_eq!(l.next_teardown(), None);
}

#[test]
fn rejected_channel_rolls_back_instance() {
    let mut l = Lifecycle::new(BootstrapConfig::new(true));
    l.negotiate(&with_layer(), Vec::new()).unwrap();
    l.instance_created(Ok(())).unwrap();
    let e = DriverError { code: -1 };
    assert_eq!(l.channel_installed(Err(e)), Err(BootstrapError::DriverRejected(e)));
    assert_eq!(l.stage(), Stage::RollingBack);
    assert_eq!(l.render(), Err(LifecycleError::NotCreated));
    assert_eq!(tear_down(&mut l), vec![Teardown::DestroyInstance]);
    assert_eq!(l.stage(), Stage::Idle);
    assert_eq!(l.phase(), Phase::Uninitialized);
}

#[test]
fn render_before_create_is_refused() {
    let l = Lifecycle::new(BootstrapConfig::new(true));
    assert_eq!(l.render(), Err(LifecycleError::NotCreated));
}

#[test]
fn steps_out_of_order_are_refused() {
    let mut l = Lifecycle::new(BootstrapConfig::new(false));
    assert_eq!(l.channel_installed(Ok(())), Err(BootstrapError::OutOfOrder));
    l.negotiate(&Ok(Vec::new()), Vec::new()).unwrap();
    assert!(matches!(l.negotiate(&Ok(Vec::new()), Vec::new()), Err(BootstrapError::OutOfOrder)));
    assert_eq!(l.stage(), Stage::Negotiated);
    assert!(l.config().validation_layer == name("VK_LAYER_KHRONOS_validation"));
}
