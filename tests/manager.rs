use liquid_glass::{
    AddAction, AddEvent, AddStage, AddStep, EffectOptions, FallbackConfig, GlassError,
    GlassMaterialVariant, GlassViewManager, PropertyRequest, Rgba8, SetterForm,
};

fn options(opaque: bool, round_corners: bool, tint: Option<&str>) -> EffectOptions {
    EffectOptions { opaque, round_corners, tint_color: tint.map(|t| t.to_string()) }
}

/// Drives one creation with the given native outcomes and returns the
/// actions asked for and the final result.
fn run_add(
    manager: &mut GlassViewManager,
    window: usize,
    opts: &EffectOptions,
    events: &[AddEvent],
) -> (Vec<AddAction>, Result<i32, GlassError>) {
    let mut actions = Vec::new();
    let mut step = manager.begin_add(window, true, opts);
    let mut i = 0;
    loop {
        match step {
            AddStep::Done(r) => return (actions, r),
            AddStep::Continue(session, action) => {
                actions.push(action);
                assert!(i < events.len(), "ran out of events at {:?}", action);
                step = manager.advance(session, events[i]);
                i += 1;
            }
        }
    }
}

fn add_plain(manager: &mut GlassViewManager, effect: usize) -> Result<i32, GlassError> {
    let events = [AddEvent::Probed(true), AddEvent::Created(effect), AddEvent::Performed, AddEvent::Performed];
    run_add(manager, 1, &options(false, false, None), &events).1
}

#[test]
fn test_manager_creation() {
    let manager = GlassViewManager::new();
    assert!(manager.is_supported());
}

#[test]
fn unsupported_manager_reports_unsupported() {
    let mut manager = GlassViewManager::unsupported();
    assert!(!manager.is_supported());
    match manager.begin_add(1, true, &options(false, false, None)) {
        AddStep::Done(r) => assert_eq!(r, Err(GlassError::UnsupportedPlatform)),
        AddStep::Continue(..) => panic!("expected unsupported"),
    }
    assert_eq!(manager.set_variant(0, GlassMaterialVariant::Clear).err(), Some(GlassError::UnsupportedPlatform));
    assert_eq!(manager.set_scrim_state(0, 1).err(), Some(GlassError::UnsupportedPlatform));
    assert_eq!(manager.set_subdued_state(0, 1).err(), Some(GlassError::UnsupportedPlatform));
    assert_eq!(manager.remove_view(0), Err(GlassError::UnsupportedPlatform));
}

#[test]
fn ids_strictly_increase() {
    let mut manager = GlassViewManager::new();
    assert_eq!(add_plain(&mut manager, 10), Ok(0));
    assert_eq!(add_plain(&mut manager, 11), Ok(1));
    assert_eq!(manager.remove_view(1), Ok(11));
    assert_eq!(add_plain(&mut manager, 12), Ok(2));
    assert_eq!(add_plain(&mut manager, 13), Ok(3));
}

#[test]
fn remove_twice_fails_second_time() {
    let mut manager = GlassViewManager::new();
    let id = add_plain(&mut manager, 42).unwrap();
    assert_eq!(manager.remove_view(id), Ok(42));
    assert_eq!(manager.remove_view(id), Err(GlassError::InvalidViewId(id)));
}

#[test]
fn unknown_id_is_rejected() {
    let mut manager = GlassViewManager::new();
    add_plain(&mut manager, 5).unwrap();
    assert_eq!(manager.set_variant(7, GlassMaterialVariant::Dock).err(), Some(GlassError::InvalidViewId(7)));
    assert_eq!(manager.set_scrim_state(-1, 2).err(), Some(GlassError::InvalidViewId(-1)));
    assert_eq!(manager.set_subdued_state(1, 0).err(), Some(GlassError::InvalidViewId(1)));
    assert_eq!(manager.remove_view(3), Err(GlassError::InvalidViewId(3)));
}

#[test]
fn null_handle_allocates_no_id() {
    let mut manager = GlassViewManager::new();
    match manager.begin_add(0, true, &options(true, true, Some("#FF0000"))) {
        AddStep::Done(r) => assert_eq!(r, Err(GlassError::InvalidHandle)),
        AddStep::Continue(..) => panic!("expected invalid handle"),
    }
    assert_eq!(add_plain(&mut manager, 9), Ok(0));
}

#[test]
fn wrong_thread_is_a_runtime_error() {
    let manager = GlassViewManager::new();
    match manager.begin_add(1, false, &options(false, false, None)) {
        AddStep::Done(r) => {
            assert_eq!(r, Err(GlassError::RuntimeError("Must be called from main thread".to_string())))
        }
        AddStep::Continue(..) => panic!("expected runtime error"),
    }
}

#[test]
fn absent_preferred_class_uses_fallback() {
    let mut manager = GlassViewManager::new();
    let events = [AddEvent::Probed(false), AddEvent::Created(77), AddEvent::Performed, AddEvent::Performed];
    let (actions, r) = run_add(&mut manager, 1, &options(false, false, None), &events);
    assert_eq!(r, Ok(0));
    let fallback = FallbackConfig { blending_mode: 0, material: 0, state: 1 };
    assert_eq!(
        actions,
        vec![
            AddAction::ProbePreferred,
            AddAction::CreateFallback(fallback),
            AddAction::Attach { backing: None, effect: 77 },
            AddAction::Configure { effect: 77, round_corners: false, tint: None },
        ]
    );
    assert_eq!(manager.remove_view(0), Ok(77));
}

#[test]
fn failed_preferred_construction_falls_back() {
    let mut manager = GlassViewManager::new();
    let events = [AddEvent::Probed(true), AddEvent::Created(0), AddEvent::Created(8), AddEvent::Performed, AddEvent::Performed];
    let (actions, r) = run_add(&mut manager, 1, &options(false, false, None), &events);
    assert_eq!(r, Ok(0));
    assert_eq!(actions[2], AddAction::CreateFallback(FallbackConfig::standard()));
    assert_eq!(actions[3], AddAction::Attach { backing: None, effect: 8 });
}

#[test]
fn failed_fallback_construction_fails() {
    let mut manager = GlassViewManager::new();
    let events = [AddEvent::Probed(false), AddEvent::Created(0)];
    let (_, r) = run_add(&mut manager, 1, &options(false, false, None), &events);
    assert_eq!(r, Err(GlassError::CreationFailed));
    assert_eq!(add_plain(&mut manager, 3), Ok(0));
}

#[test]
fn failed_backing_construction_aborts() {
    let mut manager = GlassViewManager::new();
    let (actions, r) = run_add(&mut manager, 1, &options(true, false, None), &[AddEvent::Created(0)]);
    assert_eq!(actions, vec![AddAction::CreateBacking]);
    assert_eq!(r, Err(GlassError::CreationFailed));
}

#[test]
fn opaque_rounded_tinted_surface() {
    let mut manager = GlassViewManager::new();
    let corner_radius = 8.0_f64;
    let opts = options(true, corner_radius > 0.0, Some("#00000080"));
    let events = [
        AddEvent::Created(100),
        AddEvent::Probed(true),
        AddEvent::Created(200),
        AddEvent::Performed,
        AddEvent::Performed,
    ];
    let (actions, r) = run_add(&mut manager, 1, &opts, &events);
    assert_eq!(r, Ok(0));
    let tint = Rgba8 { r: 0, g: 0, b: 0, a: 0x80 };
    assert_eq!(
        actions,
        vec![
            AddAction::CreateBacking,
            AddAction::ProbePreferred,
            AddAction::CreatePreferred,
            AddAction::Attach { backing: Some(100), effect: 200 },
            AddAction::Configure { effect: 200, round_corners: true, tint: Some(tint) },
        ]
    );
    let alpha = tint.a as f64 / 255.0;
    assert!((alpha - 0.502).abs() < 0.001);
}

#[test]
fn invalid_tint_reported_after_configuration() {
    let mut manager = GlassViewManager::new();
    let events = [AddEvent::Probed(true), AddEvent::Created(5), AddEvent::Performed, AddEvent::Performed];
    let (actions, r) = run_add(&mut manager, 1, &options(false, true, Some("#GGGGGG")), &events);
    assert_eq!(actions[3], AddAction::Configure { effect: 5, round_corners: true, tint: None });
    assert_eq!(r, Err(GlassError::InvalidColor("#GGGGGG".to_string())));
    assert_eq!(add_plain(&mut manager, 6), Ok(0));
}

#[test]
fn unrelated_event_leaves_session_waiting() {
    let mut manager = GlassViewManager::new();
    let events = [AddEvent::Performed, AddEvent::Probed(true), AddEvent::Created(4), AddEvent::Performed, AddEvent::Performed];
    let (actions, r) = run_add(&mut manager, 1, &options(false, false, None), &events);
    assert_eq!(actions[0], AddAction::ProbePreferred);
    assert_eq!(actions[1], AddAction::ProbePreferred);
    assert_eq!(r, Ok(0));
}

#[test]
fn set_variant_builds_request() {
    let mut manager = GlassViewManager::new();
    let id = add_plain(&mut manager, 31).unwrap();
    let q = manager.set_variant(id, GlassMaterialVariant::CartouchePopover).unwrap();
    assert_eq!(q.view, 31);
    assert_eq!(q.key, "variant");
    assert_eq!(q.value, 23);
    assert_eq!(q.private_selector, "set_variant:");
    assert_eq!(q.public_selector, "setVariant:");
}

#[test]
fn scrim_and_subdued_requests_pass_state_through() {
    let mut manager = GlassViewManager::new();
    let id = add_plain(&mut manager, 31).unwrap();
    let q = manager.set_scrim_state(id, 99).unwrap();
    assert_eq!((q.key.as_str(), q.value), ("scrimState", 99));
    assert_eq!(q.public_selector, "setScrimState:");
    let q = manager.set_subdued_state(id, -4).unwrap();
    assert_eq!((q.key.as_str(), q.value), ("subduedState", -4));
    assert_eq!(q.private_selector, "set_subduedState:");
}

#[test]
fn private_setter_takes_precedence() {
    let q = PropertyRequest::new(1, "variant", 3);
    assert_eq!(q.resolve(true, true), Ok(SetterForm::Private));
    assert_eq!(q.resolve(true, false), Ok(SetterForm::Private));
    assert_eq!(q.resolve(false, true), Ok(SetterForm::Public));
    assert_eq!(
        q.resolve(false, false),
        Err(GlassError::RuntimeError("Property 'variant' not found or not accessible".to_string()))
    );
}

#[test]
fn variant_codes_are_stable() {
    assert_eq!(GlassMaterialVariant::Regular.code(), 0);
    assert_eq!(GlassMaterialVariant::Clear.code(), 1);
    assert_eq!(GlassMaterialVariant::AVPlayer.code(), 6);
    assert_eq!(GlassMaterialVariant::Sidebar.code(), 16);
    assert_eq!(GlassMaterialVariant::CartouchePopover.code(), 23);
}

#[test]
fn manager_state_is_per_instance() {
    let mut a = GlassViewManager::new();
    let mut b = GlassViewManager::new();
    assert_eq!(add_plain(&mut a, 1), Ok(0));
    assert_eq!(add_plain(&mut a, 2), Ok(1));
    assert_eq!(add_plain(&mut b, 3), Ok(0));
    assert_eq!(EffectOptions { opaque: false, round_corners: false, tint_color: None }.opaque, false);
    assert_eq!(b.set_variant(0, GlassMaterialVariant::Dock).unwrap().view, 3);
    assert_eq!(AddStage::NeedProbe, AddStage::NeedProbe);
}
