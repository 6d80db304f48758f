use hypatia::window::{
    bool_does, bool_is, check_driver_strings, choose_config, layer_surface_requests, setup_error, yn, InitError,
    LayerSurfaceSettings, Margin, MessageHandlerWrapper, KEYBOARD_INTERACTIVITY_NONE,
};

#[test]
fn words_for_booleans() {
    assert_eq!(bool_does(true), "does");
    assert_eq!(bool_does(false), "does not");
    assert_eq!(bool_is(true), "is");
    assert_eq!(bool_is(false), "is not");
    assert_eq!(yn(true), "yes");
    assert_eq!(yn(false), "no");
}

#[test]
fn default_settings_send_no_requests() {
    let settings = LayerSurfaceSettings {
        anchors: 0,
        exclusive_zone: 0,
        margin: Margin::default(),
        keyboard_interactivity: KEYBOARD_INTERACTIVITY_NONE,
        width: 0,
        height: 0,
    };
    let r = layer_surface_requests(&settings);
    assert_eq!(r.set_anchor, None);
    assert_eq!(r.set_exclusive_zone, None);
    assert_eq!(r.set_margin, None);
    assert_eq!(r.set_size, None);
    assert_eq!(r.set_keyboard_interactivity, None);
    assert_eq!(
        Margin::default(),
        Margin {
            top: 0,
            right: 0,
            bottom: 0,
            left: 0
        }
    );
}

#[test]
fn changed_settings_send_their_requests() {
    let margin = Margin {
        top: 1,
        right: 0,
        bottom: 0,
        left: -2,
    };
    let settings = LayerSurfaceSettings {
        anchors: 15,
        exclusive_zone: -1,
        margin,
        keyboard_interactivity: 2,
        width: 0,
        height: 1080,
    };
    let r = layer_surface_requests(&settings);
    assert_eq!(r.set_anchor, Some(15));
    assert_eq!(r.set_exclusive_zone, Some(-1));
    assert_eq!(r.set_margin, Some(margin));
    assert_eq!(r.set_size, Some((0, 1080)));
    assert_eq!(r.set_keyboard_interactivity, Some(2));
    let wrapped = MessageHandlerWrapper(5u8);
    assert_eq!(wrapped.0, 5);
}

#[test]
fn setup_errors_come_in_order() {
    assert_eq!(setup_error(true, true, true, true, None), Ok(()));
    assert_eq!(
        setup_error(false, false, false, false, Some(InitError::NoConfigs)),
        Err(InitError::NoCompositor)
    );
    assert_eq!(setup_error(true, false, false, true, None), Err(InitError::NoBaseSurface));
    assert_eq!(setup_error(true, true, false, false, None), Err(InitError::NoSeat));
    assert_eq!(setup_error(true, true, true, false, None), Err(InitError::NoLayerShell));
    assert_eq!(
        setup_error(true, true, true, true, Some(InitError::DoesNotWork)),
        Err(InitError::DoesNotWork)
    );
    assert_eq!(InitError::NoConfigs.message(), "No OpenGL configs available");
}

#[test]
fn best_config_is_chosen() {
    assert_eq!(choose_config(&vec![]), None);
    let keys = vec![
        (false, true, 16, Some(true)),
        (true, false, 0, None),
        (true, true, 4, Some(false)),
        (true, true, 4, None),
        (true, true, 4, Some(false)),
        (true, true, 2, Some(true)),
    ];
    // the last of the equally ranked best keys
    assert_eq!(choose_config(&keys), Some(4));
    assert_eq!(choose_config(&vec![(false, false, 0, None)]), Some(0));
}

#[test]
fn driver_must_answer() {
    assert_eq!(check_driver_strings(true, true, true, true), Ok(()));
    assert_eq!(check_driver_strings(true, false, true, true), Err(InitError::DoesNotWork));
    assert_eq!(check_driver_strings(true, true, true, false), Err(InitError::DoesNotWork));
}
