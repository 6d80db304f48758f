use hypatia::fade::FadeDirection;
use hypatia::player::{FocusState, PointerAction, PointerEvent, UniformSlots};
use hypatia::uniforms::{SlotHandle, UniformKind, UniformStorage, NO_LOCATION};

#[test]
fn enter_and_leave_fade_in_and_out() {
    let mut state = FocusState::new(false, true);
    assert_eq!(
        state.handle_pointer_event(PointerEvent::Enter),
        PointerAction {
            update_cursor: true,
            start_fade: Some(FadeDirection::In),
        }
    );
    assert!(state.focused);
    assert_eq!(
        state.handle_pointer_event(PointerEvent::Enter),
        PointerAction {
            update_cursor: true,
            start_fade: None,
        }
    );
    assert_eq!(
        state.handle_pointer_event(PointerEvent::Motion),
        PointerAction {
            update_cursor: true,
            start_fade: None,
        }
    );
    assert_eq!(
        state.handle_pointer_event(PointerEvent::Leave),
        PointerAction {
            update_cursor: false,
            start_fade: Some(FadeDirection::Out),
        }
    );
    assert!(!state.focused);
    assert_eq!(
        state.handle_pointer_event(PointerEvent::Leave),
        PointerAction {
            update_cursor: false,
            start_fade: None,
        }
    );
    assert_eq!(state, FocusState::new(false, true));
}

#[test]
fn fixed_focus_never_fades() {
    let mut state = FocusState::new(true, false);
    for event in [
        PointerEvent::Enter,
        PointerEvent::Motion,
        PointerEvent::Other,
        PointerEvent::Leave,
    ] {
        let action = state.handle_pointer_event(event);
        assert_eq!(action.start_fade, None);
        assert!(!action.update_cursor);
    }
}

#[test]
fn other_events_do_nothing() {
    let mut state = FocusState::new(false, true);
    assert_eq!(
        state.handle_pointer_event(PointerEvent::Other),
        PointerAction {
            update_cursor: false,
            start_fade: None,
        }
    );
    assert_eq!(state, FocusState::new(false, true));
}

#[test]
fn player_slots_are_made_in_order() {
    let mut storage = UniformStorage::new(2);
    let slots = UniformSlots::new(
        &mut storage,
        vec![0, NO_LOCATION],
        vec![NO_LOCATION, NO_LOCATION],
        vec![2, 3],
    )
    .unwrap();
    assert_eq!(slots.cursor_pos.index(), 0);
    assert!(slots.viewport_dims.is_null());
    assert_eq!(slots.focus_fade.index(), 1);
    // asking again finds the same slots
    let again = UniformSlots::new(&mut storage, vec![0, NO_LOCATION], vec![NO_LOCATION, 5], vec![2, 3]).unwrap();
    assert_eq!(again.cursor_pos.index(), 0);
    assert_eq!(again.focus_fade.index(), 1);
    assert_eq!(again.viewport_dims.index(), 2);
    let fade: SlotHandle<f32> = storage.slot("focus_fade".to_owned(), UniformKind::F32, vec![]).unwrap();
    assert_eq!(fade.index(), 1);
}
