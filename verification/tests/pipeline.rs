use hypatia::fade::FadeDirection;
use hypatia::pipeline::{
    render_target, texture_uniform_names, texture_unit_slots, FocusBehavior, RenderTarget,
    RenderUpdate, Scaling,
};
use hypatia::uniforms::{UniformKind, NO_LOCATION};

#[test]
fn scaling_defaults_to_crop() {
    assert_eq!(Scaling::default(), Scaling::CropToFit);
    assert_eq!(RenderUpdate, RenderUpdate);
}

#[test]
fn pause_requests() {
    let pausing = FocusBehavior { pause: true };
    let playing = FocusBehavior { pause: false };
    assert_eq!(pausing.pause_request(FadeDirection::Out, true), Some(true));
    assert_eq!(pausing.pause_request(FadeDirection::Out, false), None);
    assert_eq!(playing.pause_request(FadeDirection::Out, true), None);
    assert_eq!(pausing.pause_request(FadeDirection::In, false), Some(false));
    assert_eq!(playing.pause_request(FadeDirection::In, true), Some(false));
}

#[test]
fn uniform_names_of_texture_units() {
    let outputs = vec!["bloom_buffer".to_owned(), "buffer2_electric_boogaloo".to_owned()];
    let names = texture_uniform_names(12, &outputs);
    assert_eq!(names.len(), 14);
    assert_eq!(names[0], "texture_0");
    assert_eq!(names[7], "texture_7");
    assert_eq!(names[10], "texture_10");
    assert_eq!(names[11], "texture_11");
    assert_eq!(names[12], "bloom_buffer");
    assert_eq!(names[13], "buffer2_electric_boogaloo");
    assert!(texture_uniform_names(0, &vec![]).is_empty());
}

#[test]
fn texture_units_get_their_index() {
    let names = texture_uniform_names(2, &vec!["out".to_owned()]);
    // two programs; texture_1 is used by neither
    let locations = vec![vec![3, NO_LOCATION], vec![NO_LOCATION, NO_LOCATION], vec![NO_LOCATION, 7]];
    let (storage, handles) = texture_unit_slots(2, names, locations);
    assert_eq!(handles.len(), 3);
    assert!(!handles[0].is_null());
    assert!(handles[1].is_null());
    assert!(!handles[2].is_null());
    // unit 0 keeps the zero it started with; unit 2 was written
    assert!(storage.is_dirty());
    let first = storage.flush_nth(0);
    assert!(first.is_empty());
    let second = storage.flush_nth(1);
    assert_eq!(second.len(), 1);
    assert_eq!(second[0].0, 7);
    assert_eq!(second[0].1.kind, UniformKind::I32);
    assert_eq!(second[0].1.scalars[0], 2);
}

#[test]
fn repeated_names_share_a_slot_holding_the_last_index() {
    let names = vec!["a".to_owned(), "b".to_owned(), "a".to_owned()];
    let locations = vec![vec![1], vec![2], vec![1]];
    let (storage, handles) = texture_unit_slots(1, names, locations);
    assert_eq!(handles[0].index(), handles[2].index());
    assert_ne!(handles[0].index(), handles[1].index());
    let writes = storage.flush_nth(0);
    assert_eq!(writes.len(), 2);
    assert_eq!((writes[0].0, writes[0].1.scalars[0]), (1, 2));
    assert_eq!((writes[1].0, writes[1].1.scalars[0]), (2, 1));
}

#[test]
fn unused_units_stay_null_until_a_program_uses_their_name() {
    let names = vec!["a".to_owned(), "a".to_owned(), "b".to_owned()];
    let locations = vec![vec![NO_LOCATION], vec![5], vec![NO_LOCATION]];
    let (storage, handles) = texture_unit_slots(1, names, locations);
    assert!(handles[0].is_null());
    assert!(!handles[1].is_null());
    assert!(handles[2].is_null());
    assert_eq!(storage.flush_nth(0).len(), 1);
    assert_eq!(storage.flush_nth(0)[0].0, 5);
    assert_eq!(storage.flush_nth(0)[0].1.scalars[0], 1);
}

#[test]
fn slots_are_created_in_unit_order() {
    let names = vec!["x".to_owned(), "y".to_owned(), "x".to_owned(), "z".to_owned()];
    let locations = vec![vec![NO_LOCATION], vec![1], vec![2], vec![3]];
    let (_, handles) = texture_unit_slots(1, names, locations);
    assert!(handles[0].is_null());
    assert_eq!(handles[1].index(), 0);
    assert_eq!(handles[2].index(), 1);
    assert_eq!(handles[3].index(), 2);
}

#[test]
fn stages_draw_into_their_target() {
    assert_eq!(
        render_target(Some((960, 540)), true, (1920, 1080)),
        (RenderTarget::Own, (960, 540))
    );
    assert_eq!(
        render_target(None, true, (1920, 1080)),
        (RenderTarget::Final, (1920, 1080))
    );
    assert_eq!(
        render_target(None, false, (1920, 1080)),
        (RenderTarget::Default, (1920, 1080))
    );
}

#[test]
fn only_unscaled_videos_wait_for_their_size() {
    assert!(Scaling::CropToFit.needs_display_framebuffer());
    assert!(Scaling::Stretch.needs_display_framebuffer());
    assert!(!Scaling::Unscaled.needs_display_framebuffer());
}
