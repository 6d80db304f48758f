use hypatia::uniforms::{
    SlotError, SlotHandle, StoreError, UniformKind, UniformSlot, UniformStorage, UniformValue,
    NO_LOCATION,
};

fn ints_equal(a: &UniformValue, b: &UniformValue) -> bool {
    a.bits_equal(b)
}

fn f32_value(x: f32) -> UniformValue {
    let mut v = UniformValue::zeroed(UniformKind::F32);
    v.scalars[0] = x.to_bits();
    v
}

fn float_equal(a: &UniformValue, b: &UniformValue) -> bool {
    a.kind == b.kind && f32::from_bits(a.scalars[0]) == f32::from_bits(b.scalars[0])
}

#[test]
fn zeroed_values_and_slots() {
    let v = UniformValue::zeroed(UniformKind::Mat4);
    assert_eq!(v.kind, UniformKind::Mat4);
    assert!(v.scalars.iter().all(|x| *x == 0));
    assert_eq!(UniformKind::Mat3.scalar_count(), 9);
    assert_eq!(UniformKind::IVec3.scalar_count(), 3);
    let mut slot = UniformSlot::zeroed(UniformKind::Vec2, 3);
    assert_eq!(slot.current().kind, UniformKind::Vec2);
    slot.current().scalars[1] = 9;
    assert_eq!(slot.current().scalars[1], 9);
}

#[test]
fn unused_names_give_null_handles() {
    let mut storage = UniformStorage::new(2);
    let h: SlotHandle<f32> = storage
        .slot("nothing".to_owned(), UniformKind::F32, vec![NO_LOCATION, NO_LOCATION])
        .unwrap();
    assert!(h.is_null());
    // writing to a null handle does nothing
    storage.write_slot(h, f32_value(1.0), float_equal);
    assert!(!storage.is_dirty());
    assert!(storage.flush_nth(0).is_empty());
}

#[test]
fn same_name_same_slot() {
    let mut storage = UniformStorage::new(1);
    let a: SlotHandle<f32> = storage.slot("focus_fade".to_owned(), UniformKind::F32, vec![4]).unwrap();
    let b: SlotHandle<f32> = storage.slot("cursor_pos".to_owned(), UniformKind::Vec2, vec![5]).unwrap();
    let c: SlotHandle<f32> = storage.slot("focus_fade".to_owned(), UniformKind::F32, vec![9]).unwrap();
    assert!(!a.is_null());
    assert_eq!(a.index(), c.index());
    assert_ne!(a.index(), b.index());
    let copy = a;
    assert_eq!(copy.clone().index(), a.index());
}

#[test]
fn written_values_are_flushed_once() {
    let mut storage = UniformStorage::new(2);
    let fade: SlotHandle<f32> = storage
        .slot("focus_fade".to_owned(), UniformKind::F32, vec![4, NO_LOCATION])
        .unwrap();
    assert!(!storage.is_dirty());
    storage.write_slot(fade, f32_value(0.5), float_equal);
    assert!(storage.is_dirty());
    let writes = storage.flush_nth(0);
    assert_eq!(writes.len(), 1);
    assert_eq!(writes[0].0, 4);
    assert_eq!(writes[0].1, f32_value(0.5));
    // the second program lacks the uniform
    assert!(storage.flush_nth(1).is_empty());
    storage.finish_flush();
    assert!(!storage.is_dirty());
    assert!(storage.flush_nth(0).is_empty());
    // writing an equal value marks nothing
    storage.write_slot(fade, f32_value(0.5), float_equal);
    assert!(!storage.is_dirty());
}

#[test]
fn wrong_kind_is_refused() {
    let mut storage = UniformStorage::new(1);
    let h: SlotHandle<i32> = storage.slot("texture_0".to_owned(), UniformKind::I32, vec![0]).unwrap();
    assert_eq!(
        storage.write_slot_erased(h.index(), f32_value(1.0), float_equal),
        Err(StoreError::WrongType {
            expected: UniformKind::I32
        })
    );
    assert!(!storage.is_dirty());
    // an index with no slot is ignored
    assert_eq!(storage.write_slot_erased(7, f32_value(1.0), float_equal), Ok(()));
    let mut one = UniformValue::zeroed(UniformKind::I32);
    one.scalars[0] = 1;
    assert_eq!(storage.write_slot_erased(h.index(), one, ints_equal), Ok(()));
    assert_eq!(storage.flush_nth(0), vec![(0, one)]);
}

#[test]
fn slot_error_is_overflow() {
    assert_eq!(SlotError::Overflow, SlotError::Overflow);
}

#[test]
fn flushing_a_missing_program_writes_nothing() {
    let mut storage = UniformStorage::new(1);
    let fade: SlotHandle<f32> = storage.slot("focus_fade".to_owned(), UniformKind::F32, vec![4]).unwrap();
    storage.write_slot(fade, f32_value(0.25), float_equal);
    assert!(storage.is_dirty());
    assert_eq!(storage.flush_nth(0).len(), 1);
    assert!(storage.flush_nth(1).is_empty());
    assert!(storage.flush_nth(usize::MAX).is_empty());
}
