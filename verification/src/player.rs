//! How the wallpaper player answers the pointer: whether the wallpaper has focus, which
//! focus fade to start, and whether the cursor position goes to the shaders.
use vstd::prelude::*;
use crate::fade::FadeDirection;
use crate::uniforms::{spec_slot_result, SlotError, SlotHandle, UniformKind, UniformStorage};
use vstd::string::*;

verus! {

/// The pointer events that the player tells apart.
#[derive(Clone, Copy, Debug, PartialEq, Eq, Structural)]
pub enum PointerEvent {
    /// The pointer moved over the wallpaper.
    Motion,
    /// The pointer entered the wallpaper.
    Enter,
    /// The pointer left the wallpaper.
    Leave,
    /// Any other pointer event.
    Other,
}

/// The player's focus state.
#[derive(Clone, Copy, Debug, PartialEq, Eq, Structural)]
pub struct FocusState {
    /// Whether the pointer is over the wallpaper.
    pub focused: bool,
    /// Whether the focus is fixed to one value, so that no fade ever runs.
    pub fixed_focus: bool,
    /// Whether the cursor position is passed on to the shaders.
    pub propagate_mouse: bool,
}

/// What the player does for a pointer event.
#[derive(Clone, Copy, Debug, PartialEq, Eq, Structural)]
pub struct PointerAction {
    /// Whether the cursor position in the event goes to the shaders.
    pub update_cursor: bool,
    /// The focus fade to start, if any.
    pub start_fade: Option<FadeDirection>,
}

/// The fade that a change of focus starts, unless the focus is fixed.
pub open spec fn spec_fade_for(s: FocusState, direction: FadeDirection) -> Option<FadeDirection> {
    if s.fixed_focus {
        None
    } else {
        Some(direction)
    }
}

/// The state after a pointer event, and what the player does for it: entering an
/// unfocused wallpaper fades it in and leaving a focused one fades it out; motion and
/// entering move the cursor when the cursor is passed on.
pub open spec fn spec_pointer(s: FocusState, e: PointerEvent) -> (FocusState, PointerAction) {
    match e {
        PointerEvent::Motion => (s, PointerAction { update_cursor: s.propagate_mouse, start_fade: None }),
        PointerEvent::Enter => (
            FocusState { focused: true, ..s },
            PointerAction {
                update_cursor: s.propagate_mouse,
                start_fade: if !s.focused { spec_fade_for(s, FadeDirection::In) } else { None },
            },
        ),
        PointerEvent::Leave => (
            FocusState { focused: false, ..s },
            PointerAction {
                update_cursor: false,
                start_fade: if s.focused { spec_fade_for(s, FadeDirection::Out) } else { None },
            },
        ),
        PointerEvent::Other => (s, PointerAction { update_cursor: false, start_fade: None }),
    }
}

impl FocusState {
    /// The state of a player that starts without focus.
    pub fn new(fixed_focus: bool, propagate_mouse: bool) -> (r: Self)
        ensures
            r == (FocusState { focused: false, fixed_focus, propagate_mouse }),
    {
        FocusState { focused: false, fixed_focus, propagate_mouse }
    }

    /// The fade to start in `direction`, unless the focus is fixed.
    fn fade_for(&self, direction: FadeDirection) -> (r: Option<FadeDirection>)
        ensures
            r == spec_fade_for(*self, direction),
    {
        if self.fixed_focus {
            None
        } else {
            Some(direction)
        }
    }

    /// Handles a pointer event; see `spec_pointer`.
    pub fn handle_pointer_event(&mut self, event: PointerEvent) -> (r: PointerAction)
        ensures
            (*final(self), r) == spec_pointer(*old(self), event),
    {
        match event {
            PointerEvent::Motion => PointerAction { update_cursor: self.propagate_mouse, start_fade: None },
            PointerEvent::Enter => {
                let start_fade = if !self.focused { self.fade_for(FadeDirection::In) } else { None };
                self.focused = true;
                PointerAction { update_cursor: self.propagate_mouse, start_fade }
            },
            PointerEvent::Leave => {
                let start_fade = if self.focused { self.fade_for(FadeDirection::Out) } else { None };
                self.focused = false;
                PointerAction { update_cursor: false, start_fade }
            },
            PointerEvent::Other => PointerAction { update_cursor: false, start_fade: None },
        }
    }
}

/// The handles of the uniforms that the player writes itself: the cursor position and the
/// viewport size, each two 32-bit floats, and the focus fade, one 32-bit float. Each handle
/// is tagged by the bit layout of its value.
pub struct UniformSlots {
    pub cursor_pos: SlotHandle<[u32; 2]>,
    pub viewport_dims: SlotHandle<[u32; 2]>,
    pub focus_fade: SlotHandle<u32>,
}

impl UniformSlots {
    /// Asks the storage for the player's slots, in the order cursor position, viewport
    /// size, focus fade, each with its locations in the programs; the first request that
    /// fails ends it with its error. See `spec_slot_result` for each request.
    pub fn new(
        uniforms: &mut UniformStorage,
        cursor_pos: Vec<u32>,
        viewport_dims: Vec<u32>,
        focus_fade: Vec<u32>,
    ) -> (r: Result<Self, SlotError>)
        requires
            old(uniforms).wf(),
            old(uniforms)@.slots.len() + 3 <= usize::MAX / 8,
        ensures
            final(uniforms).wf(),
            ({
                let s1 = spec_slot_result(old(uniforms)@, "cursor_pos"@, UniformKind::Vec2, cursor_pos@);
                let s2 = spec_slot_result(s1.0, "viewport_dims"@, UniformKind::Vec2, viewport_dims@);
                let s3 = spec_slot_result(s2.0, "focus_fade"@, UniformKind::F32, focus_fade@);
                match s1.1 {
                    Err(e) => r == Err::<Self, SlotError>(e) && final(uniforms)@ == s1.0,
                    Ok(h1) => match s2.1 {
                        Err(e) => r == Err::<Self, SlotError>(e) && final(uniforms)@ == s2.0,
                        Ok(h2) => match s3.1 {
                            Err(e) => r == Err::<Self, SlotError>(e) && final(uniforms)@ == s3.0,
                            Ok(h3) => {
                                &&& final(uniforms)@ == s3.0
                                &&& r matches Ok(u) && u.cursor_pos.spec_index() == h1
                                    && u.viewport_dims.spec_index() == h2 && u.focus_fade.spec_index() == h3
                            },
                        },
                    },
                }
            }),
    {
        let cursor = uniforms.slot::<[u32; 2]>(String::from_str("cursor_pos"), UniformKind::Vec2, cursor_pos);
        let cursor = match cursor {
            Ok(h) => h,
            Err(e) => return Err(e),
        };
        let viewport = uniforms.slot::<[u32; 2]>(
            String::from_str("viewport_dims"),
            UniformKind::Vec2,
            viewport_dims,
        );
        let viewport = match viewport {
            Ok(h) => h,
            Err(e) => return Err(e),
        };
        let fade = uniforms.slot::<u32>(String::from_str("focus_fade"), UniformKind::F32, focus_fade);
        let fade = match fade {
            Ok(h) => h,
            Err(e) => return Err(e),
        };
        Ok(UniformSlots { cursor_pos: cursor, viewport_dims: viewport, focus_fade: fade })
    }
}

/// After an `Enter` the wallpaper has focus and after a `Leave` it has none, whatever came
/// before; no other event changes the focus.
pub proof fn law_focus_follows_pointer(s: FocusState, e: PointerEvent)
    ensures
        e == PointerEvent::Enter ==> spec_pointer(s, e).0.focused,
        e == PointerEvent::Leave ==> !spec_pointer(s, e).0.focused,
        (e == PointerEvent::Motion || e == PointerEvent::Other) ==> spec_pointer(s, e).0 == s,
        spec_pointer(s, e).0.fixed_focus == s.fixed_focus,
        spec_pointer(s, e).0.propagate_mouse == s.propagate_mouse,
{
}

/// Entering a wallpaper that already has focus starts no second fade in, and leaving one
/// that has none starts no fade out.
pub proof fn law_no_repeated_fade(s: FocusState)
    ensures
        spec_pointer(spec_pointer(s, PointerEvent::Enter).0, PointerEvent::Enter).1.start_fade is None,
        spec_pointer(spec_pointer(s, PointerEvent::Leave).0, PointerEvent::Leave).1.start_fade is None,
{
}

/// Entering and then leaving an unfocused wallpaper with free focus fades it in and then
/// out, and brings the player back to its first state.
pub proof fn law_enter_leave_round_trip(s: FocusState)
    requires
        !s.focused,
        !s.fixed_focus,
    ensures
        spec_pointer(s, PointerEvent::Enter).1.start_fade == Some(FadeDirection::In),
        spec_pointer(spec_pointer(s, PointerEvent::Enter).0, PointerEvent::Leave).1.start_fade == Some(
            FadeDirection::Out,
        ),
        spec_pointer(spec_pointer(s, PointerEvent::Enter).0, PointerEvent::Leave).0 == s,
{
}

/// With a fixed focus no pointer event ever starts a fade.
pub proof fn law_fixed_focus_never_fades(s: FocusState, e: PointerEvent)
    requires
        s.fixed_focus,
    ensures
        spec_pointer(s, e).1.start_fade is None,
{
}

} // verus!
