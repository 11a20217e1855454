//! The window's own state: pointer position, deferred events, back/forward
//! availability, pending connectivity checks and the close control's label.
use vstd::prelude::*;
use crate::events::DeferredSlot;
use crate::input::{key_scroll, to_key_scroll, to_scroll, wheel_scroll, Key, KeyModifiers, ScrollDirection, ScrollEvent};
use crate::navigation::{can_go_back, can_go_forward, HistorySnapshot};

verus! {

/// State of the login window that the host callbacks read and change; all of
/// it lives on the UI thread.
pub struct Window {
    /// Last pointer position over the drawing surface.
    pub pointer: (i32, i32),
    /// The event that waits for the next wake of the main loop.
    pub deferred: DeferredSlot<ScrollEvent>,
    /// Whether the back action is enabled.
    pub back_enabled: bool,
    /// Whether the forward action is enabled.
    pub forward_enabled: bool,
    /// Check requests not yet handed to the connectivity poller, oldest first.
    pub check_requests: Vec<bool>,
    /// Whether the close control shows that the login is finished.
    pub finished: bool,
}

impl Window {
    /// A window with no history, no pending event or request, pointer at the
    /// origin, not finished.
    pub fn new() -> (r: Window)
        ensures
            r.pointer == (0i32, 0i32),
            r.deferred@ is None,
            !r.back_enabled,
            !r.forward_enabled,
            r.check_requests@ == Seq::<bool>::empty(),
            !r.finished,
    {
        Window {
            pointer: (0, 0),
            deferred: DeferredSlot::new(),
            back_enabled: false,
            forward_enabled: false,
            check_requests: Vec::new(),
            finished: false,
        }
    }

    /// Records the pointer position.
    pub fn set_pointer(&mut self, x: i32, y: i32)
        ensures
            final(self).pointer == (x, y),
            final(self).deferred@ == old(self).deferred@,
            final(self).check_requests@ == old(self).check_requests@,
            final(self).back_enabled == old(self).back_enabled,
            final(self).forward_enabled == old(self).forward_enabled,
            final(self).finished == old(self).finished,
    {
        self.pointer = (x, y);
    }

    /// Asks the poller to check connectivity once more.
    pub fn maybe_change_close_button(&mut self)
        ensures
            final(self).check_requests@ == old(self).check_requests@.push(true),
            final(self).pointer == old(self).pointer,
            final(self).deferred@ == old(self).deferred@,
            final(self).back_enabled == old(self).back_enabled,
            final(self).forward_enabled == old(self).forward_enabled,
            final(self).finished == old(self).finished,
    {
        self.check_requests.push(true);
    }

    /// A page finished loading: that is only a reason to check connectivity
    /// again, not a proof of it.
    pub fn load_end(&mut self)
        ensures
            final(self).check_requests@ == old(self).check_requests@.push(true),
            final(self).pointer == old(self).pointer,
            final(self).deferred@ == old(self).deferred@,
            final(self).back_enabled == old(self).back_enabled,
            final(self).forward_enabled == old(self).forward_enabled,
            final(self).finished == old(self).finished,
    {
        self.maybe_change_close_button();
    }

    /// Hands over the pending check requests, oldest first.
    pub fn take_check_requests(&mut self) -> (r: Vec<bool>)
        ensures
            r@ == old(self).check_requests@,
            final(self).check_requests@ == Seq::<bool>::empty(),
            final(self).pointer == old(self).pointer,
            final(self).deferred@ == old(self).deferred@,
            final(self).back_enabled == old(self).back_enabled,
            final(self).forward_enabled == old(self).forward_enabled,
            final(self).finished == old(self).finished,
    {
        let mut r: Vec<bool> = Vec::new();
        std::mem::swap(&mut r, &mut self.check_requests);
        r
    }

    /// The poller confirmed connectivity: the close control shows "finished".
    /// Confirming again changes nothing more.
    pub fn confirm_connectivity(&mut self)
        ensures
            final(self).finished,
            final(self).pointer == old(self).pointer,
            final(self).deferred@ == old(self).deferred@,
            final(self).check_requests@ == old(self).check_requests@,
            final(self).back_enabled == old(self).back_enabled,
            final(self).forward_enabled == old(self).forward_enabled,
    {
        self.finished = true;
    }

    /// The engine's history changed: back/forward availability follows the new
    /// snapshot alone.
    pub fn history_changed(&mut self, snapshot: &HistorySnapshot)
        ensures
            final(self).back_enabled == can_go_back(snapshot.entries@.len(), snapshot.current as nat),
            final(self).forward_enabled == can_go_forward(snapshot.entries@.len(), snapshot.current as nat),
            final(self).pointer == old(self).pointer,
            final(self).deferred@ == old(self).deferred@,
            final(self).check_requests@ == old(self).check_requests@,
            final(self).finished == old(self).finished,
    {
        self.back_enabled = snapshot.back_enabled();
        self.forward_enabled = snapshot.forward_enabled();
    }

    /// A key event from the engine: the bare arrow keys scroll at the pointer,
    /// through the deferred slot, so the scroll reaches the engine on the next
    /// wake; other keys leave the window as it was.
    pub fn handle_key(&mut self, ch: Option<char>, key: Key, mods: KeyModifiers)
        ensures
            final(self).deferred@ == (match key_scroll(ch, key, mods, old(self).pointer.0, old(self).pointer.1) {
                Some(e) => Some(e),
                None => old(self).deferred@,
            }),
            final(self).pointer == old(self).pointer,
            final(self).check_requests@ == old(self).check_requests@,
            final(self).back_enabled == old(self).back_enabled,
            final(self).forward_enabled == old(self).forward_enabled,
            final(self).finished == old(self).finished,
    {
        match to_key_scroll(ch, key, mods, self.pointer.0, self.pointer.1) {
            Some(e) => self.deferred.put(e),
            None => {},
        }
    }

    /// The engine scroll for a native wheel event at the current pointer.
    pub fn wheel(&self, mask: u32, dir: ScrollDirection) -> (r: Option<ScrollEvent>)
        ensures
            r == wheel_scroll(mask, dir, self.pointer.0, self.pointer.1),
    {
        to_scroll(mask, dir, self.pointer.0, self.pointer.1)
    }

    /// One wake of the main loop: an empty batch that flushes the engine's
    /// queue, then the deferred event, if any; the slot is empty afterwards.
    pub fn wake(&mut self) -> (r: Vec<Vec<ScrollEvent>>)
        ensures
            final(self).deferred@ is None,
            r@.len() == (if old(self).deferred@ is Some { 2int } else { 1int }),
            r@[0]@ == Seq::<ScrollEvent>::empty(),
            forall|e: ScrollEvent| old(self).deferred@ == Some(e) ==> r@[1]@ == seq![e],
            final(self).pointer == old(self).pointer,
            final(self).check_requests@ == old(self).check_requests@,
            final(self).back_enabled == old(self).back_enabled,
            final(self).forward_enabled == old(self).forward_enabled,
            final(self).finished == old(self).finished,
    {
        self.deferred.wake()
    }
}

/// The size in device pixels of a surface of `width` by `height` logical
/// pixels at scale `factor`.
pub fn framebuffer_size(factor: u32, width: u32, height: u32) -> (r: (u32, u32))
    requires
        factor * width <= u32::MAX,
        factor * height <= u32::MAX,
    ensures
        r.0 == factor * width,
        r.1 == factor * height,
{
    (factor * width, factor * height)
}

/// The title shown for a page: its title, or nothing when it has none.
pub fn page_title(title: Option<String>) -> (r: String)
    ensures
        r@ == (match title {
            Some(t) => t@,
            None => Seq::<char>::empty(),
        }),
{
    match title {
        Some(t) => t,
        None => String::new(),
    }
}

} // verus!
