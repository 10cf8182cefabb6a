//! The arena of a frame's paint callbacks.
//!
//! Paint jobs and draw commands name a callback by its position in the
//! arena. The callbacks themselves are opaque to this crate: whoever owns the
//! arena decides what they are and how they are invoked.

use crate::draw::{CallbackHandle, PaintCallback};
use crate::rect::ViewportInPixels;
use vstd::prelude::*;

verus! {

/// Holds the paint callbacks that were registered, in their order.
#[derive(Debug)]
pub struct PaintCallbackRegistry<T> {
    callbacks: Vec<T>,
}

impl<T> View for PaintCallbackRegistry<T> {
    type V = Seq<T>;

    closed spec fn view(&self) -> Seq<T> {
        self.callbacks@
    }
}

impl<T> PaintCallbackRegistry<T> {
    /// An arena without callbacks.
    pub fn new() -> (r: Self)
        ensures
            r@ == Seq::<T>::empty(),
    {
        PaintCallbackRegistry { callbacks: Vec::new() }
    }

    /// Number of registered callbacks.
    pub fn len(&self) -> (n: usize)
        ensures
            n == self@.len(),
    {
        self.callbacks.len()
    }

    /// Registers a callback and returns the handle that names it from now
    /// on. Handles given out before stay valid.
    pub fn register(&mut self, callback: T) -> (handle: CallbackHandle)
        ensures
            final(self)@ == old(self)@.push(callback),
            handle.index == old(self)@.len(),
    {
        let index = self.callbacks.len();
        self.callbacks.push(callback);
        CallbackHandle { index }
    }

    /// Registers a callback that paints into `rect` and returns the paint
    /// job payload that refers to it.
    pub fn new_paint_callback(&mut self, rect: ViewportInPixels, callback: T) -> (r: PaintCallback)
        ensures
            final(self)@ == old(self)@.push(callback),
            r.rect == rect,
            r.callback == Some(CallbackHandle { index: old(self)@.len() as usize }),
    {
        let handle = self.register(callback);
        PaintCallback { rect, callback: Some(handle) }
    }

    /// The callback that a handle names, or `None` for a handle that this
    /// arena did not give out.
    pub fn get(&self, handle: CallbackHandle) -> (r: Option<&T>)
        ensures
            match r {
                Some(callback) => handle.index < self@.len() && *callback
                    == self@[handle.index as int],
                None => handle.index >= self@.len(),
            },
    {
        if handle.index < self.callbacks.len() {
            Some(&self.callbacks[handle.index])
        } else {
            None
        }
    }

    /// Drops all callbacks. Handles given out before name nothing any more.
    pub fn clear(&mut self)
        ensures
            final(self)@ == Seq::<T>::empty(),
    {
        self.callbacks.clear();
    }
}

} // verus!
