//! Scrollers for ASCII text: one that borrows a static message and one that
//! keeps a copy of up to 128 bytes.
//!
//! ```ignore
//! let mut scroller = ScrollingStaticText::default();
//! scroller.set_message(b"Hello, world!");
//! while !scroller.is_finished() {
//!     // every 50ms or so
//!     scroller.tick();
//!     frame.set(&scroller);
//!     display.set_frame(&frame);
//! }
//! ```
use vstd::prelude::*;
use crate::font::{character, glyph};
use crate::image::BitImage;
use crate::scrolling::{brightness, brightness_of, ScrollingState};

verus! {

/// The most bytes that a `ScrollingBufferedText` can hold.
pub const BUFFER_CAPACITY: usize = 128;

/// A scroller that shows a static ASCII byte string, without copying it.
#[derive(Clone, Copy)]
pub struct ScrollingStaticText {
    message: &'static [u8],
    state: ScrollingState,
}

impl ScrollingStaticText {
    /// The animation state is reachable for the message.
    #[verifier::type_invariant]
    spec fn inv(self) -> bool {
        self.state.wf(self.message@.len())
    }

    /// The message being shown.
    pub closed spec fn message(&self) -> Seq<u8> {
        self.message@
    }

    /// How far the animation has got.
    pub closed spec fn progress(&self) -> ScrollingState {
        self.state
    }

    /// A scroller with an empty message, whose animation has therefore ended.
    pub fn new() -> (r: ScrollingStaticText)
        ensures
            r.message() == Seq::<u8>::empty(),
            r.progress() == ScrollingState::start(),
    {
        ScrollingStaticText { message: &[], state: ScrollingState::new() }
    }

    /// Sets the message to show and restarts the animation.
    pub fn set_message(&mut self, message: &'static [u8])
        ensures
            final(self).message() == message@,
            final(self).progress() == ScrollingState::start(),
    {
        *self = ScrollingStaticText { message, state: ScrollingState::new() };
    }

    /// The number of bytes of the message.
    pub fn length(&self) -> (r: usize)
        ensures
            r == self.message().len(),
    {
        self.message.len()
    }

    /// How far the animation has got.
    pub fn state(&self) -> (r: &ScrollingState)
        ensures
            *r == self.progress(),
            r.wf(self.message().len()),
    {
        proof {
            use_type_invariant(self);
        }
        &self.state
    }

    /// The glyph of the byte at `index` of the message.
    pub fn subimage(&self, index: usize) -> (r: BitImage)
        requires
            index < self.message().len(),
        ensures
            r == glyph(self.message()[index as int]),
    {
        character(self.message[index])
    }

    /// Restarts the animation.
    pub fn reset(&mut self)
        ensures
            final(self).message() == old(self).message(),
            final(self).progress() == ScrollingState::start(),
    {
        self.state = ScrollingState::new();
    }

    /// Whether the whole message has scrolled past.
    pub fn is_finished(&self) -> (r: bool)
        ensures
            r == self.progress().finished(self.message().len()),
    {
        self.state.is_finished(self.message.len())
    }

    /// Moves the text one step further; does nothing once the animation has ended.
    pub fn tick(&mut self)
        ensures
            final(self).message() == old(self).message(),
            final(self).progress() == old(self).progress().next(old(self).message().len()),
    {
        proof {
            use_type_invariant(&*self);
        }
        let mut state = self.state;
        state.tick(self.message.len());
        self.state = state;
    }

    /// The brightness of screen pixel (`x`, `y`) at the current state of the animation.
    pub fn current_brightness_at(&self, x: usize, y: usize) -> (r: u8)
        ensures
            r == brightness(self.progress(), self.message(), x as int, y as int),
    {
        proof {
            use_type_invariant(self);
        }
        let r = brightness_of(&self.state, self.message, self.message.len(), x, y);
        assert(self.message@.subrange(0, self.message@.len() as int) =~= self.message@);
        r
    }
}

impl Default for ScrollingStaticText {
    fn default() -> (r: ScrollingStaticText)
        ensures
            r.message() == Seq::<u8>::empty(),
            r.progress() == ScrollingState::start(),
    {
        ScrollingStaticText::new()
    }
}

impl tiny_led_matrix::Render for ScrollingStaticText {
    fn brightness_at(&self, x: usize, y: usize) -> (r: u8)
        ensures
            r == brightness(self.progress(), self.message(), x as int, y as int),
    {
        self.current_brightness_at(x, y)
    }
}

/// A scroller that shows a copy of an ASCII byte string of at most
/// `BUFFER_CAPACITY` bytes, kept in a buffer of its own.
#[derive(Clone, Copy)]
pub struct ScrollingBufferedText {
    length: usize,
    message: [u8; 128],
    state: ScrollingState,
}

impl ScrollingBufferedText {
    /// The message fits the buffer and the animation state is reachable for it.
    #[verifier::type_invariant]
    spec fn inv(self) -> bool {
        &&& self.length <= BUFFER_CAPACITY
        &&& self.state.wf(self.length as nat)
    }

    /// The message being shown: the first `length` bytes of the buffer.
    pub closed spec fn message(&self) -> Seq<u8> {
        self.message@.subrange(0, self.length as int)
    }

    /// How far the animation has got.
    pub closed spec fn progress(&self) -> ScrollingState {
        self.state
    }

    /// A scroller with an empty message, whose animation has therefore ended.
    pub fn new() -> (r: ScrollingBufferedText)
        ensures
            r.message() == Seq::<u8>::empty(),
            r.progress() == ScrollingState::start(),
    {
        let r = ScrollingBufferedText { length: 0, message: [0u8; 128], state: ScrollingState::new() };
        assert(r.message@.subrange(0, 0) =~= Seq::<u8>::empty());
        r
    }

    /// Copies `message` into the buffer to show it, and restarts the animation.
    ///
    /// A message longer than `BUFFER_CAPACITY` bytes is a contract violation:
    /// callers check the length first.
    pub fn set_message(&mut self, message: &[u8])
        requires
            message@.len() <= BUFFER_CAPACITY,
        ensures
            final(self).message() == message@,
            final(self).progress() == ScrollingState::start(),
    {
        let mut buffer: [u8; 128] = self.message;
        let length: usize = message.len();
        let mut i: usize = 0;
        while i < length
            invariant
                length == message@.len(),
                length <= BUFFER_CAPACITY,
                i <= length,
                buffer@.len() == BUFFER_CAPACITY,
                buffer@.subrange(0, i as int) =~= message@.subrange(0, i as int),
            decreases length - i,
        {
            buffer[i] = message[i];
            i = i + 1;
        }
        assert(message@.subrange(0, length as int) =~= message@);
        *self = ScrollingBufferedText { length, message: buffer, state: ScrollingState::new() };
    }

    /// The number of bytes of the message, at most `BUFFER_CAPACITY`.
    pub fn length(&self) -> (r: usize)
        ensures
            r == self.message().len(),
            r <= BUFFER_CAPACITY,
    {
        proof {
            use_type_invariant(self);
        }
        self.length
    }

    /// How far the animation has got.
    pub fn state(&self) -> (r: &ScrollingState)
        ensures
            *r == self.progress(),
            r.wf(self.message().len()),
    {
        proof {
            use_type_invariant(self);
        }
        &self.state
    }

    /// The glyph of the byte at `index` of the message.
    pub fn subimage(&self, index: usize) -> (r: BitImage)
        requires
            index < self.message().len(),
        ensures
            r == glyph(self.message()[index as int]),
    {
        proof {
            use_type_invariant(self);
        }
        character(self.message[index])
    }

    /// Restarts the animation.
    pub fn reset(&mut self)
        ensures
            final(self).message() == old(self).message(),
            final(self).progress() == ScrollingState::start(),
    {
        proof {
            use_type_invariant(&*self);
        }
        self.state = ScrollingState::new();
    }

    /// Whether the whole message has scrolled past.
    pub fn is_finished(&self) -> (r: bool)
        ensures
            r == self.progress().finished(self.message().len()),
    {
        proof {
            use_type_invariant(self);
        }
        self.state.is_finished(self.length)
    }

    /// Moves the text one step further; does nothing once the animation has ended.
    pub fn tick(&mut self)
        ensures
            final(self).message() == old(self).message(),
            final(self).progress() == old(self).progress().next(old(self).message().len()),
    {
        proof {
            use_type_invariant(&*self);
        }
        let mut state = self.state;
        state.tick(self.length);
        self.state = state;
    }

    /// The brightness of screen pixel (`x`, `y`) at the current state of the animation.
    pub fn current_brightness_at(&self, x: usize, y: usize) -> (r: u8)
        ensures
            r == brightness(self.progress(), self.message(), x as int, y as int),
    {
        proof {
            use_type_invariant(self);
        }
        brightness_of(&self.state, &self.message, self.length, x, y)
    }
}

impl Default for ScrollingBufferedText {
    fn default() -> (r: ScrollingBufferedText)
        ensures
            r.message() == Seq::<u8>::empty(),
            r.progress() == ScrollingState::start(),
    {
        ScrollingBufferedText::new()
    }
}

impl tiny_led_matrix::Render for ScrollingBufferedText {
    fn brightness_at(&self, x: usize, y: usize) -> (r: u8)
        ensures
            r == brightness(self.progress(), self.message(), x as int, y as int),
    {
        self.current_brightness_at(x, y)
    }
}

} // verus!
