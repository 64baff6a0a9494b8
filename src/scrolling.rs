//! The animation clock of a scroller and the mapping from its progress to
//! pixel brightness.
use vstd::prelude::*;
use vstd::arithmetic::div_mod::lemma_fundamental_div_mod_converse;
use crate::font::{character, glyph};
use crate::image::{IMAGE_COLS, IMAGE_ROWS, MAX_BRIGHTNESS};

verus! {

/// Ticks needed to move the text by one glyph: one pixel column per tick.
pub const STEPS_PER_SYMBOL: usize = IMAGE_COLS;

/// How far a scroll animation has got.
///
/// `symbol_index` is the message position at the left edge of the screen
/// (the glyphs before it have scrolled off); `sub_step` counts the pixel
/// columns of that glyph that have scrolled off too. The length of the message is held by the
/// scroller that owns the state, and is passed in where it matters.
#[derive(Clone, Copy, Debug)]
pub struct ScrollingState {
    pub symbol_index: usize,
    pub sub_step: usize,
}

impl ScrollingState {
    /// The state at the beginning of an animation.
    pub open spec fn start() -> ScrollingState {
        ScrollingState { symbol_index: 0, sub_step: 0 }
    }

    /// The state is reachable for a message of `length` symbols.
    pub open spec fn wf(self, length: nat) -> bool {
        &&& self.symbol_index <= length
        &&& self.sub_step < STEPS_PER_SYMBOL
        &&& self.symbol_index == length ==> self.sub_step == 0
    }

    /// The animation of a message of `length` symbols has ended.
    pub open spec fn finished(self, length: nat) -> bool {
        self.symbol_index == length
    }

    /// The number of ticks that have moved the text so far.
    pub open spec fn steps_taken(self) -> int {
        self.symbol_index * STEPS_PER_SYMBOL + self.sub_step
    }

    /// The state after one tick: unchanged once finished; otherwise one step
    /// further, passing to the next symbol when a whole glyph has moved.
    pub open spec fn next(self, length: nat) -> ScrollingState {
        if self.finished(length) {
            self
        } else if self.sub_step + 1 == STEPS_PER_SYMBOL {
            ScrollingState { symbol_index: (self.symbol_index + 1) as usize, sub_step: 0 }
        } else {
            ScrollingState { symbol_index: self.symbol_index, sub_step: (self.sub_step + 1) as usize }
        }
    }

    /// The state after `n` ticks.
    pub open spec fn after_ticks(self, length: nat, n: nat) -> ScrollingState
        decreases n,
    {
        if n == 0 {
            self
        } else {
            self.next(length).after_ticks(length, (n - 1) as nat)
        }
    }

    /// The pixel column of the whole message, counted from the left edge of
    /// its first glyph, that the display shows at screen column `x`.
    ///
    /// At the start the first glyph fills the screen; each tick moves the
    /// text one column to the left, so the next glyph comes in from the right.
    pub open spec fn column_at(self, x: int) -> int {
        self.steps_taken() + x
    }

    /// A state at the beginning of an animation.
    pub fn new() -> (r: ScrollingState)
        ensures
            r == ScrollingState::start(),
    {
        ScrollingState { symbol_index: 0, sub_step: 0 }
    }

    /// Restarts the animation.
    pub fn reset(&mut self)
        ensures
            *final(self) == ScrollingState::start(),
    {
        self.symbol_index = 0;
        self.sub_step = 0;
    }

    /// Whether the animation of a message of `length` symbols has ended.
    pub fn is_finished(&self, length: usize) -> (r: bool)
        ensures
            r == self.finished(length as nat),
    {
        self.symbol_index == length
    }

    /// Advances the animation of a message of `length` symbols by one step.
    pub fn tick(&mut self, length: usize)
        requires
            old(self).wf(length as nat),
        ensures
            *final(self) == old(self).next(length as nat),
            final(self).wf(length as nat),
    {
        if self.symbol_index != length {
            self.sub_step = self.sub_step + 1;
            if self.sub_step == STEPS_PER_SYMBOL {
                self.sub_step = 0;
                self.symbol_index = self.symbol_index + 1;
            }
        }
    }
}

impl Default for ScrollingState {
    fn default() -> (r: ScrollingState)
        ensures
            r == ScrollingState::start(),
    {
        ScrollingState::new()
    }
}

/// The brightness of logical pixel column `column`, row `y`, of `message`
/// laid out glyph after glyph: 0 before the first symbol and from the end of
/// the last one on.
pub open spec fn message_pixel(message: Seq<u8>, column: int, y: int) -> u8 {
    if 0 <= column < message.len() * STEPS_PER_SYMBOL {
        glyph(message[column / STEPS_PER_SYMBOL as int]).pixel_brightness(
            column % STEPS_PER_SYMBOL as int,
            y,
        )
    } else {
        0
    }
}

/// The brightness shown at screen pixel (`x`, `y`) while `message` scrolls and
/// the animation stands at `state`; 0 off the grid.
pub open spec fn brightness(state: ScrollingState, message: Seq<u8>, x: int, y: int) -> u8 {
    if 0 <= x < IMAGE_COLS && 0 <= y < IMAGE_ROWS {
        message_pixel(message, state.column_at(x), y)
    } else {
        0
    }
}

/// The brightness at screen pixel (`x`, `y`) for the message held in the first
/// `length` bytes of `bytes`, with the animation at `state`.
pub fn brightness_of(state: &ScrollingState, bytes: &[u8], length: usize, x: usize, y: usize) -> (r: u8)
    requires
        length <= bytes@.len(),
        state.wf(length as nat),
    ensures
        r == brightness(*state, bytes@.subrange(0, length as int), x as int, y as int),
{
    if x >= IMAGE_COLS || y >= IMAGE_ROWS || state.symbol_index == length {
        return 0;
    }
    let offset: usize = state.sub_step + x;
    let ghost column = state.column_at(x as int);
    let (symbol, glyph_column) = if offset < STEPS_PER_SYMBOL {
        (state.symbol_index, offset)
    } else {
        (state.symbol_index + 1, offset - STEPS_PER_SYMBOL)
    };
    if symbol == length {
        return 0;
    }
    proof {
        lemma_fundamental_div_mod_converse(
            column,
            STEPS_PER_SYMBOL as int,
            symbol as int,
            glyph_column as int,
        );
    }
    character(bytes[symbol]).brightness_at(glyph_column, y)
}

/// One tick from a reachable state leads to a reachable state, and moves the
/// text by one step unless the animation has ended. (`length` is the length
/// of a message in memory, so it fits in `usize`.)
pub proof fn lemma_next_steps(state: ScrollingState, length: nat)
    requires
        state.wf(length),
        length <= usize::MAX,
    ensures
        state.next(length).wf(length),
        state.finished(length) <==> state.steps_taken() == length * STEPS_PER_SYMBOL,
        state.steps_taken() <= length * STEPS_PER_SYMBOL,
        state.finished(length) ==> state.next(length) == state,
        !state.finished(length) ==> state.next(length).steps_taken() == state.steps_taken() + 1,
{
}

/// `n` ticks from a reachable state move the text by `n` steps, up to the
/// end of the message, and lead to a reachable state.
pub proof fn lemma_after_ticks_steps(state: ScrollingState, length: nat, n: nat)
    requires
        state.wf(length),
        length <= usize::MAX,
    ensures
        state.after_ticks(length, n).wf(length),
        state.after_ticks(length, n).steps_taken() == if state.steps_taken() + n
            <= length * STEPS_PER_SYMBOL {
            state.steps_taken() + n
        } else {
            length * STEPS_PER_SYMBOL as int
        },
    decreases n,
{
    lemma_next_steps(state, length);
    if n > 0 {
        lemma_after_ticks_steps(state.next(length), length, (n - 1) as nat);
    }
}

/// Starting from the beginning, the animation of a message of `length`
/// symbols has ended after `n` ticks exactly when `n` is at least
/// `length * STEPS_PER_SYMBOL`.
pub proof fn lemma_finished_after_all_steps(length: nat, n: nat)
    requires
        length <= usize::MAX,
    ensures
        ScrollingState::start().after_ticks(length, n).finished(length) <==> n >= length
            * STEPS_PER_SYMBOL,
{
    let s = ScrollingState::start();
    lemma_after_ticks_steps(s, length, n);
    lemma_next_steps(s.after_ticks(length, n), length);
}

/// The state at the beginning is reachable for every message, and it is
/// finished exactly when the message is empty.
pub proof fn lemma_start_finished_iff_empty(length: nat)
    ensures
        ScrollingState::start().wf(length),
        ScrollingState::start().finished(length) <==> length == 0,
{
}

/// Once the animation has ended, further ticks leave the state as it is.
pub proof fn lemma_finished_is_fixed(state: ScrollingState, length: nat, n: nat)
    requires
        state.finished(length),
    ensures
        state.after_ticks(length, n) == state,
    decreases n,
{
    if n > 0 {
        lemma_finished_is_fixed(state.next(length), length, (n - 1) as nat);
    }
}

/// Every screen pixel that shows a logical position at or past the end of the
/// message, or before its start, is dark.
pub proof fn lemma_dark_outside_message(state: ScrollingState, message: Seq<u8>, x: int, y: int)
    requires
        state.column_at(x) >= message.len() * STEPS_PER_SYMBOL || state.column_at(x) < 0,
    ensures
        brightness(state, message, x, y) == 0,
{
}

/// Every brightness shown lies in the display driver's range `0..=MAX_BRIGHTNESS`.
pub proof fn lemma_brightness_in_range(state: ScrollingState, message: Seq<u8>, x: int, y: int)
    ensures
        brightness(state, message, x, y) <= MAX_BRIGHTNESS,
{
}

} // verus!
