use vstd::prelude::*;
use vstd::slice::slice_subrange;

verus! {

/// One step of a sliding window: the oldest element leaves, the new
/// value arrives at the end.
pub open spec fn slide<T>(win: Seq<T>, value: T) -> Seq<T> {
    win.subrange(1, win.len() as int).push(value)
}

/// The window after a whole series of insertions, applied oldest
/// first.
pub open spec fn slide_all<T>(win: Seq<T>, values: Seq<T>) -> Seq<T>
    decreases values.len(),
{
    if values.len() == 0 {
        win
    } else {
        slide_all(slide(win, values[0]), values.subrange(1, values.len() as int))
    }
}

/// After any series of insertions, the window holds exactly the last
/// window-size elements of what the buffer started with followed by
/// everything inserted since.
pub proof fn lemma_window_is_recent_suffix<T>(win: Seq<T>, values: Seq<T>)
    requires
        win.len() >= 1,
    ensures
        slide_all(win, values) =~= (win + values).subrange(
            values.len() as int,
            (win + values).len() as int,
        ),
    decreases values.len(),
{
    if values.len() == 0 {
        assert(slide_all(win, values) =~= (win + values).subrange(
            0,
            (win + values).len() as int,
        ));
    } else {
        let stepped = slide(win, values[0]);
        let rest = values.subrange(1, values.len() as int);
        lemma_window_is_recent_suffix(stepped, rest);
        assert(stepped + rest =~= (win + values).subrange(1, (win + values).len() as int));
        assert(slide_all(win, values) =~= (win + values).subrange(
            values.len() as int,
            (win + values).len() as int,
        ));
    }
}

/// Inserting exactly twice the window size of values and then reading
/// the window gives, element for element, the same window as inserting
/// only the last window-size of those values into a fresh buffer of
/// the same size, whatever either buffer held before.
pub proof fn lemma_refill_equivalence<T>(win_a: Seq<T>, win_b: Seq<T>, values: Seq<T>)
    requires
        win_a.len() >= 1,
        win_b.len() == win_a.len(),
        values.len() == 2 * win_a.len(),
    ensures
        slide_all(win_a, values) == slide_all(
            win_b,
            values.subrange(win_a.len() as int, values.len() as int),
        ),
{
    let w = win_a.len() as int;
    let tail = values.subrange(w, 2 * w);
    lemma_window_is_recent_suffix(win_a, values);
    lemma_window_is_recent_suffix(win_b, tail);
    assert(slide_all(win_a, values) =~= slide_all(win_b, tail));
}

/// A rolling buffer of the most recent `window_size` inserted values,
/// read as one contiguous, chronologically ordered slice without any
/// data movement on insert. The backing store holds two duplicated
/// logical copies of the window, and every insert writes the new value
/// into both its primary slot and the duplicate slot one window ahead;
/// the duplication is what keeps the window contiguous across the
/// wraparound boundary.
pub struct SlidingBuffer<T> {
    window_size: usize,
    /// Index of the slot written by the most recent insert; the window
    /// starts one slot after it.
    current_index: usize,
    buffer: Vec<T>,
}

impl<T: Copy> SlidingBuffer<T> {
    /// The structural invariant: the backing store is twice the window
    /// size, the cursor stays inside the first copy, and the two
    /// copies agree slot for slot.
    pub closed spec fn wf(self) -> bool {
        &&& self.window_size >= 1
        &&& self.window_size * 2 <= usize::MAX
        &&& self.buffer@.len() == 2 * self.window_size
        &&& self.current_index < self.window_size
        &&& forall|i: int|
            0 <= i < self.window_size ==> #[trigger] self.buffer@[i] == self.buffer@[
                i + self.window_size
            ]
    }

    /// The number of elements the window holds.
    pub closed spec fn size(self) -> nat {
        self.window_size as nat
    }

    /// The current window: the most recent `size()` values in
    /// chronological order, oldest first.
    pub closed spec fn window(self) -> Seq<T> {
        self.buffer@.subrange(
            self.current_index + 1,
            self.current_index + 1 + self.window_size,
        )
    }

    /// Creates a buffer whose window holds `window_size` copies of the
    /// initial value.
    pub fn new(initial_value: T, window_size: usize) -> (r: Self)
        requires
            1 <= window_size,
            window_size * 2 <= usize::MAX,
        ensures
            r.wf(),
            r.size() == window_size,
            r.window() == Seq::new(window_size as nat, |i: int| initial_value),
    {
        let full_len: usize = window_size * 2;
        let mut buffer: Vec<T> = Vec::new();
        let mut i: usize = 0;
        while i < full_len
            invariant
                i <= full_len,
                buffer@.len() == i,
                forall|k: int| 0 <= k < i ==> buffer@[k] == initial_value,
            decreases full_len - i,
        {
            buffer.push(initial_value);
            i = i + 1;
        }
        let r = SlidingBuffer { window_size, current_index: 0, buffer };
        assert(r.window() =~= Seq::new(window_size as nat, |i: int| initial_value));
        r
    }

    /// The current window as a contiguous slice, oldest value first,
    /// most recent value last. Always valid, however many inserts have
    /// happened.
    pub fn get_current_window(&self) -> (r: &[T])
        requires
            self.wf(),
        ensures
            r@ == self.window(),
    {
        slice_subrange(
            self.buffer.as_slice(),
            self.current_index + 1,
            self.current_index + 1 + self.window_size,
        )
    }

    /// Inserts one value: the oldest window element leaves and the new
    /// value becomes the most recent. The cursor advances (wrapping to
    /// the start of the first copy once it would cross into the
    /// duplicate), and the value is written to both the new cursor
    /// slot and its duplicate one window ahead, so no stored element
    /// ever moves.
    pub fn set_next(&mut self, value: T)
        requires
            old(self).wf(),
        ensures
            final(self).wf(),
            final(self).size() == old(self).size(),
            final(self).window() == slide(old(self).window(), value),
    {
        if self.current_index + self.window_size + 1 == self.window_size * 2 {
            self.current_index = 0;
        } else {
            self.current_index = self.current_index + 1;
        }
        let ci = self.current_index;
        let ws = self.window_size;
        self.buffer.set(ci, value);
        self.buffer.set(ci + ws, value);
        proof {
            let oldw = old(self).window();
            assert forall|i: int| 0 <= i < ws - 1 implies self.window()[i] == oldw[i + 1] by {
                if old(self).current_index + 1 == ws {
                    assert(self.buffer@[1 + i] == old(self).buffer@[1 + i]);
                    assert(old(self).buffer@[1 + i] == old(self).buffer@[1 + i + ws]);
                } else {
                    assert(self.window()[i] == self.buffer@[ci + 1 + i]);
                }
            }
            assert(self.window()[ws - 1] == value);
            assert(self.window() =~= slide(oldw, value));
        }
    }
}

} // verus!
