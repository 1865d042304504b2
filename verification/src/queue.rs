//! A playback queue with repeat-aware iteration.
//!
//! The queue owns an ordered sequence of items, a current index and a
//! [`RepeatMode`]. Iteration happens through [`Queue::next_item`]; explicit
//! navigation ([`Queue::jump`], [`Queue::skip`], [`Queue::rewind`]) pins the
//! item that the following `next_item` call returns.

use vstd::prelude::*;

use crate::errors::OutOfBoundsError;

verus! {

use vstd::arithmetic::div_mod::{
    lemma_add_mod_noop_right,
    lemma_mod_add_multiples_vanish,
    lemma_small_mod,
};

/// How iteration behaves once the queue runs past its last item.
#[derive(Copy, Clone, Debug, PartialEq, Eq, Structural)]
pub enum RepeatMode {
    /// Stop at the end of the queue.
    Off,
    /// Repeat the current item forever.
    Single,
    /// Wrap around to the beginning.
    All,
}

impl RepeatMode {
    /// The mode that follows this one when cycling through the modes.
    pub fn next(&self) -> (r: Self)
        ensures
            *self is All ==> r is Single,
            *self is Single ==> r is Off,
            *self is Off ==> r is All,
    {
        match *self {
            Self::All => Self::Single,
            Self::Single => Self::Off,
            Self::Off => Self::All,
        }
    }
}

/// A queue of items with variable iteration rules, depending on the
/// `repeat_mode` field.
///
/// Queues like this are commonly found in music players. See
/// [`Queue::next_item`] for how the repeat mode changes iteration.
#[derive(Clone, Debug)]
pub struct Queue<T> {
    items: Vec<T>,
    index: usize,
    /// The repeat mode of the queue, consulted by `next_item` to determine
    /// which item to return.
    repeat_mode: RepeatMode,
    /// Whether iteration has begun; `false` right after construction or
    /// explicit navigation, when the following `next_item` call must return
    /// the item at the current index without moving.
    has_advanced: bool,
}

impl<T> View for Queue<T> {
    type V = Seq<T>;

    /// The queue's items, in order.
    closed spec fn view(&self) -> Seq<T> {
        self.items@
    }
}

impl<T> Queue<T> {
    /// The current index. Always within `[0, len]`; equal to `len` only when
    /// the queue is empty or fully consumed under [`RepeatMode::Off`].
    pub closed spec fn position(&self) -> int {
        self.index as int
    }

    /// Whether iteration has begun (see the `has_advanced` field).
    pub closed spec fn advanced(&self) -> bool {
        self.has_advanced
    }

    /// The queue's repeat mode.
    pub closed spec fn mode(&self) -> RepeatMode {
        self.repeat_mode
    }

    /// The queue's repeat mode.
    pub fn repeat_mode(&self) -> (r: RepeatMode)
        ensures
            r == self.mode(),
    {
        self.repeat_mode
    }

    /// Change the repeat mode, leaving items and position untouched.
    pub fn set_repeat_mode(&mut self, repeat_mode: RepeatMode)
        ensures
            final(self)@ == old(self)@,
            final(self).position() == old(self).position(),
            final(self).advanced() == old(self).advanced(),
            final(self).mode() == repeat_mode,
    {
        self.repeat_mode = repeat_mode;
    }

    /// The queue's invariant: the index never runs past the length.
    pub open spec fn wf(&self) -> bool {
        0 <= self.position() <= self@.len()
    }

    /// The index that one `next_item` call moves to. A pinned index (one
    /// set by explicit navigation, before iteration has begun again) is
    /// kept exactly; only the continuing-iteration step wraps or clamps.
    pub open spec fn advance_position(&self) -> int {
        let len = self@.len() as int;
        if len == 0 || !self.advanced() {
            self.position()
        } else {
            match self.mode() {
                RepeatMode::Single => self.position(),
                RepeatMode::Off => if self.position() < len {
                    self.position() + 1
                } else {
                    self.position()
                },
                RepeatMode::All => {
                    let inc = if self.position() < len {
                        self.position() + 1
                    } else {
                        self.position()
                    };
                    inc % len
                },
            }
        }
    }

    /// The item that one `next_item` call returns.
    pub open spec fn advance_result(&self) -> Option<T> {
        if 0 <= self.advance_position() < self@.len() {
            Some(self@[self.advance_position()])
        } else {
            None
        }
    }

    /// The queue's state after one `next_item` call.
    pub closed spec fn after_advance(&self) -> Self {
        Queue {
            index: self.advance_position() as usize,
            has_advanced: self.has_advanced || self.items@.len() > 0,
            ..*self
        }
    }

    /// The queue's state after `n` calls to `next_item`.
    pub open spec fn after_advances(&self, n: nat) -> Self
        decreases n,
    {
        if n == 0 {
            *self
        } else {
            self.after_advances((n - 1) as nat).after_advance()
        }
    }

    /// The item that the `n`-th of a row of `next_item` calls returns,
    /// counting from one.
    pub open spec fn result_at(&self, n: nat) -> Option<T>
        recommends
            1 <= n,
    {
        self.after_advances((n - 1) as nat).advance_result()
    }

    /// Create a new, empty queue with the given repeat mode.
    pub fn new(repeat_mode: RepeatMode) -> (q: Self)
        ensures
            q@.len() == 0,
            q.position() == 0,
            q.mode() == repeat_mode,
            !q.advanced(),
            q.wf(),
    {
        Self { items: Vec::new(), index: 0, repeat_mode, has_advanced: false }
    }

    /// Return the next item in the queue, depending on the [`RepeatMode`].
    ///
    /// If the queue is not empty, the first call returns the first item,
    /// regardless of the repeat mode. Calling `next_item` after [`jump`],
    /// [`skip`] or [`rewind`] also guarantees the pinned item, regardless of
    /// the repeat mode.
    ///
    /// # Iteration rules
    ///
    /// An index pinned by explicit navigation is honored exactly: the item
    /// at that index is returned, or `None` when the index equals the
    /// length, whatever the repeat mode. Once iteration continues, reaching
    /// the end of the queue under [`RepeatMode::All`] wraps around to the
    /// beginning; under [`RepeatMode::Single`] the same item is returned
    /// every time; under [`RepeatMode::Off`] this method returns `None`
    /// once the queue is consumed, and the index stays clamped at the
    /// length.
    ///
    /// [`jump`]: Self::jump
    /// [`skip`]: Self::skip
    /// [`rewind`]: Self::rewind
    pub fn next_item(&mut self) -> (r: Option<&T>)
        requires
            old(self).wf(),
        ensures
            *final(self) == old(self).after_advance(),
            final(self)@ == old(self)@,
            final(self).mode() == old(self).mode(),
            final(self).position() == old(self).advance_position(),
            final(self).advanced() == (old(self).advanced() || old(self)@.len() > 0),
            final(self).wf(),
            (match r {
                Some(v) => old(self).advance_result() == Some(*v),
                None => old(self).advance_result() is None,
            }),
    {
        if self.items.is_empty() {
            return None;
        }
        if self.has_advanced {
            match self.repeat_mode {
                RepeatMode::Single => {}
                RepeatMode::Off => {
                    if self.index < self.items.len() {
                        self.index += 1;
                    }
                }
                RepeatMode::All => {
                    if self.index < self.items.len() {
                        self.index += 1;
                    }
                    self.index %= self.items.len();
                }
            }
        }
        self.has_advanced = true;
        if self.index < self.items.len() {
            Some(&self.items[self.index])
        } else {
            None
        }
    }

    /// Whether the queue holds no items.
    pub fn is_empty(&self) -> (r: bool)
        ensures
            r == (self@.len() == 0),
    {
        self.items.is_empty()
    }

    /// The current index.
    pub fn index(&self) -> (r: usize)
        ensures
            r == self.position(),
    {
        self.index
    }

    /// The items of the queue, in order.
    pub fn items(&self) -> (r: &Vec<T>)
        ensures
            r@ == self@,
    {
        &self.items
    }

    /// Append an item at the end of the queue.
    pub fn push(&mut self, item: T)
        ensures
            final(self)@ == old(self)@.push(item),
            final(self).position() == old(self).position(),
            final(self).mode() == old(self).mode(),
            final(self).advanced() == old(self).advanced(),
            old(self).wf() ==> final(self).wf(),
    {
        self.items.push(item);
    }

    /// Append every item of `items` at the end of the queue, in order.
    pub fn extend(&mut self, items: Vec<T>)
        ensures
            final(self)@ == old(self)@ + items@,
            final(self).position() == old(self).position(),
            final(self).mode() == old(self).mode(),
            final(self).advanced() == old(self).advanced(),
            old(self).wf() ==> final(self).wf(),
    {
        let mut items = items;
        self.items.append(&mut items);
    }

    /// Remove every item and reset iteration to the beginning.
    pub fn clear(&mut self)
        ensures
            final(self)@.len() == 0,
            final(self).position() == 0,
            final(self).mode() == old(self).mode(),
            !final(self).advanced(),
            final(self).wf(),
    {
        self.items.clear();
        self.index = 0;
        self.has_advanced = false;
    }

    /// Remove the value at position `index`.
    ///
    /// Rewinds the queue by one if the removed position is before the
    /// current index, so that the current item stays stable relative to the
    /// already-played history.
    pub fn remove(&mut self, index: usize)
        requires
            index < old(self)@.len(),
        ensures
            final(self)@ == old(self)@.remove(index as int),
            final(self).position() == (if index < old(self).position() {
                old(self).position() - 1
            } else {
                old(self).position()
            }),
            final(self).mode() == old(self).mode(),
            final(self).advanced() == old(self).advanced(),
            old(self).wf() ==> final(self).wf(),
    {
        self.items.remove(index);
        if index < self.index {
            self.index -= 1;
        }
    }

    /// Insert an item at position `index`.
    ///
    /// Advances the queue by one if `index` is at or before the current
    /// index, for consistent iteration.
    pub fn insert(&mut self, index: usize, item: T)
        requires
            index <= old(self)@.len(),
            old(self)@.len() < usize::MAX,
            old(self).wf(),
        ensures
            final(self)@ == old(self)@.insert(index as int, item),
            final(self).position() == (if index <= old(self).position() {
                old(self).position() + 1
            } else {
                old(self).position()
            }),
            final(self).mode() == old(self).mode(),
            final(self).advanced() == old(self).advanced(),
            final(self).wf(),
    {
        self.items.insert(index, item);
        if index <= self.index {
            self.index += 1;
        }
    }

    /// Jump to index `new_index` in the queue.
    ///
    /// Guarantees that the next item is at index `new_index`. Fails when
    /// `new_index` is beyond the length of the queue, leaving the queue
    /// unchanged.
    pub fn jump(&mut self, new_index: usize) -> (r: Result<(), OutOfBoundsError<usize>>)
        ensures
            final(self)@ == old(self)@,
            final(self).mode() == old(self).mode(),
            new_index <= old(self)@.len() ==> {
                &&& r is Ok
                &&& final(self).position() == new_index
                &&& !final(self).advanced()
                &&& final(self).wf()
            },
            new_index > old(self)@.len() ==> {
                &&& (r matches Err(e) && e == (OutOfBoundsError::High {
                    value: new_index,
                    max: old(self)@.len() as usize,
                }))
                &&& *final(self) == *old(self)
            },
    {
        if new_index > self.items.len() {
            return Err(OutOfBoundsError::High { value: new_index, max: self.items.len() });
        }
        self.has_advanced = false;
        self.index = new_index;
        Ok(())
    }

    /// The index that [`skip`] moves to: `n` ahead of the current item,
    /// wrapping around under [`RepeatMode::All`] and [`RepeatMode::Single`],
    /// clamped to the length under [`RepeatMode::Off`].
    ///
    /// [`skip`]: Self::skip
    pub open spec fn skip_position(&self, n: int) -> int {
        let len = self@.len() as int;
        if len == 0 {
            0
        } else if self.mode() is Off {
            if self.position() + n > len { len } else { self.position() + n }
        } else {
            (self.position() + n) % len
        }
    }

    /// Skip `n` items forward.
    ///
    /// Guarantees that the next item is `n` positions ahead of the current
    /// one. Under [`RepeatMode::Off`], skipping beyond the end of the queue
    /// clamps the index to the length of the queue; otherwise the index
    /// wraps around to the beginning.
    pub fn skip(&mut self, n: usize)
        requires
            old(self).wf(),
            old(self).position() + n <= usize::MAX,
        ensures
            final(self)@ == old(self)@,
            final(self).mode() == old(self).mode(),
            final(self).position() == old(self).skip_position(n as int),
            !final(self).advanced(),
            final(self).wf(),
    {
        let new_index: usize = if self.items.is_empty() {
            0
        } else if self.repeat_mode == RepeatMode::Off {
            if self.index + n > self.items.len() {
                self.items.len()
            } else {
                self.index + n
            }
        } else {
            (self.index + n) % self.items.len()
        };
        let r = self.jump(new_index);
        assert(r is Ok);
    }

    /// The index that [`rewind`] moves to: `n` behind the current item,
    /// wrapping backward past the start of the queue.
    ///
    /// [`rewind`]: Self::rewind
    pub open spec fn rewind_position(&self, n: int) -> int {
        let len = self@.len() as int;
        if len == 0 {
            0
        } else if n <= self.position() {
            self.position() - n
        } else {
            len - (n - self.position())
        }
    }

    /// Rewind `n` items.
    ///
    /// Guarantees that the next item is `n` behind the current one, wrapping
    /// backward through the end of the list when `n` exceeds the current
    /// index.
    pub fn rewind(&mut self, n: usize)
        requires
            old(self).wf(),
            old(self)@.len() == 0 || n <= old(self).position() + old(self)@.len(),
        ensures
            final(self)@ == old(self)@,
            final(self).mode() == old(self).mode(),
            final(self).position() == old(self).rewind_position(n as int),
            !final(self).advanced(),
            final(self).wf(),
    {
        let new_index: usize = if self.items.is_empty() {
            0
        } else if n <= self.index {
            self.index - n
        } else {
            self.items.len() - (n - self.index)
        };
        let r = self.jump(new_index);
        assert(r is Ok);
    }

    /// A reference to the item at the current index, unaffected by whether
    /// iteration has begun. `None` when the queue is empty or fully consumed
    /// under [`RepeatMode::Off`].
    pub fn current(&self) -> (r: Option<&T>)
        ensures
            (match r {
                Some(v) => self.position() < self@.len() && *v == self@[self.position()],
                None => self.position() >= self@.len(),
            }),
    {
        if self.index < self.items.len() {
            Some(&self.items[self.index])
        } else {
            None
        }
    }
}

/// How one `next_item` call relates a well-formed queue to its successor
/// state: items and mode are untouched, the index moves to
/// `advance_position`, and iteration counts as begun once the queue is
/// non-empty. Under `All`, unless the index was pinned at the length, the
/// new index stays strictly inside the queue.
proof fn lemma_advance_frame<T>(q: Queue<T>)
    requires
        q.wf(),
    ensures
        q.after_advance()@ == q@,
        q.after_advance().mode() == q.mode(),
        q.after_advance().position() == q.advance_position(),
        q.after_advance().advanced() == (q.advanced() || q@.len() > 0),
        q.after_advance().wf(),
        q.mode() is All && q@.len() > 0 && (q.advanced() || q.position() < q@.len())
            ==> q.after_advance().position() < q@.len(),
{
    let len = q@.len() as int;
    assert(q.items.len() == q@.len());
    if len > 0 && q.mode() is All && q.advanced() {
        let inc = if q.position() < len {
            q.position() + 1
        } else {
            q.position()
        };
        assert(0 <= inc % len < len) by {
            vstd::arithmetic::div_mod::lemma_mod_division_less_than_divisor(inc, len);
        }
    }
    assert(0 <= q.advance_position() <= len);
}

/// Splitting a row of `next_item` calls: advancing `a + b` times is
/// advancing `a` times, then `b` more.
proof fn lemma_advances_add<T>(q: Queue<T>, a: nat, b: nat)
    ensures
        q.after_advances(a + b) == q.after_advances(a).after_advances(b),
    decreases b,
{
    if b > 0 {
        lemma_advances_add(q, a, (b - 1) as nat);
        assert(q.after_advances(a + b) == q.after_advances((a + b - 1) as nat).after_advance());
    }
}

/// Under `All`, once iteration has begun the index cycles: after `m`
/// further calls it stands at `(position + m) % len`, and items, mode and
/// well-formedness are untouched.
proof fn lemma_all_cycle<T>(s: Queue<T>, m: nat)
    requires
        s.wf(),
        s.mode() is All,
        s@.len() > 0,
        s.advanced(),
        s.position() < s@.len(),
    ensures
        s.after_advances(m)@ == s@,
        s.after_advances(m).mode() == s.mode(),
        s.after_advances(m).advanced(),
        s.after_advances(m).position() == (s.position() + m) % (s@.len() as int),
        s.after_advances(m).position() < s@.len(),
        s.after_advances(m).wf(),
    decreases m,
{
    let len = s@.len() as int;
    if m == 0 {
        lemma_small_mod(s.position() as nat, s@.len());
    } else {
        lemma_all_cycle(s, (m - 1) as nat);
        let t = s.after_advances((m - 1) as nat);
        lemma_advance_frame(t);
        assert(t.advance_position() == (t.position() + 1) % len);
        lemma_add_mod_noop_right(1, s.position() + m - 1, len);
    }
}

/// Under `All`, the `n`-th `next_item` call of a non-empty queue returns
/// the item `n - 1` steps past where the first call lands, modulo the
/// length.
proof fn lemma_all_result<T>(q: Queue<T>, n: nat)
    requires
        q.wf(),
        q.mode() is All,
        q@.len() > 0,
        q.advanced() || q.position() < q@.len(),
        1 <= n,
    ensures
        q.result_at(n) == Some(q@[(q.after_advance().position() + n - 1) % (q@.len() as int)]),
{
    let len = q@.len() as int;
    let s1 = q.after_advance();
    lemma_advance_frame(q);
    if n == 1 {
        lemma_small_mod(s1.position() as nat, q@.len());
        assert(q.advance_result() == Some(q@[s1.position()]));
    } else {
        lemma_advances_add(q, 1, (n - 2) as nat);
        assert(q.after_advances(0) == q);
        assert(q.after_advances(1) == s1);
        let t = s1.after_advances((n - 2) as nat);
        lemma_all_cycle(s1, (n - 2) as nat);
        lemma_advance_frame(t);
        assert(t.advance_position() == (t.position() + 1) % len);
        lemma_add_mod_noop_right(1, s1.position() + n - 2, len);
        assert(t.advance_position() == (s1.position() + n - 1) % len);
        assert(0 <= t.advance_position() < len) by {
            vstd::arithmetic::div_mod::lemma_mod_division_less_than_divisor(
                s1.position() + n - 1,
                len,
            );
        }
    }
}

/// Wraparound law: for every non-empty queue under `All`, iteration is
/// periodic in the queue's length — the `(n + len)`-th `next_item` call
/// returns the same item as the `n`-th, so a row of `len + k` calls
/// returns the row of the first `len` calls, repeated. The one state left
/// out is an index pinned at the length, whose first call returns `None`
/// before iteration wraps.
pub proof fn lemma_repeat_all_wraparound<T>(q: Queue<T>, n: nat)
    requires
        q.wf(),
        q.mode() is All,
        q@.len() > 0,
        q.advanced() || q.position() < q@.len(),
        1 <= n,
    ensures
        q.result_at(n + q@.len()) == q.result_at(n),
{
    let len = q@.len() as int;
    let start = q.after_advance().position();
    lemma_all_result(q, n);
    lemma_all_result(q, n + q@.len());
    lemma_mod_add_multiples_vanish(start + n - 1, len);
}

/// Under `Off`, a queue that starts at the beginning walks the items once:
/// the `m`-fold successor state sits at index `m - 1` while items remain,
/// and stays clamped at the length afterwards.
proof fn lemma_off_walk<T>(q: Queue<T>, m: nat)
    requires
        q.wf(),
        q.mode() is Off,
        !q.advanced(),
        q.position() == 0,
    ensures
        q.after_advances(m)@ == q@,
        q.after_advances(m).mode() == q.mode(),
        m == 0 ==> q.after_advances(m) == q,
        1 <= m && q@.len() > 0 ==> q.after_advances(m).advanced(),
        1 <= m <= q@.len() ==> q.after_advances(m).position() == m - 1,
        m > q@.len() ==> q.after_advances(m).position() == q@.len(),
        q.after_advances(m).wf(),
    decreases m,
{
    if m > 0 {
        lemma_off_walk(q, (m - 1) as nat);
        let t = q.after_advances((m - 1) as nat);
        if q@.len() > 0 {
            lemma_advance_frame(t);
        } else {
            assert(t.after_advance() == t);
        }
    }
}

/// Exhaustion law: for every queue under `Off` that starts at the
/// beginning, the first `len` calls to `next_item` return the items in
/// order, and every call after the `len`-th returns `None`, with the index
/// clamped at the length from then on.
pub proof fn lemma_repeat_off_exhausts<T>(q: Queue<T>, n: nat)
    requires
        q.wf(),
        q.mode() is Off,
        !q.advanced(),
        q.position() == 0,
        1 <= n,
    ensures
        n <= q@.len() ==> q.result_at(n) == Some(q@[n - 1]),
        n > q@.len() ==> q.result_at(n) is None,
        1 <= n <= q@.len() ==> q.after_advances(n).position() == n - 1,
        n > q@.len() ==> q.after_advances(n).position() == q@.len(),
{
    lemma_off_walk(q, (n - 1) as nat);
    lemma_off_walk(q, n);
    let t = q.after_advances((n - 1) as nat);
    if q@.len() == 0 {
        assert(t.advance_result() is None);
    }
}

/// Single-repeat law: under `Single`, every `next_item` call returns the
/// same item as the first call.
pub proof fn lemma_repeat_single_stable<T>(q: Queue<T>, n: nat)
    requires
        q.wf(),
        q.mode() is Single,
        1 <= n,
    ensures
        q.result_at(n) == q.result_at(1),
{
    // Under `Single`, a `next_item` call never moves the index, so the
    // state after the first call is a fixed point.
    let s1 = q.after_advance();
    lemma_advance_frame(q);
    assert(q.after_advances(0) == q);
    if n >= 2 {
        assert(s1.after_advance() == s1);
        lemma_single_fixed(s1, (n - 2) as nat);
        lemma_advances_add(q, 1, (n - 2) as nat);
        assert(q.after_advances(1) == s1);
        assert(q.after_advances((n - 1) as nat) == s1.after_advances((n - 2) as nat));
        assert(s1.advance_result() == q.advance_result());
    }
}

/// A state that one `next_item` call maps to itself stays fixed under any
/// number of further calls.
proof fn lemma_single_fixed<T>(s: Queue<T>, m: nat)
    requires
        s.after_advance() == s,
    ensures
        s.after_advances(m) == s,
    decreases m,
{
    if m > 0 {
        lemma_single_fixed(s, (m - 1) as nat);
    }
}

/// Explicit-navigation law: a `jump(n)` that succeeded pins the following
/// `next_item` call to the item at index `n`, regardless of repeat mode or
/// prior history; it returns `None` exactly when `n` is the length of the
/// queue. `q` is the state that `jump(n)` left behind.
pub proof fn lemma_jump_then_advance<T>(q: Queue<T>, n: int)
    requires
        q.wf(),
        !q.advanced(),
        q.position() == n,
        0 <= n <= q@.len(),
    ensures
        n < q@.len() ==> q.advance_result() == Some(q@[n]),
        n == q@.len() ==> q.advance_result() is None,
{
}

/// Rewind law: `rewind(n)` followed by `next_item` returns the item `n`
/// positions behind the pre-rewind position, wrapping backward past index
/// zero to the tail of the queue. `q` is the queue before `rewind(n)` and
/// `p` the state that `rewind(n)` left behind.
pub proof fn lemma_rewind_then_advance<T>(q: Queue<T>, p: Queue<T>, n: int)
    requires
        q.wf(),
        q@.len() > 0,
        q.position() < q@.len(),
        0 <= n <= q.position() + q@.len(),
        p@ == q@,
        p.mode() == q.mode(),
        !p.advanced(),
        p.position() == q.rewind_position(n),
    ensures
        q.rewind_position(n) == (q.position() - n + q@.len()) % (q@.len() as int),
        p.advance_result() == Some(q@[(q.position() - n + q@.len()) % (q@.len() as int)]),
{
    let len = q@.len() as int;
    let rp = q.rewind_position(n);
    assert(rp == (q.position() - n + len) % len) by {
        if n <= q.position() {
            lemma_mod_add_multiples_vanish(q.position() - n, len);
            lemma_small_mod((q.position() - n) as nat, q@.len());
        } else {
            lemma_small_mod((q.position() - n + len) as nat, q@.len());
        }
    }
    assert(0 <= rp < len);
}

} // verus!
