//! A cache slot that holds either a value or the memory of a failure, each
//! until a given moment.

use crate::time::fits;
use vstd::prelude::*;

verus! {

/// One slot. `value` is the cached value, or `None` for a recent failure;
/// `valid_until` is the first millisecond at which the slot is stale;
/// `captured_at` is when it was written. A slot that was never written
/// holds no value and went stale at the epoch.
#[derive(Debug, PartialEq, Eq)]
pub struct CacheEntry<T> {
    pub value: Option<T>,
    pub valid_until: i64,
    pub captured_at: i64,
}

/// The view of a slot: the view of its value, and its times as integers.
pub struct EntryView<V> {
    pub value: Option<V>,
    pub valid_until: int,
    pub captured_at: int,
}

impl<V> EntryView<V> {
    /// A slot that was never written.
    pub open spec fn empty() -> Self {
        EntryView { value: None, valid_until: 0, captured_at: 0 }
    }

    /// The slot after a failure at `now`: no value, and not to be asked
    /// again for `window` milliseconds.
    pub open spec fn failed(now: int, window: int) -> Self {
        EntryView { value: None, valid_until: now + window, captured_at: now }
    }

    /// The slot after a fetch at `now` whose value may be served for `ttl`
    /// milliseconds.
    pub open spec fn filled(value: V, now: int, ttl: int) -> Self {
        EntryView { value: Some(value), valid_until: now + ttl, captured_at: now }
    }

    /// The slot after its content became worthless at `now`: no value, and
    /// stale from that moment.
    pub open spec fn invalidated(now: int) -> Self {
        EntryView { value: None, valid_until: now, captured_at: now }
    }

    /// A slot is fresh up to, and not including, `valid_until`.
    pub open spec fn fresh(self, now: int) -> bool {
        now < self.valid_until
    }

    /// For how long the slot was valid when it was written.
    pub open spec fn window(self) -> int {
        self.valid_until - self.captured_at
    }

    /// Whether both times can be held in an `i64`.
    pub open spec fn in_range(self) -> bool {
        fits(self.valid_until) && fits(self.captured_at)
    }
}

impl<T: DeepView> DeepView for CacheEntry<T> {
    type V = EntryView<T::V>;

    open spec fn deep_view(&self) -> EntryView<T::V> {
        EntryView {
            value: self.value.deep_view(),
            valid_until: self.valid_until as int,
            captured_at: self.captured_at as int,
        }
    }
}

impl<T: DeepView> CacheEntry<T> {
    /// A slot that was never written.
    pub fn new() -> (entry: Self)
        ensures
            entry.deep_view() == EntryView::<T::V>::empty(),
    {
        CacheEntry { value: None, valid_until: 0, captured_at: 0 }
    }

    /// Whether what the slot holds may be served at `now`.
    pub fn is_fresh(&self, now: i64) -> (yes: bool)
        ensures
            yes == self.deep_view().fresh(now as int),
    {
        now < self.valid_until
    }

    /// Records a failure at `now` that is remembered for `window`
    /// milliseconds. A value that was held is dropped.
    pub fn fail(&mut self, now: i64, window: i64)
        requires
            fits(now + window),
        ensures
            final(self).deep_view() == EntryView::<T::V>::failed(now as int, window as int),
    {
        self.value = None;
        self.valid_until = now + window;
        self.captured_at = now;
    }

    /// Stores a value fetched at `now` that may be served until `valid_until`.
    pub fn fill(&mut self, value: T, now: i64, valid_until: i64)
        ensures
            final(self).deep_view() == EntryView::filled(
                value.deep_view(),
                now as int,
                valid_until - now,
            ),
    {
        self.value = Some(value);
        self.valid_until = valid_until;
        self.captured_at = now;
    }

    /// Drops what the slot holds and makes it stale from `now` on.
    pub fn invalidate(&mut self, now: i64)
        ensures
            final(self).deep_view() == EntryView::<T::V>::invalidated(now as int),
    {
        self.value = None;
        self.valid_until = now;
        self.captured_at = now;
    }
}

} // verus!
