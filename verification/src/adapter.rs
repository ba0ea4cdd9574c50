//! The adapter: a callable that writes into a sink, wrapped so that it can be rendered.
//!
//! `Display` and `Debug` are named by their paths throughout. With both traits imported, a
//! contract on either `fmt` could not tell which trait's `fmt` it stands on.

use vstd::prelude::*;
use core::fmt::Formatter;

verus! {

/// Whether `callable` can be handed every sink, that is, whether it puts no precondition on
/// the borrow it is called with.
pub open spec fn accepts_every_sink<F>(callable: F) -> bool where
    F: Fn(&mut Formatter<'_>) -> core::fmt::Result,
 {
    forall|sink: &mut Formatter<'_>| call_requires(callable, (sink,))
}

/// A value whose display rendering and debug rendering are both one call of the callable it
/// wraps.
///
/// The adapter has no state of its own: its view is the wrapped callable. It is made by
/// [`debug_fn`] and never changes.
pub struct DebugFn<F>(F) where F: Fn(&mut Formatter<'_>) -> core::fmt::Result;

impl<F> View for DebugFn<F> where F: Fn(&mut Formatter<'_>) -> core::fmt::Result {
    type V = F;

    closed spec fn view(&self) -> F {
        self.0
    }
}

/// Wraps `f` in an adapter that renders by calling `f`.
///
/// `f` must accept every sink: `format!` and its relatives choose the sink, and a rendering
/// cannot ask them to meet a precondition. A closure or function without a `requires` does.
#[inline(always)]
pub fn debug_fn<F>(f: F) -> (adapter: DebugFn<F>) where
    F: Fn(&mut Formatter<'_>) -> core::fmt::Result,

    requires
        accepts_every_sink(f),
    ensures
        adapter@ == f,
{
    DebugFn(f)
}

impl<F> DebugFn<F> where F: Fn(&mut Formatter<'_>) -> core::fmt::Result {
    #[verifier::type_invariant]
    spec fn wrapped_accepts_every_sink(self) -> bool {
        accepts_every_sink(self.0)
    }

    /// The display rendering: calls the wrapped callable once on `sink` and returns what it
    /// returned.
    ///
    /// The callable is handed a borrow of `sink` in the state in which `sink` came in. The
    /// state in which the callable leaves that borrow is the state that `sink` goes out with,
    /// and `result` is the callable's result for that borrow: `Ok`, or the callable's error
    /// as it is.
    #[inline]
    pub fn fmt_display(&self, sink: &mut Formatter<'_>) -> (result: core::fmt::Result)
        ensures
            exists|handed: &mut Formatter<'_>|
                *handed == *old(sink) && *final(handed) == *final(sink) && #[trigger] call_ensures(
                    self@,
                    (handed,),
                    result,
                ),
    {
        proof {
            use_type_invariant(self);
            assert(self@ == self.0);
        }
        (self.0)(sink)
    }

    /// The debug rendering: the same one call of the wrapped callable as
    /// [`fmt_display`](Self::fmt_display), under the same contract.
    #[inline]
    pub fn fmt_debug(&self, sink: &mut Formatter<'_>) -> (result: core::fmt::Result)
        ensures
            exists|handed: &mut Formatter<'_>|
                *handed == *old(sink) && *final(handed) == *final(sink) && #[trigger] call_ensures(
                    self@,
                    (handed,),
                    result,
                ),
    {
        proof {
            use_type_invariant(self);
            assert(self@ == self.0);
        }
        (self.0)(sink)
    }
}

/// `{}` renders the adapter by [`DebugFn::fmt_display`].
impl<F> core::fmt::Display for DebugFn<F> where F: Fn(&mut Formatter<'_>) -> core::fmt::Result {
    #[inline]
    fn fmt(&self, f: &mut Formatter<'_>) -> (result: core::fmt::Result)
        ensures
            exists|handed: &mut Formatter<'_>|
                *handed == *old(f) && *final(handed) == *final(f) && #[trigger] call_ensures(
                    self@,
                    (handed,),
                    result,
                ),
    {
        self.fmt_display(f)
    }
}

/// `{:?}` renders the adapter by [`DebugFn::fmt_debug`].
impl<F> core::fmt::Debug for DebugFn<F> where F: Fn(&mut Formatter<'_>) -> core::fmt::Result {
    #[inline]
    fn fmt(&self, f: &mut Formatter<'_>) -> (result: core::fmt::Result)
        ensures
            exists|handed: &mut Formatter<'_>|
                *handed == *old(f) && *final(handed) == *final(f) && #[trigger] call_ensures(
                    self@,
                    (handed,),
                    result,
                ),
    {
        self.fmt_debug(f)
    }
}

} // verus!
