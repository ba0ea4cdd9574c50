//! What holds of the two renderings of every adapter.
//!
//! The laws are stated of the functions themselves: `call_ensures` of [`debug_fn`], of
//! [`DebugFn::fmt_display`] and of [`DebugFn::fmt_debug`] says that this call can have this
//! outcome. `{}` and `{:?}` go through these two functions and promise the same.
//!
//! A sink appears as the borrow that a rendering is handed: `*sink` is its state when the
//! rendering starts, `*final(sink)` its state when the rendering is done.

use vstd::prelude::*;
use core::fmt::Formatter;
use crate::adapter::{debug_fn, DebugFn};

verus! {

/// Whether the display rendering or the debug rendering of `adapter` can return `result` when
/// it is handed the borrow `sink`.
pub open spec fn renders<F>(
    adapter: DebugFn<F>,
    sink: &mut Formatter<'_>,
    result: core::fmt::Result,
) -> bool where F: Fn(&mut Formatter<'_>) -> core::fmt::Result {
    ||| call_ensures(DebugFn::<F>::fmt_display, (&adapter, sink), result)
    ||| call_ensures(DebugFn::<F>::fmt_debug, (&adapter, sink), result)
}

/// A rendering is one call of the wrapped callable and nothing else: whatever either
/// rendering of `debug_fn(callable)` does to a sink and returns, `callable` itself can do to
/// a sink in the same state and return. In particular the adapter has no failure of its own.
pub proof fn lemma_rendering_is_a_call_of_the_callable<F>(
    callable: F,
    adapter: DebugFn<F>,
    sink: &mut Formatter<'_>,
    result: core::fmt::Result,
) where F: Fn(&mut Formatter<'_>) -> core::fmt::Result
    requires
        call_ensures(debug_fn::<F>, (callable,), adapter),
        renders(adapter, sink, result),
    ensures
        exists|handed: &mut Formatter<'_>|
            *handed == *old(sink) && *final(handed) == *final(sink) && #[trigger] call_ensures(
                callable,
                (handed,),
                result,
            ),
{
}

/// If `callable`, called on a sink in the state of `sink`, always succeeds and always leaves
/// the sink in the state `written`, then the display rendering and the debug rendering of
/// `debug_fn(callable)` both succeed on `sink` and both leave it in the state `written`: what
/// is in the sink is what `callable` alone writes.
pub proof fn lemma_renders_what_the_callable_writes<F>(
    callable: F,
    adapter: DebugFn<F>,
    sink: &mut Formatter<'_>,
    result: core::fmt::Result,
    written: Formatter<'_>,
) where F: Fn(&mut Formatter<'_>) -> core::fmt::Result
    requires
        call_ensures(debug_fn::<F>, (callable,), adapter),
        forall|s: &mut Formatter<'_>, out: core::fmt::Result|
            *s == *sink && #[trigger] call_ensures(callable, (s,), out) ==> out is Ok && *final(s)
                == written,
        renders(adapter, sink, result),
    ensures
        result is Ok,
        *final(sink) == written,
{
}

/// If `callable`, called on a sink in the state of `sink`, always fails with the error `e`,
/// then the display rendering and the debug rendering of `debug_fn(callable)` both fail on
/// `sink` with `e`.
pub proof fn lemma_fails_as_the_callable_fails<F>(
    callable: F,
    adapter: DebugFn<F>,
    sink: &mut Formatter<'_>,
    result: core::fmt::Result,
    e: core::fmt::Error,
) where F: Fn(&mut Formatter<'_>) -> core::fmt::Result
    requires
        call_ensures(debug_fn::<F>, (callable,), adapter),
        forall|s: &mut Formatter<'_>, out: core::fmt::Result|
            *s == *sink && #[trigger] call_ensures(callable, (s,), out) ==> out == Err::<(), _>(e),
        renders(adapter, sink, result),
    ensures
        result == Err::<(), _>(e),
{
}

/// If what `callable` does to a sink in the state of `first` is determined by that state,
/// then rendering `debug_fn(callable)` twice, each time on a sink in that state and each time
/// by either rendering, returns the same result twice and leaves the two sinks in the same
/// state.
pub proof fn lemma_rendering_again_gives_the_same<F>(
    callable: F,
    adapter: DebugFn<F>,
    first: &mut Formatter<'_>,
    first_result: core::fmt::Result,
    second: &mut Formatter<'_>,
    second_result: core::fmt::Result,
) where F: Fn(&mut Formatter<'_>) -> core::fmt::Result
    requires
        call_ensures(debug_fn::<F>, (callable,), adapter),
        forall|
            s1: &mut Formatter<'_>,
            out1: core::fmt::Result,
            s2: &mut Formatter<'_>,
            out2: core::fmt::Result,
        |
            *s1 == *first && *s2 == *first && #[trigger] call_ensures(callable, (s1,), out1)
                && #[trigger] call_ensures(callable, (s2,), out2) ==> out1 == out2 && *final(s1)
                == *final(s2),
        *second == *first,
        renders(adapter, first, first_result),
        renders(adapter, second, second_result),
    ensures
        first_result == second_result,
        *final(first) == *final(second),
{
}

} // verus!
