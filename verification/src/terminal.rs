//! Terminal state bookkeeping.
use vstd::prelude::*;

verus! {

/// Whether mouse capture is on when no layer has asked otherwise.
pub open spec fn default_capture() -> bool {
    true
}

/// The capture state that a stack of requests yields: the most recent
/// request wins, and an empty stack means capture is on.
pub open spec fn capture_state(s: Seq<bool>) -> bool {
    if s.len() == 0 {
        default_capture()
    } else {
        s.last()
    }
}

/// A stack of nested mouse-capture requests.
///
/// Each screen or widget that needs a different capture mode pushes its
/// request and pops it when done; the innermost request decides.
pub struct MouseCaptureStack {
    stack: Vec<bool>,
}

impl View for MouseCaptureStack {
    type V = Seq<bool>;

    closed spec fn view(&self) -> Seq<bool> {
        self.stack@
    }
}

impl MouseCaptureStack {
    /// An empty stack: capture is enabled.
    pub fn new() -> (s: Self)
        ensures
            s@ == Seq::<bool>::empty(),
            capture_state(s@),
    {
        MouseCaptureStack { stack: Vec::new() }
    }

    /// Whether mouse capture is currently enabled.
    pub fn is_enabled(&self) -> (b: bool)
        ensures
            b == capture_state(self@),
    {
        if self.stack.len() == 0 {
            true
        } else {
            self.stack[self.stack.len() - 1]
        }
    }

    /// Push a new capture request; returns the state before the push.
    pub fn push(&mut self, enabled: bool) -> (prev: bool)
        ensures
            final(self)@ == old(self)@.push(enabled),
            prev == capture_state(old(self)@),
            capture_state(final(self)@) == enabled,
    {
        let prev = self.is_enabled();
        self.stack.push(enabled);
        prev
    }

    /// Pop the innermost request (a no-op on an empty stack); returns the
    /// state after the pop.
    pub fn pop(&mut self) -> (now: bool)
        ensures
            old(self)@.len() == 0 ==> final(self)@ == old(self)@,
            old(self)@.len() > 0 ==> final(self)@ == old(self)@.drop_last(),
            now == capture_state(final(self)@),
    {
        if self.stack.len() > 0 {
            self.stack.pop();
        }
        self.is_enabled()
    }

    /// Drop every request: capture returns to its default.
    pub fn reset(&mut self)
        ensures
            final(self)@ == Seq::<bool>::empty(),
            capture_state(final(self)@),
    {
        self.stack.clear();
    }
}

/// Pushing a request and popping it again restores the stack, and with it
/// the capture state.
pub proof fn lemma_push_pop_restores(s: Seq<bool>, enabled: bool)
    ensures
        s.push(enabled).drop_last() == s,
        capture_state(s.push(enabled).drop_last()) == capture_state(s),
{
    assert(s.push(enabled).drop_last() =~= s);
}

} // verus!
