//! Modal screens: a screen that blocks input to the screens beneath it.
use vstd::prelude::*;

verus! {

/// A screen that blocks all keyboard and mouse input to the screens beneath
/// it while it is on top of the screen stack.
///
/// It is a transparent wrapper: it owns one inner widget, which becomes its
/// only child the first time its children are composed.
pub struct ModalScreen<W> {
    inner: Option<W>,
}

impl<W> View for ModalScreen<W> {
    type V = Option<W>;

    /// The inner widget, while it has not been handed out yet.
    closed spec fn view(&self) -> Option<W> {
        self.inner
    }
}

impl<W> ModalScreen<W> {
    /// A modal screen holding `inner`.
    pub fn new(inner: W) -> (r: Self)
        ensures
            r@ == Some(inner),
    {
        ModalScreen { inner: Some(inner) }
    }

    /// The widget's type name.
    pub fn widget_type_name(&self) -> (r: &'static str)
        ensures
            r@ == "ModalScreen"@,
    {
        "ModalScreen"
    }

    /// A modal screen is always modal.
    pub fn is_modal(&self) -> (r: bool)
        ensures
            r,
    {
        true
    }

    /// The children: the inner widget on the first call, nothing after it.
    pub fn compose(&mut self) -> (r: Vec<W>)
        ensures
            final(self)@ is None,
            old(self)@ matches Some(w) ==> r@ == seq![w],
            old(self)@ is None ==> r@ == Seq::<W>::empty(),
    {
        let mut taken: Option<W> = None;
        std::mem::swap(&mut taken, &mut self.inner);
        match taken {
            Some(inner) => {
                let mut v: Vec<W> = Vec::new();
                v.push(inner);
                v
            },
            None => Vec::new(),
        }
    }
}

} // verus!
