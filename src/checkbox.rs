use vstd::prelude::*;

verus! {

/// A checkbox being built: whether it starts checked, and the handlers to
/// run when it changes, in the order they were added.
pub struct Checkbox<C> {
    pub checked: bool,
    callbacks: Vec<C>,
}

/// An unchecked checkbox with no handlers.
pub fn checkbox<C>() -> (r: Checkbox<C>)
    ensures
        !r.starts_checked(),
        r.callbacks().len() == 0,
{
    Checkbox { checked: false, callbacks: Vec::new() }
}

impl<C> Checkbox<C> {
    /// Whether the checkbox starts checked.
    pub closed spec fn starts_checked(&self) -> bool {
        self.checked
    }

    /// The handlers added so far.
    pub closed spec fn callbacks(&self) -> Seq<C> {
        self.callbacks@
    }

    /// The same checkbox, starting checked or not as `checked` says.
    pub fn value(self, checked: bool) -> (r: Self)
        ensures
            r.starts_checked() == checked,
            r.callbacks() == self.callbacks(),
    {
        Checkbox { checked, callbacks: self.callbacks }
    }

    /// The same checkbox with `callback` added after the other handlers.
    pub fn onchange(self, callback: C) -> (r: Self)
        ensures
            r.starts_checked() == self.starts_checked(),
            r.callbacks() == self.callbacks().push(callback),
    {
        let mut callbacks = self.callbacks;
        callbacks.push(callback);
        Checkbox { checked: self.checked, callbacks }
    }

    /// The initial state and the handlers, in the order they were added.
    pub fn into_parts(self) -> (r: (bool, Vec<C>))
        ensures
            r.0 == self.starts_checked(),
            r.1@ == self.callbacks(),
    {
        (self.checked, self.callbacks)
    }
}

} // verus!
