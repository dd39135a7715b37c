//! A silent progress bar and spinner that does nothing.
//!
//! Useful for when progress bars are optional.

use vstd::prelude::*;
use crate::inter::{Display, ProgressBar, Spinner, WithTitle};

verus! {

/// An implementor of `Display`, `ProgressBar`, `Spinner` and `WithTitle`
/// that does nothing: no state, no sink, no output.
pub struct Silent;

impl Display for Silent {
    fn refresh(&mut self) {
    }

    fn blank(&mut self) {
    }

    fn println(&mut self, _string: &str) {
    }

    fn eprintln(&mut self, _string: &str) {
    }

    /// The silent display has no title: always empty.
    fn get_title(&self) -> (r: &str)
        ensures
            r@ == Seq::<char>::empty(),
    {
        proof {
            reveal_strlit("");
            assert(""@ =~= Seq::<char>::empty());
        }
        ""
    }

    fn set_title(&mut self, _from: &str) {
    }

    fn update_dimensions(&mut self, _to: usize) {
    }
}

impl ProgressBar for Silent {
    fn set_progress(&mut self, _value: u32) {
    }

    /// The silent bar reports no progress: always zero.
    fn get_progress(&self) -> (r: u32)
        ensures
            r == 0,
    {
        0
    }
}

impl Spinner for Silent {
    fn bump(&mut self) {
    }
}

impl WithTitle for Silent {
    fn add_title(&mut self, _string: &str) {
    }

    fn update(&mut self) {
    }

    fn complete(self) {
    }
}

/// An enum wrapper for a progress bar or spinner that might be silent:
/// every operation is either forwarded to the wrapped indicator or
/// discarded.
pub enum MaybeSilent<T> {
    /// There is no progress display.
    Silent,
    /// There is a progress display.
    Loud(T),
}

/// Return a `MaybeSilent` that is always silent.
pub fn always() -> (r: MaybeSilent<Silent>)
    ensures
        !r.spec_is_loud(),
{
    MaybeSilent::Silent
}

impl<T> MaybeSilent<T> {
    /// Whether this wrapper holds an indicator.
    pub open spec fn spec_is_loud(&self) -> bool {
        match *self {
            MaybeSilent::Loud(_) => true,
            MaybeSilent::Silent => false,
        }
    }

    /// Is this the not silent variant?
    pub fn is_loud(&self) -> (r: bool)
        ensures
            r == self.spec_is_loud(),
    {
        !self.is_silent()
    }

    /// Is this the silent variant?
    pub fn is_silent(&self) -> (r: bool)
        ensures
            r == !self.spec_is_loud(),
    {
        if let MaybeSilent::Silent = self {
            true
        } else {
            false
        }
    }

    /// Create a new `MaybeSilent` with a value.
    pub fn new_some(value: T) -> (r: Self)
        ensures
            r == MaybeSilent::Loud(value),
    {
        MaybeSilent::Loud(value)
    }

    /// Create a new `MaybeSilent` with a potential value.
    pub fn new(from: Option<T>) -> (r: Self)
        ensures
            from matches Some(v) ==> r == MaybeSilent::Loud(v),
            from is None ==> r == MaybeSilent::<T>::Silent,
    {
        match from {
            Some(x) => MaybeSilent::Loud(x),
            None => MaybeSilent::Silent,
        }
    }

    /// Get a reference to the inner indicator if possible.
    pub fn as_ref(&self) -> (r: Option<&T>)
        ensures
            r is Some <==> self.spec_is_loud(),
            self.spec_is_loud() ==> (r matches Some(v) && *v == self->Loud_0),
    {
        match self {
            MaybeSilent::Loud(loud) => Some(loud),
            _ => None,
        }
    }

    /// Get a mutable reference to the inner indicator if possible.
    pub fn as_mut(&mut self) -> (r: Option<&mut T>)
        ensures
            r is Some <==> old(self).spec_is_loud(),
            !old(self).spec_is_loud() ==> *final(self) == *old(self),
    {
        match self {
            MaybeSilent::Loud(loud) => Some(loud),
            _ => None,
        }
    }

    /// Consume this instance and return the inner indicator if possible.
    pub fn into_inner(self) -> (r: Option<T>)
        ensures
            self.spec_is_loud() ==> (r matches Some(v) && v == self->Loud_0),
            !self.spec_is_loud() ==> r is None,
    {
        match self {
            MaybeSilent::Loud(loud) => Some(loud),
            _ => None,
        }
    }

    /// Consume this instance and return silent if it had no value.
    pub fn into_silent(self) -> (r: Option<Silent>)
        ensures
            r is Some <==> !self.spec_is_loud(),
    {
        match self {
            MaybeSilent::Silent => Some(Silent),
            _ => None,
        }
    }
}

impl<T: Display + 'static> MaybeSilent<T> {
    /// Get a mutable reference to the inner value if it displays.
    pub fn as_display_mut(&mut self) -> (r: Option<&mut T>)
        ensures
            r is Some <==> old(self).spec_is_loud(),
            !old(self).spec_is_loud() ==> *final(self) == *old(self),
    {
        match self {
            MaybeSilent::Loud(loud) => Some(loud),
            _ => None,
        }
    }

    /// Get a reference to the inner value if it displays.
    pub fn as_display(&self) -> (r: Option<&T>)
        ensures
            r is Some <==> self.spec_is_loud(),
            self.spec_is_loud() ==> (r matches Some(v) && *v == self->Loud_0),
    {
        match self {
            MaybeSilent::Loud(loud) => Some(loud),
            _ => None,
        }
    }
}

impl<T: ProgressBar + 'static> MaybeSilent<T> {
    /// Get a mutable reference to the inner value if it is a progress bar.
    pub fn as_bar_mut(&mut self) -> (r: Option<&mut T>)
        ensures
            r is Some <==> old(self).spec_is_loud(),
            !old(self).spec_is_loud() ==> *final(self) == *old(self),
    {
        match self {
            MaybeSilent::Loud(loud) => Some(loud),
            _ => None,
        }
    }

    /// Get a reference to the inner value if it is a progress bar.
    pub fn as_bar(&self) -> (r: Option<&T>)
        ensures
            r is Some <==> self.spec_is_loud(),
            self.spec_is_loud() ==> (r matches Some(v) && *v == self->Loud_0),
    {
        match self {
            MaybeSilent::Loud(loud) => Some(loud),
            _ => None,
        }
    }
}

impl<T: Spinner + 'static> MaybeSilent<T> {
    /// Get a mutable reference to the inner value if it is a spinner.
    pub fn as_spinner_mut(&mut self) -> (r: Option<&mut T>)
        ensures
            r is Some <==> old(self).spec_is_loud(),
            !old(self).spec_is_loud() ==> *final(self) == *old(self),
    {
        match self {
            MaybeSilent::Loud(loud) => Some(loud),
            _ => None,
        }
    }

    /// Get a reference to the inner value if it is a spinner.
    pub fn as_spinner(&self) -> (r: Option<&T>)
        ensures
            r is Some <==> self.spec_is_loud(),
            self.spec_is_loud() ==> (r matches Some(v) && *v == self->Loud_0),
    {
        match self {
            MaybeSilent::Loud(loud) => Some(loud),
            _ => None,
        }
    }
}

impl<T: Display> Display for MaybeSilent<T> {
    /// Forwarded when loud; when silent nothing happens at all.
    fn refresh(&mut self)
        ensures
            !old(self).spec_is_loud() ==> *final(self) == *old(self),
    {
        if let MaybeSilent::Loud(this) = self {
            this.refresh();
        }
    }

    /// Forwarded when loud; when silent nothing happens at all.
    fn blank(&mut self)
        ensures
            !old(self).spec_is_loud() ==> *final(self) == *old(self),
    {
        if let MaybeSilent::Loud(this) = self {
            this.blank();
        }
    }

    /// Forwarded when loud; when silent nothing happens at all.
    fn println(&mut self, string: &str)
        ensures
            !old(self).spec_is_loud() ==> *final(self) == *old(self),
    {
        if let MaybeSilent::Loud(this) = self {
            this.println(string);
        }
    }

    /// Forwarded when loud; when silent nothing happens at all.
    fn eprintln(&mut self, string: &str)
        ensures
            !old(self).spec_is_loud() ==> *final(self) == *old(self),
    {
        if let MaybeSilent::Loud(this) = self {
            this.eprintln(string);
        }
    }

    /// Forwarded when loud; empty when silent.
    fn get_title(&self) -> (r: &str)
        ensures
            !self.spec_is_loud() ==> r@ == Seq::<char>::empty(),
    {
        match self {
            MaybeSilent::Loud(this) => this.get_title(),
            _ => {
                proof {
                    reveal_strlit("");
                    assert(""@ =~= Seq::<char>::empty());
                }
                ""
            },
        }
    }

    /// Forwarded when loud; when silent nothing happens at all.
    fn set_title(&mut self, from: &str)
        ensures
            !old(self).spec_is_loud() ==> *final(self) == *old(self),
    {
        if let MaybeSilent::Loud(this) = self {
            this.set_title(from);
        }
    }

    /// Forwarded when loud; when silent nothing happens at all.
    fn update_dimensions(&mut self, to: usize)
        ensures
            !old(self).spec_is_loud() ==> *final(self) == *old(self),
    {
        if let MaybeSilent::Loud(this) = self {
            this.update_dimensions(to);
        }
    }
}

impl<T: ProgressBar> ProgressBar for MaybeSilent<T> {
    /// Forwarded when loud; when silent nothing happens at all.
    fn set_progress(&mut self, value: u32)
        ensures
            !old(self).spec_is_loud() ==> *final(self) == *old(self),
    {
        if let MaybeSilent::Loud(this) = self {
            this.set_progress(value);
        }
    }

    /// Forwarded when loud; zero when silent.
    fn get_progress(&self) -> (r: u32)
        ensures
            !self.spec_is_loud() ==> r == 0,
    {
        match self {
            MaybeSilent::Loud(this) => this.get_progress(),
            _ => 0,
        }
    }
}

impl<T: Spinner> Spinner for MaybeSilent<T> {
    /// Forwarded when loud; when silent nothing happens at all.
    fn bump(&mut self)
        ensures
            !old(self).spec_is_loud() ==> *final(self) == *old(self),
    {
        if let MaybeSilent::Loud(this) = self {
            this.bump();
        }
    }
}

impl<T: WithTitle> WithTitle for MaybeSilent<T> {
    /// Forwarded when loud; when silent nothing happens at all.
    fn add_title(&mut self, string: &str)
        ensures
            !old(self).spec_is_loud() ==> *final(self) == *old(self),
    {
        if let MaybeSilent::Loud(this) = self {
            this.add_title(string);
        }
    }

    /// Forwarded when loud; when silent nothing happens at all.
    fn update(&mut self)
        ensures
            !old(self).spec_is_loud() ==> *final(self) == *old(self),
    {
        if let MaybeSilent::Loud(this) = self {
            this.update();
        }
    }

    fn complete(self) {
        if let MaybeSilent::Loud(this) = self {
            this.complete();
        }
    }
}

} // verus!
