use vstd::prelude::*;

verus! {

/// The one value carried from tick to tick: the unit rotation of the last
/// tick that was evaluated. Each stream of ticks owns its own.
pub struct TickState<R> {
    pub prev_unit: R,
}

impl<R> TickState<R> {
    /// A fresh state holding `initial` (the identity rotation, before the first tick).
    pub fn new(initial: R) -> (s: Self)
        ensures
            s.prev_unit == initial,
    {
        TickState { prev_unit: initial }
    }

    /// Records the outcome of one tick: the unit rotation of an evaluated tick
    /// replaces the previous one, and a rejected tick (`None`) leaves it as it was.
    pub fn advance(&mut self, next_unit: Option<R>)
        ensures
            match next_unit {
                Some(u) => final(self).prev_unit == u,
                None => final(self).prev_unit == old(self).prev_unit,
            },
    {
        if let Some(u) = next_unit {
            self.prev_unit = u;
        }
    }
}

} // verus!
