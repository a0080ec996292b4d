//! A simple structure for keeping track of the pointer's position during drag operations.

use vstd::prelude::*;

verus! {

/// A simple structure for keeping track of the pointer's position during drag operations.
///
/// `T` is the user's data on the drag, for example an enum for the kind of drag; `P` is a
/// position. The structure keeps the last position it was told of and hands it back when
/// the next one comes, so that the caller can take the difference of the two.
#[derive(Debug, Clone)]
pub struct DragState<T, P> {
    /// User data type for specifying the state of the drag.
    state: Option<T>,
    /// Last known position of the pointer.
    prev_pos: Option<P>,
}

impl<T, P> DragState<T, P> {
    /// The user data of the drag that is under way, if one is.
    pub closed spec fn user_state(&self) -> Option<T> {
        self.state
    }

    /// The last position that the structure was told of since the drag began.
    pub closed spec fn last_position(&self) -> Option<P> {
        self.prev_pos
    }

    /// Whether a drag is under way.
    pub open spec fn is_active(&self) -> bool {
        self.user_state().is_some()
    }

    pub fn new() -> (drag: Self)
        ensures
            drag.user_state().is_none(),
            drag.last_position().is_none(),
    {
        DragState { state: None, prev_pos: None }
    }

    /// True if the drag is currently active i.e. holding down the button.
    pub fn active(&self) -> (active: bool)
        ensures
            active == self.is_active(),
    {
        self.state.is_some()
    }

    /// Returns the user state data if there is any.
    pub fn state(&self) -> (state: &Option<T>)
        ensures
            *state == self.user_state(),
    {
        &self.state
    }

    /// Begins a drag operation with the provided state. Returns the previous state, if any.
    pub fn activate(&mut self, new_state: T, starting_pos: Option<P>) -> (previous: Option<T>)
        ensures
            previous == old(self).user_state(),
            final(self).user_state() == Some(new_state),
            final(self).last_position() == starting_pos,
    {
        self.prev_pos = starting_pos;
        let previous = self.state.take();
        self.state = Some(new_state);
        previous
    }

    /// Ends the current drag operation if active and returns the state.
    pub fn deactivate(&mut self) -> (previous: Option<T>)
        ensures
            previous == old(self).user_state(),
            final(self).user_state().is_none(),
            final(self).last_position().is_none(),
    {
        self.prev_pos = None;
        self.state.take()
    }

    /// Takes note of the pointer's new position. Returns `Err(())` if no drag is active, and
    /// then changes nothing; otherwise returns the position noted before, `None` if this is
    /// the first one of the drag, and keeps `new_pos` in its place.
    pub fn update(&mut self, new_pos: P) -> (res: Result<Option<P>, ()>)
        ensures
            final(self).user_state() == old(self).user_state(),
            old(self).is_active() ==> res == Ok::<Option<P>, ()>(old(self).last_position())
                && final(self).last_position() == Some(new_pos),
            !old(self).is_active() ==> res == Err::<Option<P>, ()>(()) && *final(self) == *old(
                self,
            ),
    {
        if self.state.is_some() {
            let previous = self.prev_pos.take();
            self.prev_pos = Some(new_pos);
            Ok(previous)
        } else {
            Err(())
        }
    }
}

impl<T, P> Default for DragState<T, P> {
    fn default() -> (drag: Self)
        ensures
            drag.user_state().is_none(),
            drag.last_position().is_none(),
    {
        DragState::new()
    }
}

} // verus!
