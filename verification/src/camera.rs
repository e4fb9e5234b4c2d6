//! Which way the first-person camera moves for a direction given by name.
//!
//! The camera's vectors are floating-point values and are kept by the
//! application; what is decided here is only the choice among them.

use vstd::prelude::*;

verus! {

/// A move of the camera's position by one step, a step being the product of
/// the movement speed and the time that has passed.
#[derive(Clone, Copy, Debug, PartialEq, Eq, Structural)]
pub enum Movement {
    /// One step against the front vector.
    AgainstFront,
    /// One step against the right vector.
    AgainstRight,
    /// One step along the right vector.
    AlongRight,
    /// The position stays as it is.
    Stay,
}

/// The move that a direction's name stands for. Names are matched exactly,
/// in upper case. `FORWARD` and `BACKWARD` both lead against the front
/// vector; any other text leaves the camera where it is.
pub open spec fn movement_of(direction: Seq<char>) -> Movement {
    if direction == "FORWARD"@ {
        Movement::AgainstFront
    } else if direction == "BACKWARD"@ {
        Movement::AgainstFront
    } else if direction == "LEFT"@ {
        Movement::AgainstRight
    } else if direction == "RIGHT"@ {
        Movement::AlongRight
    } else {
        Movement::Stay
    }
}

/// Whether two texts are the same, character by character.
fn same_text(left: &str, right: &str) -> (same: bool)
    ensures
        same == (left@ == right@),
{
    let left_owned = left.to_owned();
    let right_owned = right.to_owned();
    left_owned == right_owned
}

/// Chooses the camera's move for the direction named by `direction`.
pub fn keyboard_movement(direction: &str) -> (movement: Movement)
    ensures
        movement == movement_of(direction@),
{
    if same_text(direction, "FORWARD") {
        Movement::AgainstFront
    } else if same_text(direction, "BACKWARD") {
        Movement::AgainstFront
    } else if same_text(direction, "LEFT") {
        Movement::AgainstRight
    } else if same_text(direction, "RIGHT") {
        Movement::AlongRight
    } else {
        Movement::Stay
    }
}

} // verus!
