//! Values of the command line shared by several commands, and which side
//! the human moves for.

use vstd::prelude::*;

use crate::position::Color;

verus! {

/// Which side the engine plays.
#[derive(Debug, Clone, Copy, PartialEq, Eq, Structural)]
pub enum EngineColor {
    /// Engine plays white; human plays black.
    White,
    /// Engine plays black; human plays white.
    Black,
    /// Engine plays both sides.
    Both,
    /// Neither side is the engine: the human moves for both.
    Neither,
}

/// The human moves for `mover`: the engine does not play that side.
pub open spec fn spec_user_owns(mover: Color, engine_color: EngineColor) -> bool {
    match engine_color {
        EngineColor::Neither => true,
        EngineColor::Both => false,
        EngineColor::White => mover != Color::White,
        EngineColor::Black => mover != Color::Black,
    }
}

/// Whether the human moves for `mover`.
pub fn user_owns(mover: Color, engine_color: EngineColor) -> (r: bool)
    ensures
        r == spec_user_owns(mover, engine_color),
{
    match engine_color {
        EngineColor::Neither => true,
        EngineColor::Both => false,
        EngineColor::White => mover != Color::White,
        EngineColor::Black => mover != Color::Black,
    }
}

} // verus!
