//! Turn-taking with external engines: which step to take next for the side
//! to move. Talking to the engine process is the caller's part.
use vstd::prelude::*;

use crate::board::State;
use crate::piece::Color;

verus! {

/// The next step with the engine of the side to move.
#[derive(Copy, Clone, Debug, PartialEq, Eq, Structural)]
pub enum EngineStep {
    /// No engine plays the side to move, or the game is over.
    Idle,
    /// Send the position and ask for a move.
    RequestMove,
    /// A move was asked for: read the engine's reply.
    AwaitMove,
}

/// An engine plays the side to move.
pub open spec fn spec_is_engine_turn(state: State, white_engine: bool, black_engine: bool) -> bool {
    match state {
        State::Playing { turn: Color::White } => white_engine,
        State::Playing { turn: Color::Black } => black_engine,
        _ => false,
    }
}

/// Whether an engine plays the side to move.
pub fn is_engine_turn(state: State, white_engine: bool, black_engine: bool) -> (r: bool)
    ensures
        r == spec_is_engine_turn(state, white_engine, black_engine),
{
    match state {
        State::Playing { turn: Color::White } => white_engine,
        State::Playing { turn: Color::Black } => black_engine,
        _ => false,
    }
}

/// The step to take for the side to move: ask its engine for a move, or read
/// the reply to a request already sent.
pub fn engine_step(state: State, white_engine: bool, black_engine: bool, waiting: bool) -> (r:
    EngineStep)
    ensures
        r == if !spec_is_engine_turn(state, white_engine, black_engine) {
            EngineStep::Idle
        } else if waiting {
            EngineStep::AwaitMove
        } else {
            EngineStep::RequestMove
        },
{
    if !is_engine_turn(state, white_engine, black_engine) {
        EngineStep::Idle
    } else if waiting {
        EngineStep::AwaitMove
    } else {
        EngineStep::RequestMove
    }
}

} // verus!
