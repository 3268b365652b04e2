//! A two-player, turn-synchronized "light-cycle" grid game.
//!
//! Two snakes move in cardinal directions on a bounded grid, leaving a
//! persistent trail behind them; a player loses by colliding with a wall,
//! its own trail, or the opponent's trail. The simulation is tick-driven:
//! a driver feeds elapsed time and discrete direction intents into [`game::Game`],
//! which accumulates time per player and advances a player by one cell each
//! time its accumulator crosses the move threshold, after checking that the
//! move is safe. An optional reactive heuristic steers player one away from
//! imminent collisions.

pub mod block;
pub mod game;
pub mod player;
