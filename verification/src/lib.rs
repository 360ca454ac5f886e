//! Decision-making core of a chess-variant engine built on the `monster_chess`
//! board library: a material and piece-square evaluator, a capture-value move
//! orderer, a negamax searcher with alpha-beta pruning, and an iterative
//! deepening driver that manages a time or node budget across depths.

pub mod tables;
pub mod evaluate;
pub mod boardlink;
pub mod search;
pub mod engine;
pub mod minimax;
