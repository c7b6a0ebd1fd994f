//! A chess engine's search core: negamax with alpha-beta pruning, an
//! incrementally updated network evaluator, and the tables that serve them.

pub mod bound;
pub mod chess;
pub mod config;
pub mod eval;
pub mod logger;
pub mod nnue;
pub mod perft;
pub mod position;
pub mod search;
pub mod text;
pub mod time_control;
pub mod uci;
