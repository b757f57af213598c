//! A game of tic-tac-toe: the rules, the text shown to players, and the
//! decisions of the terminal and web front ends.
pub mod text;
pub mod game;
pub mod interface;
pub mod ui;
pub mod input;
pub mod display;
pub mod web;
