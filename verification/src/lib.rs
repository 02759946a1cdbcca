//! Rules-engine helpers for three-player riichi mahjong (sanma): the shape
//! constants of the model interface, final rankings, the mapping between the
//! canonical and the trained action layouts, hand tallies and the seating
//! plan of the three-way arena.

pub mod consts;
pub mod rankings;
pub mod action;
pub mod hand;
pub mod arena;
pub mod wasm;
