//! The networked-movement core of a fixed-tick multiplayer game.
//!
//! A server simulates every character and captures one snapshot per tick;
//! each client predicts its own character from local input and is corrected
//! by the snapshots it receives. This crate holds the bookkeeping of that
//! exchange: the histories both sides keep, the delta between snapshots,
//! the acknowledgement cursors, and the decisions taken when a prediction
//! and the authoritative state part ways.
//!
//! Numbers that the physics computes with are carried as bit patterns (see
//! [`scalar`]); the arithmetic itself happens outside this crate.
//!
//! On the server: [`player`] keeps what has arrived of each player,
//! [`store`] keeps the snapshots and chooses what each client is sent,
//! [`snapshot`] builds the delta, [`protocol`] says who is told when a
//! player comes or goes, and [`bots`] numbers the characters that no player
//! stands behind. On the client: [`input`] keeps the inputs made,
//! [`reconcile`] takes the updates and leads through a correction, and
//! [`roster`] keeps track of who has been brought to life. Both sides move
//! bodies by the decisions of [`moveable`], tuned by [`config`], and find
//! the weapon in a character's hand with [`weapons`].

pub mod bots;
pub mod config;
pub mod input;
pub mod moveable;
pub mod player;
pub mod protocol;
pub mod reconcile;
pub mod roster;
pub mod scalar;
pub mod snapshot;
pub mod store;
pub mod weapons;
