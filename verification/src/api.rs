//! Interfaces to the outside services that the relay talks to.

pub mod telegram;
