//! Verified core of the Secondhand marketplace back end: the records it
//! stores, the responses it renders, and the rules its request handlers
//! apply (who may touch which row, how orders move between states, how
//! uploaded files are named, how secrets are hashed and sealed).
pub mod app;
pub mod error;
pub mod text;
pub mod views;
pub mod models;
pub mod controllers;
