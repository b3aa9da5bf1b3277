//! Initialization chain and cooperative task supervisor of a keyboard
//! firmware: the keymap is bootstrapped from persistent storage or a default
//! grid, and the keyboard's jobs are raced and restarted as a group whenever
//! one of them dies.
pub mod bootstrap;
pub mod config;
pub mod keymap;
pub mod race;
pub mod storage;
pub mod supervisor;
