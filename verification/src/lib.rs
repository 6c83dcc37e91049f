//! The decisions of a binding to the Dynarmic ARM recompiler.
//!
//! The recompiler itself (the engine) is foreign code. Nothing here calls it: each
//! operation says what to ask of the engine, and takes the engine's answer to say what
//! it means. Whoever performs the requests keeps the foreign side.
//!
//! * [`construction`]: making an emulator, step by step.
//! * [`emulator`]: what the operations of an emulator ask for.
//! * [`engine`]: the requests, and the errors that a status stands for.
//! * [`hooks`]: changing hooks while the engine may call them.
//! * [`history`]: what holds after any row of changes.
//! * [`c_string`]: reading a string out of guest memory.
//! * [`context`]: saved CPU states.
//! * [`page_table`]: page tables for fastmem arenas, shared or private.
//! * [`monitor`]: the shared exclusive monitor and its processor ids.
//! * [`jit`], [`switches`]: settings from the environment.
//! * [`egg`]: the engine's greeting.
//! * [`text`]: reading and writing numbers and words.

pub mod c_string;
pub mod construction;
pub mod context;
pub mod egg;
pub mod emulator;
pub mod engine;
pub mod history;
pub mod hooks;
pub mod jit;
pub mod monitor;
pub mod page_table;
pub mod switches;
pub mod text;
