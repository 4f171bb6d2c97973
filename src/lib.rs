//! Configuration logic of a personal interactive shell: the prompt
//! segments, the alias and key tables, what each key binding does, and the
//! plan that startup follows given the environment.

pub mod prompt;
pub mod keys;
pub mod aliases;
pub mod startup;
