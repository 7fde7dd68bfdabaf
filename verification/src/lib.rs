//! An event dispatch runtime for a chat gateway: inbound events are offered,
//! one at a time and in registration order, to a built-in help handler and to
//! a set of command handlers, each of which keeps its own debounced state.

pub mod bot;
pub mod debounce;
pub mod gateway;
pub mod help;
pub mod matching;
pub mod models;
pub mod plugins;
