//! Moderation-bot core: content parsing, text helpers and the decision
//! logic behind the group-management commands.

pub mod laws;
pub mod markup;
pub mod plugins;
pub mod text;
pub mod utils;
