pub mod chat;
pub mod escape;
pub mod flow;
pub mod laws;
pub mod payloads;
pub mod records;
pub mod runs;
pub mod template;
pub mod text;
