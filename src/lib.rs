//! A list-then-watch reflector: a state machine that turns the answers of a
//! resource server's List and Watch operations into an unending, self-healing
//! sequence of change events, and the builder of the versioned List request.

pub mod watcher;
pub mod laws;
mod http_types;
pub mod request;
