//! Polls a code-review host for open merge requests and relays a formatted
//! summary to chat webhooks. The verified core is the pure pipeline:
//! configuration -> request planning -> filtering -> formatting -> delivery
//! planning -> success counting. Network I/O itself lives outside the library.

pub mod coffee_config;
pub mod decimal;
pub mod gitlab_client;
pub mod post_message;
