//! Message dispatch between a web-rendered user interface and host-side
//! command handlers, together with the decisions of the surrounding desktop
//! shell: which asset answers a request, which file changes ask for a reload,
//! and what one turn of the event loop does.

pub mod assets;
pub mod bridge;
pub mod error;
pub mod event_loop;
pub mod handler;
pub mod json;
pub mod message;
pub mod text;
pub mod watch;
