//! Sessions and the terminal that each connected session renders into.

pub mod parser;
pub mod renderer;
pub mod theorems;
pub mod session;
pub mod manager;
pub mod pty;

pub use manager::{
    connect_session, create_session, disconnect_session, get_sessions, resize_pty, send_input,
    SessionManager,
};
pub use session::{Session, SessionStatus, TerminalError, TerminalOutput};
