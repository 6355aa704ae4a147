//! A process supervisor's decision engine: it tracks which child process
//! belongs to which configured app, decides when to start, restart and stop
//! children, and frames and prefixes their output lines.
pub mod pid;
pub mod text;
pub mod config;
pub mod events;
pub mod framing;
pub mod table;
pub mod reactor;
pub mod laws;
pub mod environment;
