//! Plain value types shared with the surrounding command-line application:
//! parsed flag values and the printable message wrapper. Argument parsing,
//! logging setup and printing themselves are the application's I/O; only
//! the values and the decisions on them live here.

pub mod args;
pub mod log;
pub mod printer;
