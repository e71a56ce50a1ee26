//! The operation log: one file per day, one line per operation.
use vstd::prelude::*;

use crate::text::{to_uppercase, uppercase_of};

verus! {

/// `{date}.log`.
pub fn log_file_name(date: &str) -> (res: String)
    ensures
        res@ == date@ + ".log"@,
{
    date.to_owned().concat(".log")
}

/// The line logged for an operation: `[{time}] [{LEVEL}] [{game}] {message}`
/// and a line break, the level in upper case.
pub open spec fn log_line(timestamp: Seq<char>, level: Seq<char>, game_id: Seq<char>, message: Seq<char>) -> Seq<char> {
    "["@ + timestamp + "] ["@ + uppercase_of(level) + "] ["@ + game_id + "] "@ + message + "\n"@
}

/// See `log_line`.
pub fn format_log_line(timestamp: &str, level: &str, game_id: &str, message: &str) -> (res: String)
    ensures
        res@ == log_line(timestamp@, level@, game_id@, message@),
{
    let upper = to_uppercase(level);
    String::from_str("[").concat(timestamp).concat("] [").concat(upper.as_str()).concat("] [").concat(
        game_id,
    ).concat("] ").concat(message).concat("\n")
}

} // verus!
