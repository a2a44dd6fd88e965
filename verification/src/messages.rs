//! The texts that the shell writes to its diagnostic log and publishes to
//! the user interface, and the names under which it publishes them.

use crate::decimal::{decimal, decimal_string};
use vstd::prelude::*;
use vstd::string::*;

verus! {

/// How long the supervisor waits before it starts the backend again, in
/// seconds. The same delay follows a failed start and an ended process.
pub const BACKOFF_SECONDS: u64 = 2;

/// Name of the backend executable that is started beside the application.
pub open spec fn backend_program() -> Seq<char> {
    "conciliacion-backend"@
}

/// The flag that precedes the port number on the backend's command line.
pub open spec fn port_flag() -> Seq<char> {
    "--port"@
}

/// Status line: a port was chosen at startup.
pub open spec fn selected_port_line(port: u16) -> Seq<char> {
    "[Rust] Selected dynamic backend port: "@ + decimal(port as nat)
}

/// Status line: the backend is about to be started.
pub open spec fn spawning_line(port: u16) -> Seq<char> {
    "[Rust] Spawning backend sidecar on port "@ + decimal(port as nat) + "..."@
}

/// Status line: the backend was started.
pub open spec fn started_line() -> Seq<char> {
    "[Rust] Backend started successfully"@
}

/// Status line: the backend's output ended.
pub open spec fn exited_line() -> Seq<char> {
    "[Rust] Backend process exited unexpectedly. Restarting in 2 seconds..."@
}

/// Status line: the backend could not be started; `error` is the reason as
/// the operating system gave it.
pub open spec fn spawn_failed_line(error: Seq<char>) -> Seq<char> {
    "[Rust] Failed to spawn sidecar: "@ + error
}

/// Status line: another start will be attempted.
pub open spec fn retrying_line() -> Seq<char> {
    "[Rust] Retrying in 2 seconds..."@
}

/// Log line for one line of the backend's standard output.
pub open spec fn child_output_log(line: Seq<char>) -> Seq<char> {
    "[PY] "@ + line
}

/// Log line for one line of the backend's standard error.
pub open spec fn child_error_log(line: Seq<char>) -> Seq<char> {
    "[PY ERR] "@ + line
}

/// Whether `part` occurs in `text` as a contiguous run of characters.
pub open spec fn contains_text(text: Seq<char>, part: Seq<char>) -> bool {
    exists|from: int|
        0 <= from && from + part.len() <= text.len() && #[trigger] text.subrange(
            from,
            from + part.len(),
        ) == part
}

/// Name of the backend executable.
pub fn backend_program_text() -> (text: String)
    ensures
        text@ == backend_program(),
{
    String::from_str("conciliacion-backend")
}

/// The flag that precedes the port number.
pub fn port_flag_text() -> (text: String)
    ensures
        text@ == port_flag(),
{
    String::from_str("--port")
}

/// Status line: a port was chosen at startup.
pub fn selected_port_text(port: u16) -> (text: String)
    ensures
        text@ == selected_port_line(port),
{
    let number = decimal_string(port);
    String::from_str("[Rust] Selected dynamic backend port: ").concat(number.as_str())
}

/// Status line: the backend is about to be started on `port`.
pub fn spawning_text(port: u16) -> (text: String)
    ensures
        text@ == spawning_line(port),
{
    let number = decimal_string(port);
    String::from_str("[Rust] Spawning backend sidecar on port ").concat(number.as_str()).concat(
        "...",
    )
}

/// Status line: the backend was started.
pub fn started_text() -> (text: String)
    ensures
        text@ == started_line(),
{
    String::from_str("[Rust] Backend started successfully")
}

/// Status line: the backend's output ended.
pub fn exited_text() -> (text: String)
    ensures
        text@ == exited_line(),
{
    String::from_str("[Rust] Backend process exited unexpectedly. Restarting in 2 seconds...")
}

/// Status line: the backend could not be started, for the reason given.
pub fn spawn_failed_text(error: &str) -> (text: String)
    ensures
        text@ == spawn_failed_line(error@),
{
    String::from_str("[Rust] Failed to spawn sidecar: ").concat(error)
}

/// Status line: another start will be attempted.
pub fn retrying_text() -> (text: String)
    ensures
        text@ == retrying_line(),
{
    String::from_str("[Rust] Retrying in 2 seconds...")
}

/// Log line for one line of the backend's standard output.
pub fn child_output_log_text(line: &str) -> (text: String)
    ensures
        text@ == child_output_log(line@),
{
    String::from_str("[PY] ").concat(line)
}

/// Log line for one line of the backend's standard error.
pub fn child_error_log_text(line: &str) -> (text: String)
    ensures
        text@ == child_error_log(line@),
{
    String::from_str("[PY ERR] ").concat(line)
}

/// The failure line ends with the reason it was given, whatever the reason.
pub proof fn lemma_failure_line_carries_reason(error: Seq<char>)
    ensures
        spawn_failed_line(error).len() >= error.len(),
        spawn_failed_line(error).subrange(
            spawn_failed_line(error).len() - error.len(),
            spawn_failed_line(error).len() as int,
        ) == error,
        contains_text(spawn_failed_line(error), error),
{
    let line = spawn_failed_line(error);
    let from = line.len() - error.len();
    assert(line.subrange(from, from + error.len()) =~= error);
}

} // verus!
