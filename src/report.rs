//! The report of a panic, and where it goes: a panic of the main thread ends
//! the process, a panic of any other thread is sent to the supervisor.
use vstd::prelude::*;

use crate::context::{report_spec, ContextType, ErrorContext};
use crate::instructions::AppInstruction;
use crate::text::{decimal, push_decimal};

verus! {

/// The exit status of the process after a panic of the main thread.
pub const PANIC_EXIT_CODE: i32 = 1;

/// The text of an optional panic message.
pub open spec fn message_text(message: Option<&str>) -> Option<Seq<char>> {
    match message {
        Some(m) => Some(m@),
        None => None,
    }
}

/// The file and line of an optional panic location.
pub open spec fn location_text(location: Option<(&str, u32)>) -> Option<(Seq<char>, nat)> {
    match location {
        Some((file, line)) => Some((file@, line as nat)),
        None => None,
    }
}

/// The line that names the thread that panicked, with the message and the
/// location where they are known.
pub open spec fn panic_header(
    thread: Seq<char>,
    message: Option<Seq<char>>,
    location: Option<(Seq<char>, nat)>,
) -> Seq<char> {
    "\u{1b}[0;0mError: \u{1b}[0;31mthread '"@ + thread + "' panicked"@ + match message {
        Some(m) => " at '"@ + m + "'"@,
        None => Seq::empty(),
    } + match location {
        Some((file, line)) => ": "@ + file + ":"@ + decimal(line),
        None => Seq::empty(),
    } + "\n\u{1b}[0;0m"@
}

/// The report of a panic: the trail of the thread, a blank line, the header
/// line, then the stack trace.
pub open spec fn panic_report_spec(
    trail: Seq<ContextType>,
    thread: Seq<char>,
    message: Option<Seq<char>>,
    location: Option<(Seq<char>, nat)>,
    backtrace: Seq<char>,
) -> Seq<char> {
    report_spec(trail) + "\n"@ + panic_header(thread, message, location) + backtrace
}

/// Composes the report of a panic of the thread named `thread` whose trail is
/// `ctx`, from the message and the location where they are known and the
/// rendered stack trace `backtrace`.
pub fn compose_report(
    ctx: &ErrorContext,
    thread: &str,
    message: Option<&str>,
    location: Option<(&str, u32)>,
    backtrace: &str,
) -> (r: String)
    ensures
        r@ == panic_report_spec(
            ctx@,
            thread@,
            message_text(message),
            location_text(location),
            backtrace@,
        ),
{
    let mut r = ctx.to_string();
    r.append("\n");
    r.append("\u{1b}[0;0mError: \u{1b}[0;31mthread '");
    r.append(thread);
    r.append("' panicked");
    let ghost after_thread = r@;
    match message {
        Some(m) => {
            r.append(" at '");
            r.append(m);
            r.append("'");
        },
        None => {},
    }
    let ghost after_message = r@;
    match location {
        Some((file, line)) => {
            r.append(": ");
            r.append(file);
            r.append(":");
            push_decimal(&mut r, line);
        },
        None => {},
    }
    let ghost after_location = r@;
    r.append("\n\u{1b}[0;0m");
    r.append(backtrace);
    proof {
        let m = match message_text(message) {
            Some(m) => " at '"@ + m + "'"@,
            None => Seq::<char>::empty(),
        };
        let l = match location_text(location) {
            Some((file, line)) => ": "@ + file + ":"@ + decimal(line),
            None => Seq::<char>::empty(),
        };
        assert(after_message =~= after_thread + m);
        assert(after_location =~= after_message + l);
        assert(r@ =~= panic_report_spec(
            ctx@,
            thread@,
            message_text(message),
            location_text(location),
            backtrace@,
        ));
    }
    r
}

/// Relies on `backtrace::Backtrace::new`, which captures and resolves the
/// stack of the calling thread, and on its `Debug` rendering. What comes back
/// depends on the machine and the moment, so nothing is said of it.
#[verifier::external_body]
fn capture_backtrace() -> String {
    format!("{:?}", backtrace::Backtrace::new())
}

/// Composes the report of a panic of the thread named `thread` whose trail is
/// `ctx`, with the stack trace of the calling thread at this moment.
pub fn panic_report(
    ctx: &ErrorContext,
    thread: &str,
    message: Option<&str>,
    location: Option<(&str, u32)>,
) -> (r: String)
    ensures
        exists|backtrace: Seq<char>|
            r@ == panic_report_spec(
                ctx@,
                thread@,
                message_text(message),
                location_text(location),
                backtrace,
            ),
{
    let backtrace = capture_backtrace();
    compose_report(ctx, thread, message, location, backtrace.as_str())
}

/// What is done with the report of a panic.
#[derive(Debug, Clone)]
pub enum PanicRoute {
    /// Print the report and end the process with the given status.
    Terminate { report: String, exit_code: i32 },
    /// Send the instruction to the supervisor and let the thread unwind.
    Notify(AppInstruction),
}

/// Decides where the report of a panic of the thread named `thread` goes: a
/// panic of the main thread ends the process with a non-zero status, any other
/// is sent to the supervisor as an error instruction.
pub fn route_panic(thread: &str, report: String) -> (r: PanicRoute)
    ensures
        thread@ == "main"@ ==> r == (PanicRoute::Terminate { report, exit_code: PANIC_EXIT_CODE }),
        thread@ != "main"@ ==> r == PanicRoute::Notify(AppInstruction::Error(report)),
{
    let name = String::from_str(thread);
    let main = String::from_str("main");
    if name == main {
        PanicRoute::Terminate { report, exit_code: PANIC_EXIT_CODE }
    } else {
        PanicRoute::Notify(AppInstruction::Error(report))
    }
}

} // verus!
