//! A minimal desktop shell core: two fire-and-forget operations behind a
//! single dispatch table. One opens a URL with the system's default handler;
//! the other minimizes the caller's window and, after a fixed delay, types a
//! text into whichever window then holds input focus. Every failure along
//! either path is discarded: the caller always gets a normal return.
//!
//! This crate holds the decisions: which work each command stands for, and in
//! what order the injection steps must run. The host performs the actions
//! (window management, the sleep, the synthetic input) and reports each
//! outcome back as an event.

use vstd::prelude::*;

pub mod injector;
pub mod launcher;

verus! {

use crate::injector::{Injector, Phase};
use crate::launcher::LaunchRequest;

/// A command as the GUI front-end invokes it: each carries one opaque string
/// and expects no result back.
pub enum Command {
    /// Open the given URL with the system's default handler.
    OpenUrl(String),
    /// Minimize the caller's window, then type the given text into whichever
    /// window then holds focus.
    TypeText(String),
}

/// The work one command stands for.
pub enum Work {
    /// Hand the request's URL to the default handler; discard the outcome.
    Launch(LaunchRequest),
    /// Drive the injection run: the minimize attempt on the calling thread,
    /// the rest in one detached background unit of its own.
    Inject(Injector),
}

/// The dispatch table: which work each command stands for. Every command is
/// accepted — the strings are opaque here — and dispatching itself never
/// fails and never reports anything back to the front-end.
pub fn dispatch(cmd: Command) -> (w: Work)
    ensures
        cmd matches Command::OpenUrl(url) ==> w matches Work::Launch(r) && r.url_view() == url@,
        cmd matches Command::TypeText(text) ==> w matches Work::Inject(i) && i.wf()
            && i.phase_spec() == Phase::MinimizePending && i.text_view() == text@,
{
    match cmd {
        Command::OpenUrl(url) => Work::Launch(LaunchRequest::new(url)),
        Command::TypeText(text) => Work::Inject(Injector::new(text)),
    }
}

} // verus!
