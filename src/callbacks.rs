//! The state behind the five callbacks that the package database library
//! invokes during a transaction.
pub mod download;
pub mod event;
pub mod logging;
pub mod progress;
pub mod question;

use crate::callbacks::download::DlCallback;
use crate::callbacks::event::EventCallback;
use crate::callbacks::logging::LogCallback;
use crate::callbacks::progress::ProgressCallback;
use crate::callbacks::question::QuestionCallback;
use vstd::prelude::*;

verus! {

/// The state of all five callbacks of one library handle, owned together
/// for the handle's lifetime.
#[derive(Clone, Debug)]
pub struct CallbackRegistry {
    pub question: QuestionCallback,
    pub log: LogCallback,
    pub download: DlCallback,
    pub event: EventCallback,
    pub progress: ProgressCallback,
}

/// Fresh callback state for a handle with `db_count` sync databases.
pub fn init(db_count: usize, non_interactive: bool, force: bool) -> (r: CallbackRegistry)
    ensures
        r.question.non_interactive == non_interactive,
        r.question.force == force,
        r.download.well_formed(),
        r.download.db_count == db_count,
        r.download.current_db == 0,
        r.download.bar.length == 0,
        r.download.bar.position == 0,
        r.progress.bar.length == 100,
        r.progress.bar.position == 0,
        r.progress.last_step is None,
{
    CallbackRegistry {
        question: QuestionCallback::with_flags(non_interactive, force),
        log: LogCallback::new(),
        download: DlCallback::new(db_count),
        event: EventCallback::new(),
        progress: ProgressCallback::new(),
    }
}

} // verus!
