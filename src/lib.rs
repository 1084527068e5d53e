//! Running a long computation on a worker thread while its progress is shown,
//! with the state machine that owns the run verified.
pub mod background_task;
pub mod search_select;
pub mod logging;
