//! Bulk transaction status updates for the administration of a payment service.
//!
//! A request names transactions and the status they are to be moved to ([`request`]). A batch up
//! to a threshold is updated at once; a larger one is stored as a job and the caller is told
//! where to poll it ([`dispatch`]). A job works through its transactions in chunks ([`job`]),
//! and what is stored of it answers whoever polls it ([`poll`]). [`routes`] says where all that
//! is reached and what guards it, and [`state`] holds what the service knows while it runs.
//!
//! Nothing here waits, reads or sends: every module decides what is to be done and takes what
//! came of it.

pub mod dispatch;
pub mod dispatch_laws;
pub mod error;
pub mod ids;
pub mod job;
pub mod job_laws;
pub mod poll;
pub mod poll_laws;
pub mod request;
pub mod route_laws;
pub mod routes;
pub mod state;
pub mod text;
pub mod text_laws;
