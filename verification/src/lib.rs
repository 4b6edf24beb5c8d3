//! Service-oriented design: fallible units of work with one input and one
//! output, and the combinators that chain, fork, retry and poll them.
//!
//! A unit of work is a [`Service`] when it can be driven through a shared
//! reference and a [`MutService`] when it needs exclusive access. Each unit
//! states, as two specification functions, which inputs it accepts and which
//! results it may give; every combinator derives its own pair from those of
//! the units it wraps, so that what a composed unit does can be read off its
//! parts:
//!
//! - a [`ServiceChain`] runs its links in order and stops at the first that
//!   fails, leaving the links after it untouched;
//! - a [`RetryService`] drives a [`Retryable`] unit until it succeeds, fails
//!   for good or is interrupted by its idle strategy;
//! - a [`PollService`] asks a source again and again while it has nothing;
//! - the strategies in [`idle`] decide how to wait between two attempts.
//!
//! Nothing here waits, spawns a thread or suspends: the library decides, and
//! its caller performs. Units over channels and queues are in [`mpsc`],
//! [`queue`] and [`broadcast`]; the decisions of WebSocket sessions are in
//! [`socket`] and [`ws`].
//!
//! Where a unit wraps a closure, its contract is that of the closure. A
//! verified caller reasons about such a unit in a function that is generic
//! over the closure's type and states what it needs of the closure there.

pub mod broadcast;
pub mod chain;
pub mod dynamic;
pub mod fork;
pub mod idle;
pub mod lift;
pub mod logging;
pub mod mpsc;
pub mod poll;
pub mod queue;
pub mod retry;
pub mod service;
pub mod share;
pub mod socket;
pub mod stop;
pub mod text;
pub mod thread;
pub mod ws;

pub use crate::service::CloneService;
pub use crate::service::FnMutService;
pub use crate::service::FnService;
pub use crate::service::IntoService;
pub use crate::service::MutService;
pub use crate::service::NoOpService;
pub use crate::service::Service;
pub use crate::service::ServiceMut;
pub use crate::service::TryIntoService;
pub use crate::chain::Cause;
pub use crate::chain::MutServiceChainBuilder;
pub use crate::chain::ServiceChain;
pub use crate::chain::ServiceChainBuilder;
pub use crate::chain::ServiceChainError;
pub use crate::dynamic::DynMutService;
pub use crate::dynamic::DynService;
pub use crate::fork::CloningForkService;
pub use crate::fork::RefForkService;
pub use crate::lift::IntoIterService;
pub use crate::lift::MaybeProcessService;
pub use crate::poll::PollService;
pub use crate::retry::RetryError;
pub use crate::retry::RetryService;
pub use crate::retry::RetryToOptionService;
pub use crate::retry::Retryable;
pub use crate::share::ArcService;
pub use crate::share::MutexService;
pub use crate::stop::StopService;
pub use crate::stop::Stopped;
