//! Change-triggered render pipeline: a polling change detector, a bounded
//! broadcast hub with lag reporting, a coordinator that turns notifications
//! into render commands, and a render worker that serialises every use of its
//! exclusive rendering session.
pub mod cli;
pub mod coordinator;
pub mod detector;
pub mod hub;
pub mod metrics;
pub mod web;
pub mod worker;

pub use cli::{parse_args, parse_port, ArgsError, Options};
pub use coordinator::Coordinator;
pub use detector::{ChangeDetector, DetectorView, Poll};
pub use hub::{Hub, HubView, Publication, Received, Subscription};
pub use metrics::{Aggregate, Metrics};
pub use web::{content_response, sse_event, SseEvent};
pub use worker::{file_url, RenderFailure, RenderMsg, RenderOutcome, RenderWorker, WorkerAction, WorkerState, WorkerView};
