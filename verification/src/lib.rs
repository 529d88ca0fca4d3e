//! A bidirectional bridge between a native host process and an embedded UI
//! surface: it routes named method-call requests from the UI into host-side
//! handlers, encodes and decodes binary file payloads for transport, and
//! pushes asynchronous host-originated events back into the UI.
//!
//! The library holds the decision logic: the request router, the
//! size-guarded base64 transcoder, the backup-safe file-write planner, the
//! event bridge renderer, and the capture-signal gating. The host process
//! around it performs the window, dialog, filesystem and channel operations
//! that these decisions call for.

pub mod capture;
pub mod codec;
pub mod errors;
pub mod events;
pub mod gateway;
pub mod router;

use vstd::prelude::*;

verus! {

} // verus!
