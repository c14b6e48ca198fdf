//! What is fixed about the service.

use vstd::prelude::*;

verus! {

/// The address of the trial service.
pub const DEFAULT_ENDPOINT: &'static str =
    "wss://eastus.api.speech.microsoft.com/cognitiveservices/websocket/v1";

/// The origin that a client of the trial service names.
pub const ORIGIN: &'static str = "https://azure.microsoft.com";

/// The port of the service where its address names none and its scheme has
/// no port of its own.
pub const DEFAULT_PORT: u16 = 443;

} // verus!
