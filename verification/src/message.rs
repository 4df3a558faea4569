use vstd::prelude::*;

verus! {

/// One message ready for the publish/subscribe bus: a topic and the payload
/// text to send on it. All messages this pipeline emits are published with
/// quality of service "at most once" (fire and forget); the transport layer
/// owns that setting.
pub struct OutboundMessage {
    pub topic: String,
    pub payload: String,
}

} // verus!
