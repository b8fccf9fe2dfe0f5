//! Media sink adapters for a network-video-interconnect (NDI-style) sending
//! endpoint.
//!
//! The crate holds the logic that sits between a host media pipeline and the
//! sending endpoint: translating decoded buffers into outgoing frame
//! descriptors (stride correction, pixel-format mapping, payload sizing) and
//! driving the per-element lifecycle (configure a stream name, open a named
//! connection on start, negotiate a format, transmit on each render, release
//! on stop). The endpoint's network transport itself lives outside the crate;
//! a connection handle records, in order, every frame descriptor it accepts.
use vstd::prelude::*;

pub mod audiosink;
pub mod send;
pub mod videosink;

verus! {

/// The stream name an element announces when no `ndi-name` has been set.
pub open spec fn spec_default_ndi_name() -> Seq<char> {
    "GStreamer NDI Sink"@
}

/// Returns the process-wide default stream name.
pub fn default_ndi_name() -> (name: String)
    ensures
        name@ == spec_default_ndi_name(),
{
    "GStreamer NDI Sink".to_owned()
}

/// The property surface of a sink element: the `ndi-name` of the outgoing
/// stream. Settable at any time; a change takes effect on the next start.
pub struct Settings {
    pub ndi_name: String,
}

impl Default for Settings {
    fn default() -> (s: Self)
        ensures
            s.ndi_name@ == spec_default_ndi_name(),
    {
        Settings { ndi_name: default_ndi_name() }
    }
}

/// Per-buffer failures surfaced to the host pipeline by `render`.
#[derive(Clone, Copy, Debug, PartialEq, Eq, Structural)]
pub enum FlowError {
    /// A buffer arrived while no connection was open; the buffer is dropped.
    NotStarted,
    /// The negotiated pixel format has no entry in the translation table.
    UnsupportedFormat,
}

} // verus!
