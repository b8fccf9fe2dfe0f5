//! The video sink element: a state machine the host pipeline drives with
//! `start`, `set_caps`, `render` and `stop`.
//!
//! A connection to the endpoint exists exactly while the element is
//! started. `start` reads the current `ndi-name` and opens a connection
//! bound to it; a later name change leaves the open connection untouched
//! until the next stop/start cycle. `set_caps` commits the negotiated
//! format, each call fully replacing the previous one. `render` requires a
//! started element; it sizes the buffer to the negotiated stride, maps the
//! pixel format and transmits — or drops the buffer when no format has
//! been negotiated yet.
use vstd::prelude::*;

use crate::send::{
    create_ndi_send_video_frame, create_send_instance, fourcc_of, fresh_instance_view, name_valid,
    resized, BuildError, FrameFormatType, SendCreateError, SendInstance, SendInstanceView,
    VideoFormat, VideoFrameView, SEND_TIMECODE_SYNTHESIZE,
};
use crate::{default_ndi_name, spec_default_ndi_name, FlowError, Settings};

verus! {

/// The committed result of a video format negotiation.
#[derive(Clone, Copy, Debug, PartialEq, Eq, Structural)]
pub struct VideoInfo {
    pub width: u32,
    pub height: u32,
    pub format: VideoFormat,
    pub stride: u32,
}

impl VideoInfo {
    /// The payload size a frame of this format carries.
    pub open spec fn payload_size(self) -> nat {
        (self.stride as nat) * (self.height as nat)
    }
}

/// Mutable element state: the negotiated format and the live connection.
pub struct State {
    pub video_info: Option<VideoInfo>,
    pub sender: Option<SendInstance>,
}

impl Default for State {
    fn default() -> (s: Self)
        ensures
            s.video_info is None,
            s.sender is None,
    {
        State { video_info: None, sender: None }
    }
}

/// Contract-level shape of a video sink element.
#[verifier::ext_equal]
pub struct VideoSinkView {
    pub ndi_name: Seq<char>,
    pub video_info: Option<VideoInfo>,
    pub sender: Option<SendInstanceView>,
}

/// The video sink element.
pub struct NdiVideoSink {
    pub settings: Settings,
    pub state: State,
}

impl View for NdiVideoSink {
    type V = VideoSinkView;

    open spec fn view(&self) -> VideoSinkView {
        VideoSinkView {
            ndi_name: self.settings.ndi_name@,
            video_info: self.state.video_info,
            sender: match self.state.sender {
                Some(s) => Some(s@),
                None => None,
            },
        }
    }
}

/// A connection exists if and only if the element is started.
pub open spec fn spec_started(v: VideoSinkView) -> bool {
    v.sender is Some
}

/// How many connections the element holds live: one while started, none
/// otherwise — never more.
pub open spec fn live_connections(v: VideoSinkView) -> nat {
    if v.sender is Some {
        1
    } else {
        0
    }
}

/// A fresh element: default stream name, nothing negotiated, no connection.
pub open spec fn initial_video_sink() -> VideoSinkView {
    VideoSinkView { ndi_name: spec_default_ndi_name(), video_info: None, sender: None }
}

/// The element after its `ndi-name` property is written: an absent value
/// resets the name to the default; the rest of the element — the open
/// connection above all — is untouched.
pub open spec fn spec_set_name(v: VideoSinkView, value: Option<Seq<char>>) -> VideoSinkView {
    VideoSinkView {
        ndi_name: match value {
            Some(n) => n,
            None => spec_default_ndi_name(),
        },
        ..v
    }
}

/// The element after `start`: already started, it is left as it is;
/// otherwise a connection opens under the current name, or nothing changes
/// when the name is invalid.
pub open spec fn spec_start(v: VideoSinkView) -> VideoSinkView {
    if v.sender is Some {
        v
    } else if name_valid(v.ndi_name) {
        VideoSinkView { sender: Some(fresh_instance_view(v.ndi_name, false, false)), ..v }
    } else {
        v
    }
}

/// Whether `start` succeeds: always on a started element, otherwise
/// exactly when the current name is valid.
pub open spec fn spec_start_ok(v: VideoSinkView) -> bool {
    v.sender is Some || name_valid(v.ndi_name)
}

/// The element after `stop`: the connection is released; name and
/// negotiated format survive.
pub open spec fn spec_stop(v: VideoSinkView) -> VideoSinkView {
    VideoSinkView { sender: None, ..v }
}

/// The element after a negotiation event: the new format fully replaces
/// the old; the connection lifecycle is unaffected.
pub open spec fn spec_set_caps(v: VideoSinkView, info: Option<VideoInfo>) -> VideoSinkView {
    VideoSinkView { video_info: info, ..v }
}

/// The frame descriptor `render` hands to the endpoint for a buffer
/// arriving under the negotiated format `info`.
pub open spec fn spec_built_frame(info: VideoInfo, buffer: Seq<u8>) -> VideoFrameView {
    VideoFrameView {
        xres: info.width,
        yres: info.height,
        four_cc: fourcc_of(info.format)->Some_0,
        frame_rate_n: 0,
        frame_rate_d: 0,
        frame_format_type: FrameFormatType::Progressive,
        timecode: SEND_TIMECODE_SYNTHESIZE,
        line_stride_in_bytes: info.stride,
        data: resized(buffer, info.payload_size()),
        metadata: None,
    }
}

/// What `render` returns: `NotStarted` while no connection exists,
/// `UnsupportedFormat` when the negotiated format has no table entry, and
/// success otherwise — also when no format is negotiated yet and the
/// buffer is dropped.
pub open spec fn spec_render_outcome(v: VideoSinkView, buffer: Seq<u8>) -> Result<
    (),
    FlowError,
> {
    if v.sender is None {
        Err(FlowError::NotStarted)
    } else {
        match v.video_info {
            None => Ok(()),
            Some(info) => if fourcc_of(info.format) is Some {
                Ok(())
            } else {
                Err(FlowError::UnsupportedFormat)
            },
        }
    }
}

/// The element after `render`: exactly one frame is transmitted when the
/// element is started under a supported negotiated format; in every other
/// case the element is unchanged and nothing reaches the endpoint.
pub open spec fn spec_render(v: VideoSinkView, buffer: Seq<u8>) -> VideoSinkView {
    if v.sender is Some && v.video_info is Some && fourcc_of(v.video_info->Some_0.format)
        is Some {
        let conn = v.sender->Some_0;
        VideoSinkView {
            sender: Some(
                SendInstanceView {
                    sent_video: conn.sent_video.push(
                        spec_built_frame(v.video_info->Some_0, buffer),
                    ),
                    ..conn
                },
            ),
            ..v
        }
    } else {
        v
    }
}

impl NdiVideoSink {
    /// A fresh element with the default stream name and no connection.
    pub fn new() -> (sink: Self)
        ensures
            sink@ == initial_video_sink(),
    {
        NdiVideoSink { settings: Settings::default(), state: State::default() }
    }

    /// Writes the `ndi-name` property; allowed in any lifecycle state and
    /// without effect on an open connection until the next start.
    pub fn set_property(&mut self, value: Option<String>)
        ensures
            final(self)@ == spec_set_name(old(self)@, value.deep_view()),
    {
        match value {
            Some(v) => {
                self.settings.ndi_name = v;
            },
            None => {
                self.settings.ndi_name = default_ndi_name();
            },
        }
    }

    /// Reads the `ndi-name` property.
    pub fn get_property(&self) -> (name: String)
        ensures
            name@ == self@.ndi_name,
    {
        self.settings.ndi_name.clone()
    }

    /// Opens the connection under the current name. Idempotent: a started
    /// element is left as it is. Fails exactly when no connection exists
    /// and the name cannot be represented for the endpoint.
    pub fn start(&mut self) -> (r: Result<(), SendCreateError>)
        ensures
            final(self)@ == spec_start(old(self)@),
            r is Ok <==> spec_start_ok(old(self)@),
            !spec_start_ok(old(self)@) ==> r == Err::<(), SendCreateError>(
                SendCreateError::InvalidName,
            ),
    {
        if self.state.sender.is_some() {
            return Ok(());
        }
        match create_send_instance(self.settings.ndi_name.clone(), false, false) {
            Ok(inst) => {
                self.state.sender = Some(inst);
                Ok(())
            },
            Err(e) => Err(e),
        }
    }

    /// Commits a negotiation result; `None` records a failed negotiation.
    pub fn set_caps(&mut self, info: Option<VideoInfo>)
        ensures
            final(self)@ == spec_set_caps(old(self)@, info),
    {
        self.state.video_info = info;
    }

    /// Translates one buffer into a frame and transmits it, per
    /// `spec_render` and `spec_render_outcome`.
    pub fn render(&mut self, buffer: &Vec<u8>) -> (r: Result<(), FlowError>)
        requires
            old(self)@.video_info matches Some(info) ==> info.payload_size() <= usize::MAX,
        ensures
            r == spec_render_outcome(old(self)@, buffer@),
            final(self)@ == spec_render(old(self)@, buffer@),
    {
        if self.state.sender.is_none() {
            return Err(FlowError::NotStarted);
        }
        let info = match self.state.video_info {
            Some(info) => info,
            None => {
                return Ok(());
            },
        };
        let builder = create_ndi_send_video_frame(
            info.width,
            info.height,
            FrameFormatType::Progressive,
        ).with_format(info.format).with_data(
            vstd::slice::slice_to_vec(buffer.as_slice()),
            info.stride,
        );
        let frame = match builder.build() {
            Ok(frame) => frame,
            Err(BuildError::UnsupportedFormat) => {
                return Err(FlowError::UnsupportedFormat);
            },
        };
        match &mut self.state.sender {
            Some(sender) => {
                sender.send_video(frame);
                Ok(())
            },
            None => Err(FlowError::NotStarted),
        }
    }

    /// Releases the connection, best-effort and always successful; the
    /// element can start again afterwards.
    pub fn stop(&mut self)
        ensures
            final(self)@ == spec_stop(old(self)@),
    {
        self.state.sender = None;
    }
}

/// Law: an element never holds more than one live connection.
pub proof fn lemma_at_most_one_connection(v: VideoSinkView)
    ensures
        live_connections(v) <= 1,
{
}

/// Law (lifecycle round trip): from any element with a valid name, `start`
/// opens exactly one connection, `stop` releases it, and a further `start`
/// opens one again — the element always comes back startable, holding one
/// or zero connections and never more.
pub proof fn lemma_start_stop_round_trip(v: VideoSinkView)
    requires
        name_valid(v.ndi_name),
    ensures
        ({
            let v1 = spec_start(v);
            let v2 = spec_stop(v1);
            let v3 = spec_start(v2);
            &&& spec_started(v1)
            &&& live_connections(v1) == 1
            &&& !spec_started(v2)
            &&& live_connections(v2) == 0
            &&& spec_start_ok(v2)
            &&& spec_started(v3)
            &&& live_connections(v3) == 1
        }),
{
}

/// Law: rendering on an element that was never started — or has stopped —
/// reaches no endpoint call: the element is unchanged and the buffer is
/// answered with `NotStarted`.
pub proof fn lemma_render_before_start(v: VideoSinkView, buffer: Seq<u8>)
    requires
        !spec_started(v),
    ensures
        spec_render_outcome(v, buffer) == Err::<(), FlowError>(FlowError::NotStarted),
        spec_render(v, buffer) == v,
{
}

/// Law: a buffer under a negotiated format outside the translation table
/// is answered with `UnsupportedFormat` and nothing reaches the endpoint.
pub proof fn lemma_unsupported_format_drops(v: VideoSinkView, buffer: Seq<u8>)
    requires
        spec_started(v),
        v.video_info matches Some(info) && fourcc_of(info.format) is None,
    ensures
        spec_render_outcome(v, buffer) == Err::<(), FlowError>(FlowError::UnsupportedFormat),
        spec_render(v, buffer) == v,
{
}

/// Law (deferred name change): writing `ndi-name` on a started element
/// leaves the open connection — and the name it is bound to — untouched,
/// even across a repeated `start`; only a stop/start cycle opens a
/// connection under the new name.
pub proof fn lemma_name_change_deferred(v: VideoSinkView, new_name: Seq<char>)
    requires
        spec_started(v),
    ensures
        ({
            let v1 = spec_set_name(v, Some(new_name));
            &&& v1.sender == v.sender
            &&& spec_start(v1).sender == v.sender
            &&& name_valid(new_name) ==> spec_start(spec_stop(v1)).sender == Some(
                fresh_instance_view(new_name, false, false),
            )
        }),
{
}

} // verus!
