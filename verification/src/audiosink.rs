//! The audio sink element: the video sink's simplified sibling.
//!
//! Audio carries a single supported sample layout (16-bit little-endian
//! interleaved), so there is no format table and no stride correction: a
//! transmitted payload keeps exactly the input buffer's length. The
//! lifecycle matches the video sink's: a connection exists exactly while
//! the element is started, a buffer arriving earlier is answered with
//! `NotStarted`, and a buffer arriving before any format is recorded is
//! dropped silently.
use vstd::prelude::*;

use crate::send::{
    create_ndi_send_audio_frame, create_send_instance, fresh_instance_view, name_valid,
    AudioFrameView, SendCreateError, SendInstance, SendInstanceView,
};
use crate::{default_ndi_name, spec_default_ndi_name, FlowError, Settings};

verus! {

/// The sample format read from the caps accompanying the audio stream.
#[derive(Clone, Copy, Debug, PartialEq, Eq, Structural)]
pub struct AudioInfo {
    pub rate: u32,
    pub channels: u32,
}

/// Mutable element state: the recorded sample format and the live
/// connection.
pub struct State {
    pub audio_info: Option<AudioInfo>,
    pub sender: Option<SendInstance>,
}

impl Default for State {
    fn default() -> (s: Self)
        ensures
            s.audio_info is None,
            s.sender is None,
    {
        State { audio_info: None, sender: None }
    }
}

/// Contract-level shape of an audio sink element.
#[verifier::ext_equal]
pub struct AudioSinkView {
    pub ndi_name: Seq<char>,
    pub audio_info: Option<AudioInfo>,
    pub sender: Option<SendInstanceView>,
}

/// The audio sink element.
pub struct NdiAudioSink {
    pub settings: Settings,
    pub state: State,
}

impl View for NdiAudioSink {
    type V = AudioSinkView;

    open spec fn view(&self) -> AudioSinkView {
        AudioSinkView {
            ndi_name: self.settings.ndi_name@,
            audio_info: self.state.audio_info,
            sender: match self.state.sender {
                Some(s) => Some(s@),
                None => None,
            },
        }
    }
}

/// A connection exists if and only if the element is started.
pub open spec fn spec_started(v: AudioSinkView) -> bool {
    v.sender is Some
}

/// How many connections the element holds live: one while started, none
/// otherwise — never more.
pub open spec fn live_connections(v: AudioSinkView) -> nat {
    if v.sender is Some {
        1
    } else {
        0
    }
}

/// A fresh element: default stream name, no recorded format, no
/// connection.
pub open spec fn initial_audio_sink() -> AudioSinkView {
    AudioSinkView { ndi_name: spec_default_ndi_name(), audio_info: None, sender: None }
}

/// The element after its `ndi-name` property is written: an absent value
/// resets the name to the default; the open connection is untouched.
pub open spec fn spec_set_name(v: AudioSinkView, value: Option<Seq<char>>) -> AudioSinkView {
    AudioSinkView {
        ndi_name: match value {
            Some(n) => n,
            None => spec_default_ndi_name(),
        },
        ..v
    }
}

/// The element after `start`: already started, it is left as it is;
/// otherwise a connection opens under the current name, or nothing changes
/// when the name is invalid.
pub open spec fn spec_start(v: AudioSinkView) -> AudioSinkView {
    if v.sender is Some {
        v
    } else if name_valid(v.ndi_name) {
        AudioSinkView { sender: Some(fresh_instance_view(v.ndi_name, false, false)), ..v }
    } else {
        v
    }
}

/// Whether `start` succeeds: always on a started element, otherwise
/// exactly when the current name is valid.
pub open spec fn spec_start_ok(v: AudioSinkView) -> bool {
    v.sender is Some || name_valid(v.ndi_name)
}

/// The element after `stop`: the connection is released; name and
/// recorded format survive.
pub open spec fn spec_stop(v: AudioSinkView) -> AudioSinkView {
    AudioSinkView { sender: None, ..v }
}

/// The element after a caps event: the new sample format fully replaces
/// the old; the connection lifecycle is unaffected.
pub open spec fn spec_set_caps(v: AudioSinkView, info: Option<AudioInfo>) -> AudioSinkView {
    AudioSinkView { audio_info: info, ..v }
}

/// The frame descriptor `render` hands to the endpoint for a buffer
/// arriving under the recorded format `info`: the payload is the buffer,
/// verbatim.
pub open spec fn spec_built_frame(info: AudioInfo, buffer: Seq<u8>) -> AudioFrameView {
    AudioFrameView { sample_rate: info.rate, channels: info.channels, data: buffer }
}

/// What `render` returns: `NotStarted` while no connection exists,
/// success otherwise — also when no format is recorded and the buffer is
/// dropped.
pub open spec fn spec_render_outcome(v: AudioSinkView, buffer: Seq<u8>) -> Result<
    (),
    FlowError,
> {
    if v.sender is None {
        Err(FlowError::NotStarted)
    } else {
        Ok(())
    }
}

/// The element after `render`: exactly one frame is transmitted when the
/// element is started and a format is recorded; in every other case the
/// element is unchanged and nothing reaches the endpoint.
pub open spec fn spec_render(v: AudioSinkView, buffer: Seq<u8>) -> AudioSinkView {
    if v.sender is Some && v.audio_info is Some {
        let conn = v.sender->Some_0;
        AudioSinkView {
            sender: Some(
                SendInstanceView {
                    sent_audio: conn.sent_audio.push(
                        spec_built_frame(v.audio_info->Some_0, buffer),
                    ),
                    ..conn
                },
            ),
            ..v
        }
    } else {
        v
    }
}

impl NdiAudioSink {
    /// A fresh element with the default stream name and no connection.
    pub fn new() -> (sink: Self)
        ensures
            sink@ == initial_audio_sink(),
    {
        NdiAudioSink { settings: Settings::default(), state: State::default() }
    }

    /// Writes the `ndi-name` property; allowed in any lifecycle state and
    /// without effect on an open connection until the next start.
    pub fn set_property(&mut self, value: Option<String>)
        ensures
            final(self)@ == spec_set_name(old(self)@, value.deep_view()),
    {
        match value {
            Some(v) => {
                self.settings.ndi_name = v;
            },
            None => {
                self.settings.ndi_name = default_ndi_name();
            },
        }
    }

    /// Reads the `ndi-name` property.
    pub fn get_property(&self) -> (name: String)
        ensures
            name@ == self@.ndi_name,
    {
        self.settings.ndi_name.clone()
    }

    /// Opens the connection under the current name. Idempotent: a started
    /// element is left as it is. Fails exactly when no connection exists
    /// and the name cannot be represented for the endpoint.
    pub fn start(&mut self) -> (r: Result<(), SendCreateError>)
        ensures
            final(self)@ == spec_start(old(self)@),
            r is Ok <==> spec_start_ok(old(self)@),
            !spec_start_ok(old(self)@) ==> r == Err::<(), SendCreateError>(
                SendCreateError::InvalidName,
            ),
    {
        if self.state.sender.is_some() {
            return Ok(());
        }
        match create_send_instance(self.settings.ndi_name.clone(), false, false) {
            Ok(inst) => {
                self.state.sender = Some(inst);
                Ok(())
            },
            Err(e) => Err(e),
        }
    }

    /// Records the sample format read from the stream's caps; `None`
    /// records a failed read.
    pub fn set_caps(&mut self, info: Option<AudioInfo>)
        ensures
            final(self)@ == spec_set_caps(old(self)@, info),
    {
        self.state.audio_info = info;
    }

    /// Translates one buffer into an audio frame and transmits it, per
    /// `spec_render` and `spec_render_outcome`.
    pub fn render(&mut self, buffer: &Vec<u8>) -> (r: Result<(), FlowError>)
        ensures
            r == spec_render_outcome(old(self)@, buffer@),
            final(self)@ == spec_render(old(self)@, buffer@),
    {
        if self.state.sender.is_none() {
            return Err(FlowError::NotStarted);
        }
        let info = match self.state.audio_info {
            Some(info) => info,
            None => {
                return Ok(());
            },
        };
        let frame = create_ndi_send_audio_frame(info.rate, info.channels).with_data(
            vstd::slice::slice_to_vec(buffer.as_slice()),
        ).build();
        match &mut self.state.sender {
            Some(sender) => {
                sender.send_audio(frame);
                Ok(())
            },
            None => Err(FlowError::NotStarted),
        }
    }

    /// Releases the connection, best-effort and always successful; the
    /// element can start again afterwards.
    pub fn stop(&mut self)
        ensures
            final(self)@ == spec_stop(old(self)@),
    {
        self.state.sender = None;
    }
}

/// Law: an element never holds more than one live connection.
pub proof fn lemma_at_most_one_connection(v: AudioSinkView)
    ensures
        live_connections(v) <= 1,
{
}

/// Law (lifecycle round trip): from any element with a valid name, `start`
/// opens exactly one connection, `stop` releases it, and a further `start`
/// opens one again — the element always comes back startable, holding one
/// or zero connections and never more.
pub proof fn lemma_start_stop_round_trip(v: AudioSinkView)
    requires
        name_valid(v.ndi_name),
    ensures
        ({
            let v1 = spec_start(v);
            let v2 = spec_stop(v1);
            let v3 = spec_start(v2);
            &&& spec_started(v1)
            &&& live_connections(v1) == 1
            &&& !spec_started(v2)
            &&& live_connections(v2) == 0
            &&& spec_start_ok(v2)
            &&& spec_started(v3)
            &&& live_connections(v3) == 1
        }),
{
}

/// Law: rendering on an element that was never started — or has stopped —
/// reaches no endpoint call: the element is unchanged and the buffer is
/// answered with `NotStarted`.
pub proof fn lemma_render_before_start(v: AudioSinkView, buffer: Seq<u8>)
    requires
        !spec_started(v),
    ensures
        spec_render_outcome(v, buffer) == Err::<(), FlowError>(FlowError::NotStarted),
        spec_render(v, buffer) == v,
{
}

/// Law (deferred name change): writing `ndi-name` on a started element
/// leaves the open connection — and the name it is bound to — untouched,
/// even across a repeated `start`; only a stop/start cycle opens a
/// connection under the new name.
pub proof fn lemma_name_change_deferred(v: AudioSinkView, new_name: Seq<char>)
    requires
        spec_started(v),
    ensures
        ({
            let v1 = spec_set_name(v, Some(new_name));
            &&& v1.sender == v.sender
            &&& spec_start(v1).sender == v.sender
            &&& name_valid(new_name) ==> spec_start(spec_stop(v1)).sender == Some(
                fresh_instance_view(new_name, false, false),
            )
        }),
{
}

} // verus!
