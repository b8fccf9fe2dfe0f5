//! Outgoing frame descriptors and the connection handle bound to a named
//! stream.
//!
//! A video frame is built in three steps: choose the resolution, translate
//! the host pixel format to the endpoint's four-character code, and attach
//! the payload, which is sized to exactly `line_stride_in_bytes * yres`
//! (shorter payloads are zero-padded, longer ones truncated). The endpoint's
//! transport lives outside this crate; a `SendInstance` records each
//! descriptor it accepts, in delivery order.
use vstd::prelude::*;
use vstd::string::StrSliceExecFns;

verus! {

/// Raw pixel layouts the host pipeline can deliver. `Unknown` stands for
/// every layout outside the eight the endpoint accepts.
#[derive(Clone, Copy, Debug, PartialEq, Eq, Structural)]
pub enum VideoFormat {
    Uyvy,
    I420,
    Nv12,
    Yv12,
    Bgra,
    Bgrx,
    Rgba,
    Rgbx,
    Unknown,
}

/// Four-character codes the sending endpoint understands.
#[derive(Clone, Copy, Debug, PartialEq, Eq, Structural)]
pub enum FourCC {
    Uyvy,
    Yv12,
    Nv12,
    I420,
    Bgra,
    Bgrx,
    Rgba,
    Rgbx,
}

/// Scan layout of an outgoing frame.
#[derive(Clone, Copy, Debug, PartialEq, Eq, Structural)]
pub enum FrameFormatType {
    Progressive,
    Interleaved,
    Field0,
    Field1,
}

/// Timecode sentinel asking the endpoint to synthesize a timestamp at send
/// time.
pub const SEND_TIMECODE_SYNTHESIZE: i64 = i64::MAX;

/// The fixed translation table from host pixel formats to endpoint codes:
/// total over the eight supported layouts, undefined outside them. The I420
/// and YV12 rows map to each other's codes; the two layouts differ only in
/// the order of their chroma planes.
pub open spec fn fourcc_of(format: VideoFormat) -> Option<FourCC> {
    match format {
        VideoFormat::Uyvy => Some(FourCC::Uyvy),
        VideoFormat::I420 => Some(FourCC::Yv12),
        VideoFormat::Nv12 => Some(FourCC::Nv12),
        VideoFormat::Yv12 => Some(FourCC::I420),
        VideoFormat::Bgra => Some(FourCC::Bgra),
        VideoFormat::Bgrx => Some(FourCC::Bgrx),
        VideoFormat::Rgba => Some(FourCC::Rgba),
        VideoFormat::Rgbx => Some(FourCC::Rgbx),
        VideoFormat::Unknown => None,
    }
}

/// Law: the translation table is a total function over the eight supported
/// formats and is defined for no other value. (Determinism is inherent: it
/// is a function of the format alone.)
pub proof fn lemma_translation_total()
    ensures
        forall|f: VideoFormat| (#[trigger] fourcc_of(f)) is Some <==> f != VideoFormat::Unknown,
{
}

/// A byte sequence forced to length `size`: truncated when the input is
/// longer, zero-padded when it is shorter.
pub open spec fn resized(bytes: Seq<u8>, size: nat) -> Seq<u8> {
    if size <= bytes.len() {
        bytes.take(size as int)
    } else {
        bytes + Seq::new((size - bytes.len()) as nat, |i: int| 0u8)
    }
}

/// Law: a built payload has exactly the requested size, whatever the input
/// length; equal-length input is copied verbatim, shorter input is
/// zero-padded, longer input is truncated.
pub proof fn lemma_resized_exact(bytes: Seq<u8>, size: nat)
    ensures
        resized(bytes, size).len() == size,
        bytes.len() == size ==> resized(bytes, size) == bytes,
        bytes.len() > size ==> resized(bytes, size) == bytes.take(size as int),
        forall|i: int|
            0 <= i < size ==> resized(bytes, size)[i] == (if i < bytes.len() {
                bytes[i]
            } else {
                0u8
            }),
{
    if bytes.len() == size {
        assert(resized(bytes, size) =~= bytes);
    }
}

/// Contract-level shape of an outgoing video frame.
#[verifier::ext_equal]
pub struct VideoFrameView {
    pub xres: u32,
    pub yres: u32,
    pub four_cc: FourCC,
    pub frame_rate_n: i32,
    pub frame_rate_d: i32,
    pub frame_format_type: FrameFormatType,
    pub timecode: i64,
    pub line_stride_in_bytes: u32,
    pub data: Seq<u8>,
    pub metadata: Option<Seq<char>>,
}

/// An outgoing video frame descriptor. It owns its payload exclusively: the
/// payload borrows nothing once the frame is built, and is freed when the
/// frame is consumed.
#[derive(Debug)]
pub struct NDISendVideoFrame {
    pub xres: u32,
    pub yres: u32,
    pub four_cc: FourCC,
    pub frame_rate_n: i32,
    pub frame_rate_d: i32,
    pub frame_format_type: FrameFormatType,
    pub timecode: i64,
    pub line_stride_in_bytes: u32,
    pub data: Vec<u8>,
    pub metadata: Option<String>,
}

impl View for NDISendVideoFrame {
    type V = VideoFrameView;

    open spec fn view(&self) -> VideoFrameView {
        VideoFrameView {
            xres: self.xres,
            yres: self.yres,
            four_cc: self.four_cc,
            frame_rate_n: self.frame_rate_n,
            frame_rate_d: self.frame_rate_d,
            frame_format_type: self.frame_format_type,
            timecode: self.timecode,
            line_stride_in_bytes: self.line_stride_in_bytes,
            data: self.data@,
            metadata: match self.metadata {
                Some(m) => Some(m@),
                None => None,
            },
        }
    }
}

/// A frame build failure: the format handed to `with_format` lies outside
/// the translation table. Fatal for the stream, never dropped silently.
#[derive(Clone, Copy, Debug, PartialEq, Eq, Structural)]
pub enum BuildError {
    UnsupportedFormat,
}

/// Accumulates the fields of an outgoing video frame before the payload is
/// sized and the frame sealed.
pub struct NDISendVideoFrameBuilder {
    pub xres: u32,
    pub yres: u32,
    /// `None` records that `with_format` saw a format outside the table.
    pub four_cc: Option<FourCC>,
    pub frame_rate_n: i32,
    pub frame_rate_d: i32,
    pub frame_format_type: FrameFormatType,
    pub timecode: i64,
    pub line_stride_in_bytes: u32,
    pub data: Vec<u8>,
    pub metadata: Option<String>,
}

impl NDISendVideoFrameBuilder {
    /// The payload size a built frame must have.
    pub open spec fn payload_size(self) -> nat {
        (self.line_stride_in_bytes as nat) * (self.yres as nat)
    }

    /// The frame `build` seals, meaningful when `four_cc` holds a code.
    pub open spec fn frame_view(self) -> VideoFrameView {
        VideoFrameView {
            xres: self.xres,
            yres: self.yres,
            four_cc: self.four_cc->Some_0,
            frame_rate_n: self.frame_rate_n,
            frame_rate_d: self.frame_rate_d,
            frame_format_type: self.frame_format_type,
            timecode: self.timecode,
            line_stride_in_bytes: self.line_stride_in_bytes,
            data: resized(self.data@, self.payload_size()),
            metadata: match self.metadata {
                Some(m) => Some(m@),
                None => None,
            },
        }
    }

    /// Attaches the raw payload and the row stride it was laid out with.
    pub fn with_data(self, data: Vec<u8>, line_stride: u32) -> (b: Self)
        ensures
            b.data@ == data@,
            b.line_stride_in_bytes == line_stride,
            b.xres == self.xres,
            b.yres == self.yres,
            b.four_cc == self.four_cc,
            b.frame_rate_n == self.frame_rate_n,
            b.frame_rate_d == self.frame_rate_d,
            b.frame_format_type == self.frame_format_type,
            b.timecode == self.timecode,
            b.metadata == self.metadata,
    {
        let mut b = self;
        b.data = data;
        b.line_stride_in_bytes = line_stride;
        b
    }

    /// Translates the host pixel format through the fixed table. A format
    /// outside the table is recorded and turns the later `build` into an
    /// `UnsupportedFormat` failure.
    pub fn with_format(self, video_format: VideoFormat) -> (b: Self)
        ensures
            b.four_cc == fourcc_of(video_format),
            b.data@ == self.data@,
            b.line_stride_in_bytes == self.line_stride_in_bytes,
            b.xres == self.xres,
            b.yres == self.yres,
            b.frame_rate_n == self.frame_rate_n,
            b.frame_rate_d == self.frame_rate_d,
            b.frame_format_type == self.frame_format_type,
            b.timecode == self.timecode,
            b.metadata == self.metadata,
    {
        let mut b = self;
        b.four_cc = match video_format {
            VideoFormat::Uyvy => Some(FourCC::Uyvy),
            VideoFormat::I420 => Some(FourCC::Yv12),
            VideoFormat::Nv12 => Some(FourCC::Nv12),
            VideoFormat::Yv12 => Some(FourCC::I420),
            VideoFormat::Bgra => Some(FourCC::Bgra),
            VideoFormat::Bgrx => Some(FourCC::Bgrx),
            VideoFormat::Rgba => Some(FourCC::Rgba),
            VideoFormat::Rgbx => Some(FourCC::Rgbx),
            VideoFormat::Unknown => None,
        };
        b
    }

    /// Seals the frame: fails when the recorded format was unsupported,
    /// otherwise copies the payload, truncating or zero-padding it to
    /// exactly `line_stride_in_bytes * yres`.
    pub fn build(self) -> (r: Result<NDISendVideoFrame, BuildError>)
        requires
            self.payload_size() <= usize::MAX,
        ensures
            self.four_cc is None ==> r == Err::<NDISendVideoFrame, BuildError>(
                BuildError::UnsupportedFormat,
            ),
            self.four_cc is Some ==> (r matches Ok(frame) && frame@ == self.frame_view()),
    {
        let four_cc = match self.four_cc {
            Some(c) => c,
            None => {
                return Err(BuildError::UnsupportedFormat);
            },
        };
        let total: usize = (self.line_stride_in_bytes as usize) * (self.yres as usize);
        let mut payload: Vec<u8> = Vec::new();
        let mut i: usize = 0;
        while i < total
            invariant
                i <= total,
                payload@.len() == i as nat,
                forall|j: int|
                    0 <= j < i ==> payload@[j] == (if j < self.data@.len() {
                        self.data@[j]
                    } else {
                        0u8
                    }),
            decreases total - i,
        {
            if i < self.data.len() {
                let byte = self.data[i];
                payload.push(byte);
            } else {
                payload.push(0u8);
            }
            i += 1;
        }
        proof {
            assert(payload@ =~= resized(self.data@, self.payload_size()));
        }
        Ok(
            NDISendVideoFrame {
                xres: self.xres,
                yres: self.yres,
                four_cc,
                frame_rate_n: self.frame_rate_n,
                frame_rate_d: self.frame_rate_d,
                frame_format_type: self.frame_format_type,
                timecode: self.timecode,
                line_stride_in_bytes: self.line_stride_in_bytes,
                data: payload,
                metadata: self.metadata,
            },
        )
    }
}

/// Starts a video frame: the given resolution and scan layout, a four-character
/// code of RGBA until `with_format` replaces it, frame rate and aspect left
/// unspecified for the endpoint, and a timecode synthesized at send time.
pub fn create_ndi_send_video_frame(width: u32, height: u32, frame_type: FrameFormatType) -> (b:
    NDISendVideoFrameBuilder)
    ensures
        b.xres == width,
        b.yres == height,
        b.four_cc == Some(FourCC::Rgba),
        b.frame_rate_n == 0,
        b.frame_rate_d == 0,
        b.frame_format_type == frame_type,
        b.timecode == SEND_TIMECODE_SYNTHESIZE,
        b.line_stride_in_bytes == 0,
        b.data@ == Seq::<u8>::empty(),
        b.metadata is None,
{
    NDISendVideoFrameBuilder {
        xres: width,
        yres: height,
        four_cc: Some(FourCC::Rgba),
        frame_rate_n: 0,
        frame_rate_d: 0,
        frame_format_type: frame_type,
        timecode: SEND_TIMECODE_SYNTHESIZE,
        line_stride_in_bytes: 0,
        data: Vec::new(),
        metadata: None,
    }
}

/// Contract-level shape of an outgoing audio frame.
#[verifier::ext_equal]
pub struct AudioFrameView {
    pub sample_rate: u32,
    pub channels: u32,
    pub data: Seq<u8>,
}

/// An outgoing audio frame descriptor: 16-bit little-endian interleaved
/// samples. The payload keeps exactly the input buffer's length; no stride
/// correction applies to audio.
#[derive(Debug)]
pub struct NDISendAudioFrame {
    pub sample_rate: u32,
    pub channels: u32,
    pub data: Vec<u8>,
}

impl View for NDISendAudioFrame {
    type V = AudioFrameView;

    open spec fn view(&self) -> AudioFrameView {
        AudioFrameView { sample_rate: self.sample_rate, channels: self.channels, data: self.data@ }
    }
}

/// Accumulates the fields of an outgoing audio frame.
pub struct NDISendAudioFrameBuilder {
    pub sample_rate: u32,
    pub channels: u32,
    pub data: Vec<u8>,
}

impl NDISendAudioFrameBuilder {
    /// Attaches the sample payload, kept at its exact length.
    pub fn with_data(self, data: Vec<u8>) -> (b: Self)
        ensures
            b.data@ == data@,
            b.sample_rate == self.sample_rate,
            b.channels == self.channels,
    {
        let mut b = self;
        b.data = data;
        b
    }

    /// Seals the audio frame. The single supported sample layout leaves no
    /// failure case: unsupported layouts are rejected at the negotiation
    /// boundary, before a buffer ever reaches the builder.
    pub fn build(self) -> (frame: NDISendAudioFrame)
        ensures
            frame@ == (AudioFrameView {
                sample_rate: self.sample_rate,
                channels: self.channels,
                data: self.data@,
            }),
    {
        NDISendAudioFrame { sample_rate: self.sample_rate, channels: self.channels, data: self.data }
    }
}

/// Starts an audio frame for the given sample rate and channel count.
pub fn create_ndi_send_audio_frame(sample_rate: u32, channels: u32) -> (b:
    NDISendAudioFrameBuilder)
    ensures
        b.sample_rate == sample_rate,
        b.channels == channels,
        b.data@ == Seq::<u8>::empty(),
{
    NDISendAudioFrameBuilder { sample_rate, channels, data: Vec::new() }
}

/// A stream name the endpoint's native string form can carry: free of
/// embedded NUL characters. Checked when a connection opens, not when the
/// property is set.
pub open spec fn name_valid(name: Seq<char>) -> bool {
    forall|i: int| 0 <= i < name.len() ==> name[i] != '\0'
}

fn name_is_valid(name: &str) -> (ok: bool)
    ensures
        ok == name_valid(name@),
{
    let len = name.unicode_len();
    let mut i: usize = 0;
    while i < len
        invariant
            i <= len,
            len == name@.len(),
            forall|j: int| 0 <= j < i ==> name@[j] != '\0',
        decreases len - i,
    {
        if name.get_char(i) == '\0' {
            proof {
                assert(!name_valid(name@)) by {
                    assert(name@[i as int] == '\0');
                }
            }
            return false;
        }
        i += 1;
    }
    true
}

/// Connection-open failures.
#[derive(Clone, Copy, Debug, PartialEq, Eq, Structural)]
pub enum SendCreateError {
    /// The stream name cannot be represented in the endpoint's native
    /// string form (it embeds a NUL).
    InvalidName,
    /// The endpoint refused to create the stream announcement (resource
    /// exhaustion, driver absent). Reserved for hosts that layer a real
    /// transport behind the handle.
    Failed,
}

/// Contract-level shape of a connection handle.
#[verifier::ext_equal]
pub struct SendInstanceView {
    pub ndi_name: Seq<char>,
    pub clock_video: bool,
    pub clock_audio: bool,
    pub sent_video: Seq<VideoFrameView>,
    pub sent_audio: Seq<AudioFrameView>,
}

/// A connection to the sending endpoint, bound to exactly one stream name
/// at creation and never reconfigurable. The transport itself lives outside
/// this crate: the handle records, in delivery order, each frame descriptor
/// accepted for transmission, and transmission is fire-and-forget — the
/// endpoint surfaces no errors. Releasing the connection is dropping the
/// handle.
pub struct SendInstance {
    pub ndi_name: String,
    pub clock_video: bool,
    pub clock_audio: bool,
    pub sent_video: Vec<NDISendVideoFrame>,
    pub sent_audio: Vec<NDISendAudioFrame>,
}

impl View for SendInstance {
    type V = SendInstanceView;

    open spec fn view(&self) -> SendInstanceView {
        SendInstanceView {
            ndi_name: self.ndi_name@,
            clock_video: self.clock_video,
            clock_audio: self.clock_audio,
            sent_video: self.sent_video@.map_values(|f: NDISendVideoFrame| f@),
            sent_audio: self.sent_audio@.map_values(|f: NDISendAudioFrame| f@),
        }
    }
}

/// The view of a connection that has just been opened under `name`.
pub open spec fn fresh_instance_view(name: Seq<char>, clock_video: bool, clock_audio: bool)
    -> SendInstanceView {
    SendInstanceView {
        ndi_name: name,
        clock_video,
        clock_audio,
        sent_video: Seq::empty(),
        sent_audio: Seq::empty(),
    }
}

impl SendInstance {
    /// Hands a video frame to the endpoint. Blocking, infallible from the
    /// adapter's point of view; the frame is consumed.
    pub fn send_video(&mut self, frame: NDISendVideoFrame)
        ensures
            final(self)@ == (SendInstanceView {
                sent_video: old(self)@.sent_video.push(frame@),
                ..old(self)@
            }),
    {
        let ghost prior = self@;
        self.sent_video.push(frame);
        proof {
            assert(self@.sent_video =~= prior.sent_video.push(self.sent_video@.last()@));
            assert(self@.sent_audio =~= prior.sent_audio);
        }
    }

    /// Hands an audio frame to the endpoint, as `send_video` does.
    pub fn send_audio(&mut self, frame: NDISendAudioFrame)
        ensures
            final(self)@ == (SendInstanceView {
                sent_audio: old(self)@.sent_audio.push(frame@),
                ..old(self)@
            }),
    {
        let ghost prior = self@;
        self.sent_audio.push(frame);
        proof {
            assert(self@.sent_audio =~= prior.sent_audio.push(self.sent_audio@.last()@));
            assert(self@.sent_video =~= prior.sent_video);
        }
    }
}

/// Opens a connection announcing an outgoing stream under `name`. Succeeds
/// exactly when the name is NUL-free; a rejected name surfaces as
/// `InvalidName` at open time, matching the late binding of the property.
pub fn create_send_instance(name: String, clock_video: bool, clock_audio: bool) -> (r: Result<
    SendInstance,
    SendCreateError,
>)
    ensures
        name_valid(name@) ==> (r matches Ok(inst) && inst@ == fresh_instance_view(
            name@,
            clock_video,
            clock_audio,
        )),
        !name_valid(name@) ==> r == Err::<SendInstance, SendCreateError>(
            SendCreateError::InvalidName,
        ),
{
    if !name_is_valid(name.as_str()) {
        return Err(SendCreateError::InvalidName);
    }
    let inst = SendInstance {
        ndi_name: name,
        clock_video,
        clock_audio,
        sent_video: Vec::new(),
        sent_audio: Vec::new(),
    };
    proof {
        assert(inst@.sent_video =~= Seq::<VideoFrameView>::empty());
        assert(inst@.sent_audio =~= Seq::<AudioFrameView>::empty());
    }
    Ok(inst)
}

} // verus!

