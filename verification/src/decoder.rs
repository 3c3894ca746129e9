//! Decode state machine: drives the event loop of one decoding stream.
//!
//! The machine is single-threaded and driven entirely by caller re-entry:
//! each processing step takes what the codec backend reported for one unit
//! of work and returns at most one surfaced event.  The backend itself (the
//! actual entropy coding) is an external collaborator; everything the
//! machine decides — sequencing, subscriptions, buffer negotiation, box
//! sub-protocol, fatal-error discipline — is verified here.

use vstd::prelude::*;
use crate::color::JxlColorEncoding;
use crate::common::JxlBitDepth;
use crate::common::JxlPixelFormat;
use crate::decoder_enum::spec_status_bits;
use crate::decoder_enum::JxlColorProfileTarget;
use crate::decoder_enum::JxlDecoderStatus;
use crate::decoder_enum::JxlProgressiveDetail;
use crate::decoder_enum::JxlSignature;
use crate::error::JxlError;
use crate::feeder::InputFeeder;
use crate::metadata::JxlBasicInfo;
use crate::metadata::JxlExtraChannelInfo;
use crate::metadata::JxlFrameHeader;
use crate::negotiator::spec_required_size;
use crate::negotiator::required_size;
use crate::negotiator::OutputTarget;

verus! {

// ---------------------------------------------------------------------------
// Signature check
// ---------------------------------------------------------------------------

/// The twelve magic bytes that open a boxed container.
pub open spec fn spec_container_magic() -> Seq<u8> {
    seq![0u8, 0u8, 0u8, 0x0Cu8, 0x4Au8, 0x58u8, 0x4Cu8, 0x20u8, 0x0Du8, 0x0Au8, 0x87u8, 0x0Au8]
}

/// The first `n` bytes of `data` agree with the container magic.
pub open spec fn spec_is_magic_prefix(data: Seq<u8>, n: int) -> bool {
    forall|i: int| 0 <= i < n ==> data[i] == spec_container_magic()[i]
}

/// Signature of a byte prefix.
///
/// Fewer than two bytes can never decide, a prefix that may still grow into
/// the container magic is not rejected, and only a prefix that can never
/// start a valid stream is `Invalid`.
pub open spec fn spec_signature(data: Seq<u8>) -> JxlSignature {
    if data.len() < 2 {
        JxlSignature::NotEnoughBytes
    } else if data[0] == 0xFF && data[1] == 0x0A {
        JxlSignature::Codestream
    } else if data.len() >= 12 {
        if spec_is_magic_prefix(data, 12) {
            JxlSignature::Container
        } else {
            JxlSignature::Invalid
        }
    } else {
        if spec_is_magic_prefix(data, data.len() as int) {
            JxlSignature::NotEnoughBytes
        } else {
            JxlSignature::Invalid
        }
    }
}

fn container_magic_byte(i: usize) -> (r: u8)
    requires
        i < 12,
    ensures
        r == spec_container_magic()[i as int],
{
    match i {
        0 => 0,
        1 => 0,
        2 => 0,
        3 => 0x0C,
        4 => 0x4A,
        5 => 0x58,
        6 => 0x4C,
        7 => 0x20,
        8 => 0x0D,
        9 => 0x0A,
        10 => 0x87,
        _ => 0x0A,
    }
}

// ---------------------------------------------------------------------------
// Machine state
// ---------------------------------------------------------------------------

/// Phase of the decode state machine.
#[derive(Debug, Clone, Copy, PartialEq, Eq, Structural)]
pub enum DecodePhase {
    /// Nothing processed yet.
    Start,
    /// Waiting for the stream to produce basic info.
    AwaitingBasicInfo,
    /// Basic info read; waiting for the color encoding.
    AwaitingColorEncoding,
    /// Color encoding read; waiting for a frame header.
    AwaitingFrame,
    /// The stream asked for an output buffer that is not yet supplied.
    AwaitingOutputBuffer,
    /// Pixels of the current frame are being delivered.
    StreamingPixels,
    /// The current frame's full image is complete.
    FrameComplete,
    /// The stream finished; terminal.
    Done,
    /// A fatal error occurred; terminal.
    Error,
}

/// Which pixel-delivery mode is registered; the two modes are mutually
/// exclusive per stream.
#[derive(Debug, Clone, Copy, PartialEq, Eq, Structural)]
pub enum CallbackMode {
    Unset,
    SingleThreaded,
    MultiThreaded,
}

/// The caller action a previously surfaced event still demands.
#[derive(Debug, Clone, Copy, PartialEq, Eq, Structural)]
pub enum PendingAction {
    /// No outstanding demand.
    Idle,
    /// More input was requested; the payload is how many bytes had been
    /// supplied at that moment.
    AwaitInput(usize),
    /// A full-image output buffer was requested.
    AwaitImageBuffer,
    /// A preview output buffer was requested.
    AwaitPreviewBuffer,
    /// A box contents buffer was requested.
    AwaitBoxBuffer,
}

/// Tag and sizes of the current container box.
#[derive(Debug, Clone, Copy, PartialEq, Eq, Structural)]
pub struct BoxRecord {
    /// Four-byte type tag.
    pub tag0: u8,
    pub tag1: u8,
    pub tag2: u8,
    pub tag3: u8,
    /// Size of the box as stored, header included.
    pub raw_size: u64,
    /// Size of the contents the box will deliver.
    pub contents_size: u64,
}

/// What the codec backend reported for one unit of processing.
pub enum BackendUnit {
    /// The backend needs more input bytes.
    NeedMoreInput,
    /// Basic image metadata became available.
    BasicInfoReady {
        info: JxlBasicInfo,
        extra_channels: Vec<JxlExtraChannelInfo>,
        extra_channel_names: Vec<Vec<u8>>,
    },
    /// The color encoding became available.
    ColorEncodingReady { encoded_profile: Option<JxlColorEncoding>, icc_profile: Vec<u8> },
    /// A frame header was read; `name` is the frame's name in bytes.
    FrameReady { header: JxlFrameHeader, name: Vec<u8> },
    /// The backend needs a preview output buffer.
    NeedPreviewOutBuffer,
    /// The preview image was decoded.
    PreviewReady,
    /// The backend needs a full-image output buffer.
    NeedImageOutBuffer,
    /// A progressive pass completed at the given downsampling ratio.
    FrameProgression { downsampling: usize },
    /// The full image of the current frame was decoded.
    FullImageReady,
    /// A container box was found.
    BoxReady { record: BoxRecord },
    /// The current box's contents were fully delivered.
    BoxComplete,
    /// The bitstream is malformed.
    Corrupt,
    /// The stream ended cleanly.
    Finished,
}

/// Events a caller can subscribe to (informational events); retryable
/// conditions and terminal statuses are always surfaced.
pub open spec fn spec_is_optional_event(ev: JxlDecoderStatus) -> bool {
    ||| ev == JxlDecoderStatus::BasicInfo
    ||| ev == JxlDecoderStatus::ColorEncoding
    ||| ev == JxlDecoderStatus::PreviewImage
    ||| ev == JxlDecoderStatus::Frame
    ||| ev == JxlDecoderStatus::FullImage
    ||| ev == JxlDecoderStatus::JpegReconstruction
    ||| ev == JxlDecoderStatus::Box
    ||| ev == JxlDecoderStatus::FrameProgression
    ||| ev == JxlDecoderStatus::BoxComplete
}

/// Whether the subscription mask covers an event.
pub open spec fn spec_subscribed(mask: i32, ev: JxlDecoderStatus) -> bool {
    mask & spec_status_bits(ev) != 0
}

/// Sequencing law: with a subscription to the basic-info event alone, the
/// only informational event the mask covers is the basic-info event itself.
/// Together with `process_input`'s guarantee that an unsubscribed
/// informational event is never surfaced, a stream subscribed only to
/// basic info can never yield a frame or full-image event.
pub proof fn lemma_basic_info_only_subscription(ev: JxlDecoderStatus)
    requires
        spec_is_optional_event(ev),
        spec_subscribed(spec_status_bits(JxlDecoderStatus::BasicInfo), ev),
    ensures
        ev == JxlDecoderStatus::BasicInfo,
{
    assert(0x40i32 & 0x100i32 == 0) by (bit_vector);
    assert(0x40i32 & 0x200i32 == 0) by (bit_vector);
    assert(0x40i32 & 0x400i32 == 0) by (bit_vector);
    assert(0x40i32 & 0x1000i32 == 0) by (bit_vector);
    assert(0x40i32 & 0x2000i32 == 0) by (bit_vector);
    assert(0x40i32 & 0x4000i32 == 0) by (bit_vector);
    assert(0x40i32 & 0x8000i32 == 0) by (bit_vector);
    assert(0x40i32 & 0x10000i32 == 0) by (bit_vector);
}

/// The decode state machine.
pub struct JxlDecoder {
    phase: DecodePhase,
    pending: PendingAction,
    subscriptions: i32,
    feeder: InputFeeder,
    basic_info: Option<JxlBasicInfo>,
    extra_channels: Vec<JxlExtraChannelInfo>,
    extra_channel_names: Vec<Vec<u8>>,
    encoded_profile: Option<JxlColorEncoding>,
    icc_profile: Option<Vec<u8>>,
    preferred_profile: Option<JxlColorEncoding>,
    frame_header: Option<JxlFrameHeader>,
    frame_name: Option<Vec<u8>>,
    image_buffer_len: Option<usize>,
    preview_buffer_len: Option<usize>,
    jpeg_buffer_len: Option<usize>,
    box_buffer_len: Option<usize>,
    current_box: Option<BoxRecord>,
    box_written: usize,
    decompress_boxes: bool,
    in_box: bool,
    callback_mode: CallbackMode,
    keep_orientation: bool,
    unpremultiply_alpha: bool,
    render_spotcolors: bool,
    coalescing: bool,
    progressive_detail: Option<JxlProgressiveDetail>,
    downsampling: usize,
    frames_to_skip: usize,
    output_profile: Option<JxlColorEncoding>,
    output_icc_len: Option<usize>,
    extra_buffer: Option<(u32, usize)>,
    image_bit_depth: Option<JxlBitDepth>,
}

impl JxlDecoder {
    pub closed spec fn phase_spec(&self) -> DecodePhase {
        self.phase
    }

    pub closed spec fn pending_spec(&self) -> PendingAction {
        self.pending
    }

    pub closed spec fn subscriptions_spec(&self) -> i32 {
        self.subscriptions
    }

    pub closed spec fn input_supplied_spec(&self) -> Seq<u8> {
        self.feeder.data_spec()
    }

    pub closed spec fn input_consumed_spec(&self) -> int {
        self.feeder.consumed_spec()
    }

    pub closed spec fn input_closed_spec(&self) -> bool {
        self.feeder.closed_spec()
    }

    pub closed spec fn basic_info_spec(&self) -> Option<JxlBasicInfo> {
        self.basic_info
    }

    pub closed spec fn extra_channels_spec(&self) -> Seq<JxlExtraChannelInfo> {
        self.extra_channels@
    }

    pub closed spec fn extra_channel_names_spec(&self) -> Seq<Seq<u8>> {
        self.extra_channel_names@.map_values(|v: Vec<u8>| v@)
    }

    pub closed spec fn encoded_profile_spec(&self) -> Option<JxlColorEncoding> {
        self.encoded_profile
    }

    pub closed spec fn icc_profile_spec(&self) -> Option<Seq<u8>> {
        match self.icc_profile {
            Some(v) => Some(v@),
            None => None,
        }
    }

    pub closed spec fn preferred_profile_spec(&self) -> Option<JxlColorEncoding> {
        self.preferred_profile
    }

    pub closed spec fn frame_header_spec(&self) -> Option<JxlFrameHeader> {
        self.frame_header
    }

    pub closed spec fn frame_name_spec(&self) -> Option<Seq<u8>> {
        match self.frame_name {
            Some(v) => Some(v@),
            None => None,
        }
    }

    pub closed spec fn image_buffer_len_spec(&self) -> Option<usize> {
        self.image_buffer_len
    }

    pub closed spec fn preview_buffer_len_spec(&self) -> Option<usize> {
        self.preview_buffer_len
    }

    pub closed spec fn jpeg_buffer_len_spec(&self) -> Option<usize> {
        self.jpeg_buffer_len
    }

    pub closed spec fn box_buffer_len_spec(&self) -> Option<usize> {
        self.box_buffer_len
    }

    pub closed spec fn current_box_spec(&self) -> Option<BoxRecord> {
        self.current_box
    }

    pub closed spec fn box_written_spec(&self) -> int {
        self.box_written as int
    }

    pub closed spec fn decompress_boxes_spec(&self) -> bool {
        self.decompress_boxes
    }

    pub closed spec fn in_box_spec(&self) -> bool {
        self.in_box
    }

    pub closed spec fn callback_mode_spec(&self) -> CallbackMode {
        self.callback_mode
    }

    pub closed spec fn keep_orientation_spec(&self) -> bool {
        self.keep_orientation
    }

    pub closed spec fn unpremultiply_alpha_spec(&self) -> bool {
        self.unpremultiply_alpha
    }

    pub closed spec fn render_spotcolors_spec(&self) -> bool {
        self.render_spotcolors
    }

    pub closed spec fn coalescing_spec(&self) -> bool {
        self.coalescing
    }

    pub closed spec fn progressive_detail_spec(&self) -> Option<JxlProgressiveDetail> {
        self.progressive_detail
    }

    pub closed spec fn downsampling_spec(&self) -> int {
        self.downsampling as int
    }

    pub closed spec fn frames_to_skip_spec(&self) -> int {
        self.frames_to_skip as int
    }

    pub closed spec fn output_profile_spec(&self) -> Option<JxlColorEncoding> {
        self.output_profile
    }

    pub closed spec fn output_icc_len_spec(&self) -> Option<usize> {
        self.output_icc_len
    }

    pub closed spec fn extra_buffer_spec(&self) -> Option<(u32, usize)> {
        self.extra_buffer
    }

    pub closed spec fn image_bit_depth_spec(&self) -> Option<JxlBitDepth> {
        self.image_bit_depth
    }

    /// Internal consistency: the feeder is well formed, metadata is present
    /// once the machine has moved past the phase that produces it, an open
    /// box-buffer demand implies a subscribed, open box, and an open box
    /// has its record.
    pub closed spec fn wf(&self) -> bool {
        &&& self.feeder.wf()
        &&& (match self.phase {
            DecodePhase::Start => true,
            DecodePhase::AwaitingBasicInfo => true,
            DecodePhase::Done => true,
            DecodePhase::Error => true,
            _ => self.basic_info is Some,
        })
        &&& (self.pending is AwaitBoxBuffer ==> self.in_box && spec_subscribed(
            self.subscriptions,
            JxlDecoderStatus::Box,
        ))
        &&& (self.in_box ==> self.current_box is Some && spec_subscribed(
            self.subscriptions,
            JxlDecoderStatus::Box,
        ))
        &&& (self.phase is Start ==> self.pending is Idle && !self.in_box)
    }

    /// The per-stream configuration, unchanged by `rewind`.
    pub open spec fn config_unchanged(pre: &JxlDecoder, post: &JxlDecoder) -> bool {
        &&& post.subscriptions_spec() == pre.subscriptions_spec()
        &&& post.preferred_profile_spec() == pre.preferred_profile_spec()
        &&& post.decompress_boxes_spec() == pre.decompress_boxes_spec()
        &&& post.callback_mode_spec() == pre.callback_mode_spec()
        &&& post.keep_orientation_spec() == pre.keep_orientation_spec()
        &&& post.unpremultiply_alpha_spec() == pre.unpremultiply_alpha_spec()
        &&& post.render_spotcolors_spec() == pre.render_spotcolors_spec()
        &&& post.coalescing_spec() == pre.coalescing_spec()
        &&& post.progressive_detail_spec() == pre.progressive_detail_spec()
    }

    /// Per-stream state is back at its initial value.
    pub open spec fn stream_state_reset(post: &JxlDecoder) -> bool {
        &&& post.phase_spec() == DecodePhase::Start
        &&& post.pending_spec() == PendingAction::Idle
        &&& post.input_supplied_spec() == Seq::<u8>::empty()
        &&& post.input_consumed_spec() == 0
        &&& !post.input_closed_spec()
        &&& post.basic_info_spec() is None
        &&& post.extra_channels_spec() == Seq::<JxlExtraChannelInfo>::empty()
        &&& post.encoded_profile_spec() is None
        &&& post.icc_profile_spec() is None
        &&& post.frame_header_spec() is None
        &&& post.frame_name_spec() is None
        &&& post.image_buffer_len_spec() is None
        &&& post.preview_buffer_len_spec() is None
        &&& post.jpeg_buffer_len_spec() is None
        &&& post.box_buffer_len_spec() is None
        &&& post.current_box_spec() is None
        &&& post.box_written_spec() == 0
        &&& !post.in_box_spec()
        &&& post.downsampling_spec() == 1
        &&& post.frames_to_skip_spec() == 0
        &&& post.extra_channel_names_spec() == Seq::<Seq<u8>>::empty()
        &&& post.output_profile_spec() is None
        &&& post.output_icc_len_spec() is None
        &&& post.extra_buffer_spec() is None
        &&& post.image_bit_depth_spec() is None
    }

    /// Creates a fresh decoder in the `Start` phase with no subscriptions
    /// and default configuration.
    pub fn new() -> (r: JxlDecoder)
        ensures
            r.wf(),
            JxlDecoder::stream_state_reset(&r),
            r.subscriptions_spec() == 0,
            r.preferred_profile_spec() is None,
            !r.decompress_boxes_spec(),
            r.callback_mode_spec() == CallbackMode::Unset,
            !r.keep_orientation_spec(),
            !r.unpremultiply_alpha_spec(),
            !r.render_spotcolors_spec(),
            r.coalescing_spec(),
            r.progressive_detail_spec() is None,
    {
        let r = JxlDecoder {
            phase: DecodePhase::Start,
            pending: PendingAction::Idle,
            subscriptions: 0,
            feeder: InputFeeder::new(),
            basic_info: None,
            extra_channels: Vec::new(),
            extra_channel_names: Vec::new(),
            encoded_profile: None,
            icc_profile: None,
            preferred_profile: None,
            frame_header: None,
            frame_name: None,
            image_buffer_len: None,
            preview_buffer_len: None,
            jpeg_buffer_len: None,
            box_buffer_len: None,
            current_box: None,
            box_written: 0,
            decompress_boxes: false,
            in_box: false,
            callback_mode: CallbackMode::Unset,
            keep_orientation: false,
            unpremultiply_alpha: false,
            render_spotcolors: false,
            coalescing: true,
            progressive_detail: None,
            downsampling: 1,
            frames_to_skip: 0,
            output_profile: None,
            output_icc_len: None,
            extra_buffer: None,
            image_bit_depth: None,
        };
        proof {
            assert(r.extra_channel_names@.map_values(|v: Vec<u8>| v@) =~= Seq::<Seq<u8>>::empty());
        }
        r
    }

    /// Checks the signature of a byte prefix.
    ///
    /// Always succeeds; fewer than two bytes give `NotEnoughBytes`, the
    /// two-byte codestream marker gives `Codestream`, twelve bytes of
    /// container magic give `Container`, and a short prefix of the magic is
    /// never falsely rejected.
    pub fn check_signature(&self, data: &[u8]) -> (r: Result<JxlSignature, JxlError>)
        ensures
            r == Ok::<JxlSignature, JxlError>(spec_signature(data@)),
            data@.len() < 2 ==> r == Ok::<JxlSignature, JxlError>(JxlSignature::NotEnoughBytes),
            data@.len() >= 2 && data@[0] == 0xFF && data@[1] == 0x0A ==> r == Ok::<
                JxlSignature,
                JxlError,
            >(JxlSignature::Codestream),
            data@.len() >= 12 && spec_is_magic_prefix(data@, 12) ==> r == Ok::<
                JxlSignature,
                JxlError,
            >(JxlSignature::Container),
    {
        if data.len() < 2 {
            return Ok(JxlSignature::NotEnoughBytes);
        }
        if data[0] == 0xFF && data[1] == 0x0A {
            return Ok(JxlSignature::Codestream);
        }
        let n: usize = if data.len() < 12 {
            data.len()
        } else {
            12
        };
        let mut i: usize = 0;
        while i < n
            invariant
                i <= n,
                n <= data@.len(),
                n <= 12,
                data@.len() >= 2,
                !(data@[0] == 0xFF && data@[1] == 0x0A),
                n == (if data@.len() < 12 {
                    data@.len() as int
                } else {
                    12int
                }),
                spec_is_magic_prefix(data@, i as int),
            decreases n - i,
        {
            if data[i] != container_magic_byte(i) {
                assert(!spec_is_magic_prefix(data@, n as int));
                assert(!spec_is_magic_prefix(data@, 12));
                return Ok(JxlSignature::Invalid);
            }
            i = i + 1;
        }
        if data.len() >= 12 {
            Ok(JxlSignature::Container)
        } else {
            Ok(JxlSignature::NotEnoughBytes)
        }
    }

    /// Conservative lower bound on the bytes needed before basic info can
    /// be produced: positive until the metadata has been read.
    pub fn size_hint_basic_info(&self) -> (r: usize)
        ensures
            self.basic_info_spec() is None ==> r > 0,
            self.basic_info_spec() is Some ==> r == 0,
    {
        match self.basic_info {
            Some(_) => 0,
            None => 12,
        }
    }

    /// Subscribes to a set of informational events, given as the OR of
    /// their wire codes.
    ///
    /// Subscriptions are configuration: they can only be set before the
    /// stream starts; later calls are a caller-sequence error and change
    /// nothing.
    pub fn subscribe_events(&mut self, events: i32) -> (r: Result<(), JxlError>)
        requires
            old(self).wf(),
        ensures
            final(self).wf(),
            old(self).phase_spec() == DecodePhase::Start ==> ({
                &&& r == Ok::<(), JxlError>(())
                &&& final(self).subscriptions_spec() == events
            }),
            old(self).phase_spec() != DecodePhase::Start ==> ({
                &&& r == Err::<(), JxlError>(JxlError::ApiSequenceError)
                &&& *final(self) == *old(self)
            }),
            final(self).phase_spec() == old(self).phase_spec(),
            final(self).pending_spec() == old(self).pending_spec(),
    {
        if !matches!(self.phase, DecodePhase::Start) {
            return Err(JxlError::ApiSequenceError);
        }
        self.subscriptions = events;
        Ok(())
    }

    /// Keeps or undoes the encoded orientation.
    pub fn set_keep_orientation(&mut self, keep: bool) -> (r: Result<(), JxlError>)
        requires
            old(self).wf(),
        ensures
            final(self).wf(),
            r == Ok::<(), JxlError>(()),
            final(self).keep_orientation_spec() == keep,
            final(self).phase_spec() == old(self).phase_spec(),
    {
        self.keep_orientation = keep;
        Ok(())
    }

    /// Requests unpremultiplied alpha output.
    pub fn set_unpremultiply_alpha(&mut self, unpremultiply_alpha: bool) -> (r: Result<
        (),
        JxlError,
    >)
        requires
            old(self).wf(),
        ensures
            final(self).wf(),
            r == Ok::<(), JxlError>(()),
            final(self).unpremultiply_alpha_spec() == unpremultiply_alpha,
            final(self).phase_spec() == old(self).phase_spec(),
    {
        self.unpremultiply_alpha = unpremultiply_alpha;
        Ok(())
    }

    /// Renders or skips spot colors.
    pub fn set_render_spotcolors(&mut self, render_spotcolors: bool) -> (r: Result<(), JxlError>)
        requires
            old(self).wf(),
        ensures
            final(self).wf(),
            r == Ok::<(), JxlError>(()),
            final(self).render_spotcolors_spec() == render_spotcolors,
            final(self).phase_spec() == old(self).phase_spec(),
    {
        self.render_spotcolors = render_spotcolors;
        Ok(())
    }

    /// Enables or disables coalescing of animation frames.
    pub fn set_coalescing(&mut self, coalescing: bool) -> (r: Result<(), JxlError>)
        requires
            old(self).wf(),
        ensures
            final(self).wf(),
            r == Ok::<(), JxlError>(()),
            final(self).coalescing_spec() == coalescing,
            final(self).phase_spec() == old(self).phase_spec(),
    {
        self.coalescing = coalescing;
        Ok(())
    }

    /// Sets the granularity of progressive events.
    pub fn set_progressive_detail(&mut self, detail: JxlProgressiveDetail) -> (r: Result<
        (),
        JxlError,
    >)
        requires
            old(self).wf(),
        ensures
            final(self).wf(),
            r == Ok::<(), JxlError>(()),
            final(self).progressive_detail_spec() == Some(detail),
            final(self).phase_spec() == old(self).phase_spec(),
    {
        self.progressive_detail = Some(detail);
        Ok(())
    }

    /// Supplies more input bytes; cumulative, and rejected with
    /// `AlreadyClosed` exactly when `close_input` was called.
    pub fn set_input(&mut self, data: &[u8]) -> (r: Result<(), JxlError>)
        requires
            old(self).wf(),
        ensures
            final(self).wf(),
            old(self).input_closed_spec() ==> ({
                &&& r == Err::<(), JxlError>(JxlError::AlreadyClosed)
                &&& final(self).input_supplied_spec() == old(self).input_supplied_spec()
            }),
            !old(self).input_closed_spec() ==> ({
                &&& r == Ok::<(), JxlError>(())
                &&& final(self).input_supplied_spec() == old(self).input_supplied_spec() + data@
            }),
            final(self).input_consumed_spec() == old(self).input_consumed_spec(),
            final(self).phase_spec() == old(self).phase_spec(),
            final(self).pending_spec() == old(self).pending_spec(),
    {
        self.feeder.supply(data)
    }

    /// Releases the input: returns how many supplied bytes were not yet
    /// consumed.  The caller re-supplies exactly that suffix later.
    pub fn release_input(&self) -> (r: usize)
        requires
            self.wf(),
        ensures
            r == self.input_supplied_spec().len() - self.input_consumed_spec(),
    {
        self.feeder.remaining()
    }

    /// How many leading bytes of the supplied input are no longer needed.
    pub fn consumed_count(&self) -> (r: usize)
        requires
            self.wf(),
        ensures
            r == self.input_consumed_spec(),
    {
        self.feeder.consumed_count()
    }

    /// Signals that no further input will arrive.
    pub fn close_input(&mut self)
        requires
            old(self).wf(),
        ensures
            final(self).wf(),
            final(self).input_closed_spec(),
            final(self).input_supplied_spec() == old(self).input_supplied_spec(),
            final(self).phase_spec() == old(self).phase_spec(),
    {
        self.feeder.close();
    }

    /// An earlier surfaced event still demands caller action that has not
    /// happened: the machine must not be re-entered.
    pub open spec fn spec_pending_blocked(pre: &JxlDecoder) -> bool {
        match pre.pending_spec() {
            PendingAction::Idle => false,
            PendingAction::AwaitInput(mark) => !(pre.input_supplied_spec().len() > mark
                || pre.input_closed_spec()),
            PendingAction::AwaitImageBuffer => pre.image_buffer_len_spec() is None,
            PendingAction::AwaitPreviewBuffer => pre.preview_buffer_len_spec() is None,
            PendingAction::AwaitBoxBuffer => false,
        }
    }

    /// A box-contents buffer was demanded and is still missing: the box
    /// event is surfaced again instead of an error.
    pub open spec fn spec_box_reemit(pre: &JxlDecoder) -> bool {
        pre.pending_spec() is AwaitBoxBuffer && pre.box_buffer_len_spec() is None
    }

    /// The machine will actually process the reported unit.
    pub open spec fn spec_ready(pre: &JxlDecoder) -> bool {
        &&& pre.phase_spec() != DecodePhase::Done
        &&& pre.phase_spec() != DecodePhase::Error
        &&& !JxlDecoder::spec_box_reemit(pre)
        &&& !JxlDecoder::spec_pending_blocked(pre)
    }

    /// The phase a processing step starts from: entering the machine at
    /// `Start` begins waiting for basic info.
    pub open spec fn spec_effective_phase(pre: &JxlDecoder) -> DecodePhase {
        if pre.phase_spec() == DecodePhase::Start {
            DecodePhase::AwaitingBasicInfo
        } else {
            pre.phase_spec()
        }
    }

    /// What a processing step surfaces for an informational event: the
    /// event if subscribed, nothing otherwise.
    pub open spec fn spec_event(mask: i32, ev: JxlDecoderStatus) -> Option<JxlDecoderStatus> {
        if spec_subscribed(mask, ev) {
            Some(ev)
        } else {
            None
        }
    }

    fn event_result(&self, ev: JxlDecoderStatus) -> (r: Option<JxlDecoderStatus>)
        ensures
            r == JxlDecoder::spec_event(self.subscriptions_spec(), ev),
    {
        if self.subscriptions & ev.bits() != 0 {
            Some(ev)
        } else {
            None
        }
    }

    /// Runs one processing step: the backend consumed `consumed` bytes of
    /// the cursor and reported `unit`.  Returns at most one surfaced event;
    /// `Ok(None)` means the step completed without anything to report and
    /// the caller should drive the next unit.
    ///
    /// An unsatisfied buffer or input demand is a caller error
    /// (`ApiSequenceError`), except a missing box buffer, whose event is
    /// re-emitted.  A malformed stream or an out-of-order unit is fatal:
    /// the machine moves to `Error` and every later step fails.
    /// Unsubscribed informational events are never surfaced.
    #[verifier::rlimit(100)]
    pub fn process_input(&mut self, consumed: usize, unit: BackendUnit) -> (r: Result<
        Option<JxlDecoderStatus>,
        JxlError,
    >)
        requires
            old(self).wf(),
            consumed <= old(self).input_supplied_spec().len() - old(self).input_consumed_spec(),
        ensures
            final(self).wf(),
            JxlDecoder::config_unchanged(old(self), final(self)),
            final(self).input_supplied_spec() == old(self).input_supplied_spec(),
            final(self).input_closed_spec() == old(self).input_closed_spec(),
            final(self).basic_info_spec() is Some || final(self).basic_info_spec()
                == old(self).basic_info_spec(),
            // unsubscribed informational events are never surfaced
            r matches Ok(Some(ev)) ==> (spec_is_optional_event(ev) ==> spec_subscribed(
                old(self).subscriptions_spec(),
                ev,
            )),
            // terminal phases
            old(self).phase_spec() == DecodePhase::Error ==> ({
                &&& r == Err::<Option<JxlDecoderStatus>, JxlError>(JxlError::DecodingFailed)
                &&& *final(self) == *old(self)
            }),
            old(self).phase_spec() == DecodePhase::Done ==> ({
                &&& r == Ok::<Option<JxlDecoderStatus>, JxlError>(
                    Some(JxlDecoderStatus::Success),
                )
                &&& *final(self) == *old(self)
            }),
            // a demanded box buffer is still missing: re-emit the box event
            (old(self).phase_spec() != DecodePhase::Error && old(self).phase_spec()
                != DecodePhase::Done && JxlDecoder::spec_box_reemit(old(self))) ==> ({
                &&& r == Ok::<Option<JxlDecoderStatus>, JxlError>(Some(JxlDecoderStatus::Box))
                &&& *final(self) == *old(self)
            }),
            // any other unsatisfied demand is a caller error
            (old(self).phase_spec() != DecodePhase::Error && old(self).phase_spec()
                != DecodePhase::Done && !JxlDecoder::spec_box_reemit(old(self))
                && JxlDecoder::spec_pending_blocked(old(self))) ==> ({
                &&& r == Err::<Option<JxlDecoderStatus>, JxlError>(JxlError::ApiSequenceError)
                &&& *final(self) == *old(self)
            }),
            // the step really ran: the consumed prefix advanced
            JxlDecoder::spec_ready(old(self)) ==> final(self).input_consumed_spec() == old(
                self,
            ).input_consumed_spec() + consumed,
            // per-unit transitions, from the effective phase
            JxlDecoder::spec_ready(old(self)) ==> ({
                let eph = JxlDecoder::spec_effective_phase(old(self));
                let mask = old(self).subscriptions_spec();
                match unit {
                    BackendUnit::NeedMoreInput => {
                        if old(self).input_closed_spec() {
                            &&& r == Err::<Option<JxlDecoderStatus>, JxlError>(
                                JxlError::TruncatedStream,
                            )
                            &&& final(self).phase_spec() == DecodePhase::Error
                        } else {
                            &&& r == Ok::<Option<JxlDecoderStatus>, JxlError>(
                                Some(JxlDecoderStatus::NeedMoreInput),
                            )
                            &&& final(self).phase_spec() == eph
                            &&& final(self).pending_spec() == PendingAction::AwaitInput(
                                old(self).input_supplied_spec().len() as usize,
                            )
                        }
                    },
                    BackendUnit::BasicInfoReady { info, extra_channels, extra_channel_names } => {
                        if eph == DecodePhase::AwaitingBasicInfo && old(self).basic_info_spec()
                            is None {
                            &&& r == Ok::<Option<JxlDecoderStatus>, JxlError>(
                                JxlDecoder::spec_event(mask, JxlDecoderStatus::BasicInfo),
                            )
                            &&& final(self).phase_spec() == DecodePhase::AwaitingColorEncoding
                            &&& final(self).basic_info_spec() == Some(info)
                            &&& final(self).extra_channels_spec() == extra_channels@
                            &&& final(self).extra_channel_names_spec() == extra_channel_names@
                                .map_values(|v: Vec<u8>| v@)
                            &&& final(self).pending_spec() == PendingAction::Idle
                        } else {
                            &&& r == Err::<Option<JxlDecoderStatus>, JxlError>(
                                JxlError::DecodingFailed,
                            )
                            &&& final(self).phase_spec() == DecodePhase::Error
                        }
                    },
                    BackendUnit::ColorEncodingReady { encoded_profile, icc_profile } => {
                        if eph == DecodePhase::AwaitingColorEncoding {
                            &&& r == Ok::<Option<JxlDecoderStatus>, JxlError>(
                                JxlDecoder::spec_event(mask, JxlDecoderStatus::ColorEncoding),
                            )
                            &&& final(self).phase_spec() == DecodePhase::AwaitingFrame
                            &&& final(self).encoded_profile_spec() == encoded_profile
                            &&& final(self).icc_profile_spec() == Some(icc_profile@)
                        } else {
                            &&& r == Err::<Option<JxlDecoderStatus>, JxlError>(
                                JxlError::DecodingFailed,
                            )
                            &&& final(self).phase_spec() == DecodePhase::Error
                        }
                    },
                    BackendUnit::FrameReady { header, name } => {
                        if (eph == DecodePhase::AwaitingFrame || eph == DecodePhase::FrameComplete)
                            && old(self).frames_to_skip_spec() > 0 {
                            &&& r == Ok::<Option<JxlDecoderStatus>, JxlError>(None)
                            &&& final(self).phase_spec() == DecodePhase::AwaitingFrame
                            &&& final(self).frames_to_skip_spec() == old(
                                self,
                            ).frames_to_skip_spec() - 1
                            &&& final(self).frame_header_spec() is None
                        } else if eph == DecodePhase::AwaitingFrame || eph
                            == DecodePhase::FrameComplete {
                            &&& r == Ok::<Option<JxlDecoderStatus>, JxlError>(
                                JxlDecoder::spec_event(mask, JxlDecoderStatus::Frame),
                            )
                            &&& final(self).phase_spec() == DecodePhase::StreamingPixels
                            &&& final(self).frame_header_spec() == Some(header)
                            &&& final(self).frame_name_spec() == Some(name@)
                            &&& final(self).image_buffer_len_spec() is None
                        } else {
                            &&& r == Err::<Option<JxlDecoderStatus>, JxlError>(
                                JxlError::DecodingFailed,
                            )
                            &&& final(self).phase_spec() == DecodePhase::Error
                        }
                    },
                    BackendUnit::NeedPreviewOutBuffer => {
                        if eph == DecodePhase::AwaitingFrame {
                            &&& r == Ok::<Option<JxlDecoderStatus>, JxlError>(
                                Some(JxlDecoderStatus::NeedPreviewOutBuffer),
                            )
                            &&& final(self).phase_spec() == eph
                            &&& final(self).pending_spec() == PendingAction::AwaitPreviewBuffer
                        } else {
                            &&& r == Err::<Option<JxlDecoderStatus>, JxlError>(
                                JxlError::DecodingFailed,
                            )
                            &&& final(self).phase_spec() == DecodePhase::Error
                        }
                    },
                    BackendUnit::PreviewReady => {
                        if eph == DecodePhase::AwaitingFrame && old(self).preview_buffer_len_spec()
                            is Some {
                            &&& r == Ok::<Option<JxlDecoderStatus>, JxlError>(
                                JxlDecoder::spec_event(mask, JxlDecoderStatus::PreviewImage),
                            )
                            &&& final(self).phase_spec() == eph
                        } else {
                            &&& r == Err::<Option<JxlDecoderStatus>, JxlError>(
                                JxlError::DecodingFailed,
                            )
                            &&& final(self).phase_spec() == DecodePhase::Error
                        }
                    },
                    BackendUnit::NeedImageOutBuffer => {
                        if eph == DecodePhase::StreamingPixels {
                            &&& r == Ok::<Option<JxlDecoderStatus>, JxlError>(
                                Some(JxlDecoderStatus::NeedImageOutBuffer),
                            )
                            &&& final(self).phase_spec() == DecodePhase::AwaitingOutputBuffer
                            &&& final(self).pending_spec() == PendingAction::AwaitImageBuffer
                        } else {
                            &&& r == Err::<Option<JxlDecoderStatus>, JxlError>(
                                JxlError::DecodingFailed,
                            )
                            &&& final(self).phase_spec() == DecodePhase::Error
                        }
                    },
                    BackendUnit::FrameProgression { downsampling } => {
                        if eph == DecodePhase::StreamingPixels {
                            &&& r == Ok::<Option<JxlDecoderStatus>, JxlError>(
                                JxlDecoder::spec_event(mask, JxlDecoderStatus::FrameProgression),
                            )
                            &&& final(self).phase_spec() == eph
                            &&& final(self).downsampling_spec() == downsampling
                        } else {
                            &&& r == Err::<Option<JxlDecoderStatus>, JxlError>(
                                JxlError::DecodingFailed,
                            )
                            &&& final(self).phase_spec() == DecodePhase::Error
                        }
                    },
                    BackendUnit::FullImageReady => {
                        if eph == DecodePhase::StreamingPixels {
                            &&& r == Ok::<Option<JxlDecoderStatus>, JxlError>(
                                JxlDecoder::spec_event(mask, JxlDecoderStatus::FullImage),
                            )
                            &&& final(self).phase_spec() == DecodePhase::FrameComplete
                        } else {
                            &&& r == Err::<Option<JxlDecoderStatus>, JxlError>(
                                JxlError::DecodingFailed,
                            )
                            &&& final(self).phase_spec() == DecodePhase::Error
                        }
                    },
                    BackendUnit::BoxReady { record } => {
                        if old(self).in_box_spec() {
                            &&& r == Err::<Option<JxlDecoderStatus>, JxlError>(
                                JxlError::DecodingFailed,
                            )
                            &&& final(self).phase_spec() == DecodePhase::Error
                        } else if spec_subscribed(mask, JxlDecoderStatus::Box) {
                            &&& r == Ok::<Option<JxlDecoderStatus>, JxlError>(
                                Some(JxlDecoderStatus::Box),
                            )
                            &&& final(self).phase_spec() == eph
                            &&& final(self).current_box_spec() == Some(record)
                            &&& final(self).in_box_spec()
                            &&& final(self).box_written_spec() == 0
                            &&& final(self).box_buffer_len_spec() is None
                            &&& final(self).pending_spec() == PendingAction::AwaitBoxBuffer
                        } else {
                            &&& r == Ok::<Option<JxlDecoderStatus>, JxlError>(None)
                            &&& final(self).phase_spec() == eph
                            &&& !final(self).in_box_spec()
                            &&& final(self).current_box_spec() == old(self).current_box_spec()
                        }
                    },
                    BackendUnit::BoxComplete => {
                        if old(self).in_box_spec() && old(self).box_buffer_len_spec() is Some && old(
                            self,
                        ).current_box_spec() is Some {
                            let blen = old(self).box_buffer_len_spec().unwrap();
                            let rec = old(self).current_box_spec().unwrap();
                            &&& r == Ok::<Option<JxlDecoderStatus>, JxlError>(
                                JxlDecoder::spec_event(mask, JxlDecoderStatus::BoxComplete),
                            )
                            &&& final(self).phase_spec() == eph
                            &&& !final(self).in_box_spec()
                            &&& final(self).pending_spec() == PendingAction::Idle
                            &&& final(self).box_written_spec() == (if rec.contents_size <= blen
                                as u64 {
                                rec.contents_size as int
                            } else {
                                blen as int
                            })
                        } else {
                            &&& r == Err::<Option<JxlDecoderStatus>, JxlError>(
                                JxlError::DecodingFailed,
                            )
                            &&& final(self).phase_spec() == DecodePhase::Error
                        }
                    },
                    BackendUnit::Corrupt => {
                        &&& r == Err::<Option<JxlDecoderStatus>, JxlError>(
                            JxlError::DecodingFailed,
                        )
                        &&& final(self).phase_spec() == DecodePhase::Error
                    },
                    BackendUnit::Finished => {
                        &&& r == Ok::<Option<JxlDecoderStatus>, JxlError>(
                            Some(JxlDecoderStatus::Success),
                        )
                        &&& final(self).phase_spec() == DecodePhase::Done
                        &&& final(self).frame_header_spec() is None
                        &&& final(self).frame_name_spec() is None
                    },
                }
            }),
    {
        match self.phase {
            DecodePhase::Error => {
                return Err(JxlError::DecodingFailed);
            },
            DecodePhase::Done => {
                return Ok(Some(JxlDecoderStatus::Success));
            },
            _ => {},
        }
        if matches!(self.pending, PendingAction::AwaitBoxBuffer) && self.box_buffer_len.is_none() {
            return Ok(Some(JxlDecoderStatus::Box));
        }
        match self.pending {
            PendingAction::Idle => {},
            PendingAction::AwaitInput(mark) => {
                if !(self.feeder.supplied_len() > mark || self.feeder.is_closed()) {
                    return Err(JxlError::ApiSequenceError);
                }
            },
            PendingAction::AwaitImageBuffer => {
                if self.image_buffer_len.is_none() {
                    return Err(JxlError::ApiSequenceError);
                }
            },
            PendingAction::AwaitPreviewBuffer => {
                if self.preview_buffer_len.is_none() {
                    return Err(JxlError::ApiSequenceError);
                }
            },
            PendingAction::AwaitBoxBuffer => {},
        }
        if matches!(self.phase, DecodePhase::Start) {
            self.phase = DecodePhase::AwaitingBasicInfo;
        }
        self.pending = PendingAction::Idle;
        // The precondition bounds `consumed` by the cursor length, so the
        // feeder accepts it.
        let _ = self.feeder.consume(consumed);
        match unit {
            BackendUnit::NeedMoreInput => self.on_need_more_input(),
            BackendUnit::BasicInfoReady { info, extra_channels, extra_channel_names } => self
                .on_basic_info(info, extra_channels, extra_channel_names),
            BackendUnit::ColorEncodingReady { encoded_profile, icc_profile } => self
                .on_color_encoding(encoded_profile, icc_profile),
            BackendUnit::FrameReady { header, name } => self.on_frame(header, name),
            BackendUnit::NeedPreviewOutBuffer => self.on_need_preview_buffer(),
            BackendUnit::PreviewReady => self.on_preview_ready(),
            BackendUnit::NeedImageOutBuffer => self.on_need_image_buffer(),
            BackendUnit::FrameProgression { downsampling } => self.on_frame_progression(
                downsampling,
            ),
            BackendUnit::FullImageReady => self.on_full_image(),
            BackendUnit::BoxReady { record } => self.on_box_ready(record),
            BackendUnit::BoxComplete => self.on_box_complete(),
            BackendUnit::Corrupt => {
                self.phase = DecodePhase::Error;
                Err(JxlError::DecodingFailed)
            },
            BackendUnit::Finished => {
                self.phase = DecodePhase::Done;
                self.frame_header = None;
                self.frame_name = None;
                Ok(Some(JxlDecoderStatus::Success))
            },
        }
    }

    /// The state a unit handler runs from: a live phase with no pending
    /// demand.
    pub open spec fn spec_dispatch_state(pre: &JxlDecoder) -> bool {
        &&& pre.wf()
        &&& pre.phase_spec() != DecodePhase::Start
        &&& pre.phase_spec() != DecodePhase::Done
        &&& pre.phase_spec() != DecodePhase::Error
        &&& pre.pending_spec() == PendingAction::Idle
    }

    /// The parts of a step that every unit handler leaves alone.
    pub open spec fn spec_handler_frame(pre: &JxlDecoder, post: &JxlDecoder) -> bool {
        &&& post.wf()
        &&& JxlDecoder::config_unchanged(pre, post)
        &&& post.input_supplied_spec() == pre.input_supplied_spec()
        &&& post.input_closed_spec() == pre.input_closed_spec()
        &&& post.input_consumed_spec() == pre.input_consumed_spec()
        &&& (post.basic_info_spec() is Some || post.basic_info_spec() == pre.basic_info_spec())
    }

    fn on_need_more_input(&mut self) -> (r: Result<Option<JxlDecoderStatus>, JxlError>)
        requires
            JxlDecoder::spec_dispatch_state(old(self)),
        ensures
            JxlDecoder::spec_handler_frame(old(self), final(self)),
            old(self).input_closed_spec() ==> ({
                &&& r == Err::<Option<JxlDecoderStatus>, JxlError>(JxlError::TruncatedStream)
                &&& final(self).phase_spec() == DecodePhase::Error
            }),
            !old(self).input_closed_spec() ==> ({
                &&& r == Ok::<Option<JxlDecoderStatus>, JxlError>(
                    Some(JxlDecoderStatus::NeedMoreInput),
                )
                &&& final(self).phase_spec() == old(self).phase_spec()
                &&& final(self).pending_spec() == PendingAction::AwaitInput(
                    old(self).input_supplied_spec().len() as usize,
                )
            }),
    {
        if self.feeder.is_closed() {
            self.phase = DecodePhase::Error;
            return Err(JxlError::TruncatedStream);
        }
        self.pending = PendingAction::AwaitInput(self.feeder.supplied_len());
        Ok(Some(JxlDecoderStatus::NeedMoreInput))
    }

    fn on_basic_info(
        &mut self,
        info: JxlBasicInfo,
        extra_channels: Vec<JxlExtraChannelInfo>,
        extra_channel_names: Vec<Vec<u8>>,
    ) -> (r: Result<Option<JxlDecoderStatus>, JxlError>)
        requires
            JxlDecoder::spec_dispatch_state(old(self)),
        ensures
            JxlDecoder::spec_handler_frame(old(self), final(self)),
            r matches Ok(Some(ev)) ==> (spec_is_optional_event(ev) ==> spec_subscribed(
                old(self).subscriptions_spec(),
                ev,
            )),
            (old(self).phase_spec() == DecodePhase::AwaitingBasicInfo && old(
                self,
            ).basic_info_spec() is None) ==> ({
                &&& r == Ok::<Option<JxlDecoderStatus>, JxlError>(
                    JxlDecoder::spec_event(
                        old(self).subscriptions_spec(),
                        JxlDecoderStatus::BasicInfo,
                    ),
                )
                &&& final(self).phase_spec() == DecodePhase::AwaitingColorEncoding
                &&& final(self).basic_info_spec() == Some(info)
                &&& final(self).extra_channels_spec() == extra_channels@
                &&& final(self).extra_channel_names_spec() == extra_channel_names@.map_values(
                    |v: Vec<u8>| v@,
                )
                &&& final(self).pending_spec() == PendingAction::Idle
            }),
            !(old(self).phase_spec() == DecodePhase::AwaitingBasicInfo && old(
                self,
            ).basic_info_spec() is None) ==> ({
                &&& r == Err::<Option<JxlDecoderStatus>, JxlError>(JxlError::DecodingFailed)
                &&& final(self).phase_spec() == DecodePhase::Error
            }),
    {
        if !matches!(self.phase, DecodePhase::AwaitingBasicInfo) || self.basic_info.is_some() {
            self.phase = DecodePhase::Error;
            return Err(JxlError::DecodingFailed);
        }
        self.basic_info = Some(info);
        self.extra_channels = extra_channels;
        self.extra_channel_names = extra_channel_names;
        self.phase = DecodePhase::AwaitingColorEncoding;
        Ok(self.event_result(JxlDecoderStatus::BasicInfo))
    }

    fn on_color_encoding(
        &mut self,
        encoded_profile: Option<JxlColorEncoding>,
        icc_profile: Vec<u8>,
    ) -> (r: Result<Option<JxlDecoderStatus>, JxlError>)
        requires
            JxlDecoder::spec_dispatch_state(old(self)),
        ensures
            JxlDecoder::spec_handler_frame(old(self), final(self)),
            r matches Ok(Some(ev)) ==> (spec_is_optional_event(ev) ==> spec_subscribed(
                old(self).subscriptions_spec(),
                ev,
            )),
            old(self).phase_spec() == DecodePhase::AwaitingColorEncoding ==> ({
                &&& r == Ok::<Option<JxlDecoderStatus>, JxlError>(
                    JxlDecoder::spec_event(
                        old(self).subscriptions_spec(),
                        JxlDecoderStatus::ColorEncoding,
                    ),
                )
                &&& final(self).phase_spec() == DecodePhase::AwaitingFrame
                &&& final(self).encoded_profile_spec() == encoded_profile
                &&& final(self).icc_profile_spec() == Some(icc_profile@)
            }),
            old(self).phase_spec() != DecodePhase::AwaitingColorEncoding ==> ({
                &&& r == Err::<Option<JxlDecoderStatus>, JxlError>(JxlError::DecodingFailed)
                &&& final(self).phase_spec() == DecodePhase::Error
            }),
    {
        if !matches!(self.phase, DecodePhase::AwaitingColorEncoding) {
            self.phase = DecodePhase::Error;
            return Err(JxlError::DecodingFailed);
        }
        self.encoded_profile = encoded_profile;
        self.icc_profile = Some(icc_profile);
        self.phase = DecodePhase::AwaitingFrame;
        Ok(self.event_result(JxlDecoderStatus::ColorEncoding))
    }

    fn on_frame(&mut self, header: JxlFrameHeader, name: Vec<u8>) -> (r: Result<
        Option<JxlDecoderStatus>,
        JxlError,
    >)
        requires
            JxlDecoder::spec_dispatch_state(old(self)),
        ensures
            JxlDecoder::spec_handler_frame(old(self), final(self)),
            r matches Ok(Some(ev)) ==> (spec_is_optional_event(ev) ==> spec_subscribed(
                old(self).subscriptions_spec(),
                ev,
            )),
            ((old(self).phase_spec() == DecodePhase::AwaitingFrame || old(self).phase_spec()
                == DecodePhase::FrameComplete) && old(self).frames_to_skip_spec() > 0) ==> ({
                &&& r == Ok::<Option<JxlDecoderStatus>, JxlError>(None)
                &&& final(self).phase_spec() == DecodePhase::AwaitingFrame
                &&& final(self).frames_to_skip_spec() == old(self).frames_to_skip_spec() - 1
                &&& final(self).frame_header_spec() is None
            }),
            ((old(self).phase_spec() == DecodePhase::AwaitingFrame || old(self).phase_spec()
                == DecodePhase::FrameComplete) && old(self).frames_to_skip_spec() == 0) ==> ({
                &&& r == Ok::<Option<JxlDecoderStatus>, JxlError>(
                    JxlDecoder::spec_event(old(self).subscriptions_spec(), JxlDecoderStatus::Frame),
                )
                &&& final(self).phase_spec() == DecodePhase::StreamingPixels
                &&& final(self).frame_header_spec() == Some(header)
                &&& final(self).frame_name_spec() == Some(name@)
                &&& final(self).image_buffer_len_spec() is None
            }),
            !(old(self).phase_spec() == DecodePhase::AwaitingFrame || old(self).phase_spec()
                == DecodePhase::FrameComplete) ==> ({
                &&& r == Err::<Option<JxlDecoderStatus>, JxlError>(JxlError::DecodingFailed)
                &&& final(self).phase_spec() == DecodePhase::Error
            }),
    {
        if !(matches!(self.phase, DecodePhase::AwaitingFrame) || matches!(
            self.phase,
            DecodePhase::FrameComplete,
        )) {
            self.phase = DecodePhase::Error;
            return Err(JxlError::DecodingFailed);
        }
        if self.frames_to_skip > 0 {
            self.frames_to_skip = self.frames_to_skip - 1;
            self.phase = DecodePhase::AwaitingFrame;
            self.frame_header = None;
            self.frame_name = None;
            return Ok(None);
        }
        self.frame_header = Some(header);
        self.frame_name = Some(name);
        self.image_buffer_len = None;
        self.phase = DecodePhase::StreamingPixels;
        Ok(self.event_result(JxlDecoderStatus::Frame))
    }

    fn on_need_preview_buffer(&mut self) -> (r: Result<Option<JxlDecoderStatus>, JxlError>)
        requires
            JxlDecoder::spec_dispatch_state(old(self)),
        ensures
            JxlDecoder::spec_handler_frame(old(self), final(self)),
            old(self).phase_spec() == DecodePhase::AwaitingFrame ==> ({
                &&& r == Ok::<Option<JxlDecoderStatus>, JxlError>(
                    Some(JxlDecoderStatus::NeedPreviewOutBuffer),
                )
                &&& final(self).phase_spec() == old(self).phase_spec()
                &&& final(self).pending_spec() == PendingAction::AwaitPreviewBuffer
            }),
            old(self).phase_spec() != DecodePhase::AwaitingFrame ==> ({
                &&& r == Err::<Option<JxlDecoderStatus>, JxlError>(JxlError::DecodingFailed)
                &&& final(self).phase_spec() == DecodePhase::Error
            }),
    {
        if !matches!(self.phase, DecodePhase::AwaitingFrame) {
            self.phase = DecodePhase::Error;
            return Err(JxlError::DecodingFailed);
        }
        self.pending = PendingAction::AwaitPreviewBuffer;
        Ok(Some(JxlDecoderStatus::NeedPreviewOutBuffer))
    }

    fn on_preview_ready(&mut self) -> (r: Result<Option<JxlDecoderStatus>, JxlError>)
        requires
            JxlDecoder::spec_dispatch_state(old(self)),
        ensures
            JxlDecoder::spec_handler_frame(old(self), final(self)),
            r matches Ok(Some(ev)) ==> (spec_is_optional_event(ev) ==> spec_subscribed(
                old(self).subscriptions_spec(),
                ev,
            )),
            (old(self).phase_spec() == DecodePhase::AwaitingFrame && old(
                self,
            ).preview_buffer_len_spec() is Some) ==> ({
                &&& r == Ok::<Option<JxlDecoderStatus>, JxlError>(
                    JxlDecoder::spec_event(
                        old(self).subscriptions_spec(),
                        JxlDecoderStatus::PreviewImage,
                    ),
                )
                &&& final(self).phase_spec() == old(self).phase_spec()
            }),
            !(old(self).phase_spec() == DecodePhase::AwaitingFrame && old(
                self,
            ).preview_buffer_len_spec() is Some) ==> ({
                &&& r == Err::<Option<JxlDecoderStatus>, JxlError>(JxlError::DecodingFailed)
                &&& final(self).phase_spec() == DecodePhase::Error
            }),
    {
        if !matches!(self.phase, DecodePhase::AwaitingFrame) || self.preview_buffer_len.is_none() {
            self.phase = DecodePhase::Error;
            return Err(JxlError::DecodingFailed);
        }
        Ok(self.event_result(JxlDecoderStatus::PreviewImage))
    }

    fn on_need_image_buffer(&mut self) -> (r: Result<Option<JxlDecoderStatus>, JxlError>)
        requires
            JxlDecoder::spec_dispatch_state(old(self)),
        ensures
            JxlDecoder::spec_handler_frame(old(self), final(self)),
            old(self).phase_spec() == DecodePhase::StreamingPixels ==> ({
                &&& r == Ok::<Option<JxlDecoderStatus>, JxlError>(
                    Some(JxlDecoderStatus::NeedImageOutBuffer),
                )
                &&& final(self).phase_spec() == DecodePhase::AwaitingOutputBuffer
                &&& final(self).pending_spec() == PendingAction::AwaitImageBuffer
            }),
            old(self).phase_spec() != DecodePhase::StreamingPixels ==> ({
                &&& r == Err::<Option<JxlDecoderStatus>, JxlError>(JxlError::DecodingFailed)
                &&& final(self).phase_spec() == DecodePhase::Error
            }),
    {
        if !matches!(self.phase, DecodePhase::StreamingPixels) {
            self.phase = DecodePhase::Error;
            return Err(JxlError::DecodingFailed);
        }
        self.pending = PendingAction::AwaitImageBuffer;
        self.phase = DecodePhase::AwaitingOutputBuffer;
        Ok(Some(JxlDecoderStatus::NeedImageOutBuffer))
    }

    fn on_frame_progression(&mut self, downsampling: usize) -> (r: Result<
        Option<JxlDecoderStatus>,
        JxlError,
    >)
        requires
            JxlDecoder::spec_dispatch_state(old(self)),
        ensures
            JxlDecoder::spec_handler_frame(old(self), final(self)),
            r matches Ok(Some(ev)) ==> (spec_is_optional_event(ev) ==> spec_subscribed(
                old(self).subscriptions_spec(),
                ev,
            )),
            old(self).phase_spec() == DecodePhase::StreamingPixels ==> ({
                &&& r == Ok::<Option<JxlDecoderStatus>, JxlError>(
                    JxlDecoder::spec_event(
                        old(self).subscriptions_spec(),
                        JxlDecoderStatus::FrameProgression,
                    ),
                )
                &&& final(self).phase_spec() == old(self).phase_spec()
                &&& final(self).downsampling_spec() == downsampling
            }),
            old(self).phase_spec() != DecodePhase::StreamingPixels ==> ({
                &&& r == Err::<Option<JxlDecoderStatus>, JxlError>(JxlError::DecodingFailed)
                &&& final(self).phase_spec() == DecodePhase::Error
            }),
    {
        if !matches!(self.phase, DecodePhase::StreamingPixels) {
            self.phase = DecodePhase::Error;
            return Err(JxlError::DecodingFailed);
        }
        self.downsampling = downsampling;
        Ok(self.event_result(JxlDecoderStatus::FrameProgression))
    }

    fn on_full_image(&mut self) -> (r: Result<Option<JxlDecoderStatus>, JxlError>)
        requires
            JxlDecoder::spec_dispatch_state(old(self)),
        ensures
            JxlDecoder::spec_handler_frame(old(self), final(self)),
            r matches Ok(Some(ev)) ==> (spec_is_optional_event(ev) ==> spec_subscribed(
                old(self).subscriptions_spec(),
                ev,
            )),
            old(self).phase_spec() == DecodePhase::StreamingPixels ==> ({
                &&& r == Ok::<Option<JxlDecoderStatus>, JxlError>(
                    JxlDecoder::spec_event(
                        old(self).subscriptions_spec(),
                        JxlDecoderStatus::FullImage,
                    ),
                )
                &&& final(self).phase_spec() == DecodePhase::FrameComplete
            }),
            old(self).phase_spec() != DecodePhase::StreamingPixels ==> ({
                &&& r == Err::<Option<JxlDecoderStatus>, JxlError>(JxlError::DecodingFailed)
                &&& final(self).phase_spec() == DecodePhase::Error
            }),
    {
        if !matches!(self.phase, DecodePhase::StreamingPixels) {
            self.phase = DecodePhase::Error;
            return Err(JxlError::DecodingFailed);
        }
        self.phase = DecodePhase::FrameComplete;
        Ok(self.event_result(JxlDecoderStatus::FullImage))
    }

    fn on_box_ready(&mut self, record: BoxRecord) -> (r: Result<Option<JxlDecoderStatus>, JxlError>)
        requires
            JxlDecoder::spec_dispatch_state(old(self)),
        ensures
            JxlDecoder::spec_handler_frame(old(self), final(self)),
            r matches Ok(Some(ev)) ==> (spec_is_optional_event(ev) ==> spec_subscribed(
                old(self).subscriptions_spec(),
                ev,
            )),
            old(self).in_box_spec() ==> ({
                &&& r == Err::<Option<JxlDecoderStatus>, JxlError>(JxlError::DecodingFailed)
                &&& final(self).phase_spec() == DecodePhase::Error
            }),
            (!old(self).in_box_spec() && spec_subscribed(
                old(self).subscriptions_spec(),
                JxlDecoderStatus::Box,
            )) ==> ({
                &&& r == Ok::<Option<JxlDecoderStatus>, JxlError>(Some(JxlDecoderStatus::Box))
                &&& final(self).phase_spec() == old(self).phase_spec()
                &&& final(self).current_box_spec() == Some(record)
                &&& final(self).in_box_spec()
                &&& final(self).box_written_spec() == 0
                &&& final(self).box_buffer_len_spec() is None
                &&& final(self).pending_spec() == PendingAction::AwaitBoxBuffer
            }),
            (!old(self).in_box_spec() && !spec_subscribed(
                old(self).subscriptions_spec(),
                JxlDecoderStatus::Box,
            )) ==> ({
                &&& r == Ok::<Option<JxlDecoderStatus>, JxlError>(None)
                &&& final(self).phase_spec() == old(self).phase_spec()
                &&& !final(self).in_box_spec()
                &&& final(self).current_box_spec() == old(self).current_box_spec()
            }),
    {
        if self.in_box {
            self.phase = DecodePhase::Error;
            return Err(JxlError::DecodingFailed);
        }
        if self.subscriptions & JxlDecoderStatus::Box.bits() != 0 {
            self.current_box = Some(record);
            self.in_box = true;
            self.box_written = 0;
            self.box_buffer_len = None;
            self.pending = PendingAction::AwaitBoxBuffer;
            Ok(Some(JxlDecoderStatus::Box))
        } else {
            Ok(None)
        }
    }

    fn on_box_complete(&mut self) -> (r: Result<Option<JxlDecoderStatus>, JxlError>)
        requires
            JxlDecoder::spec_dispatch_state(old(self)),
        ensures
            JxlDecoder::spec_handler_frame(old(self), final(self)),
            r matches Ok(Some(ev)) ==> (spec_is_optional_event(ev) ==> spec_subscribed(
                old(self).subscriptions_spec(),
                ev,
            )),
            (old(self).in_box_spec() && old(self).box_buffer_len_spec() is Some && old(
                self,
            ).current_box_spec() is Some) ==> ({
                let blen = old(self).box_buffer_len_spec().unwrap();
                let rec = old(self).current_box_spec().unwrap();
                &&& r == Ok::<Option<JxlDecoderStatus>, JxlError>(
                    JxlDecoder::spec_event(
                        old(self).subscriptions_spec(),
                        JxlDecoderStatus::BoxComplete,
                    ),
                )
                &&& final(self).phase_spec() == old(self).phase_spec()
                &&& !final(self).in_box_spec()
                &&& final(self).pending_spec() == PendingAction::Idle
                &&& final(self).box_written_spec() == (if rec.contents_size <= blen as u64 {
                    rec.contents_size as int
                } else {
                    blen as int
                })
            }),
            !(old(self).in_box_spec() && old(self).box_buffer_len_spec() is Some && old(
                self,
            ).current_box_spec() is Some) ==> ({
                &&& r == Err::<Option<JxlDecoderStatus>, JxlError>(JxlError::DecodingFailed)
                &&& final(self).phase_spec() == DecodePhase::Error
            }),
    {
        let blen = match self.box_buffer_len {
            Some(l) => l,
            None => {
                self.phase = DecodePhase::Error;
                return Err(JxlError::DecodingFailed);
            },
        };
        let rec = match self.current_box {
            Some(rc) => rc,
            None => {
                self.phase = DecodePhase::Error;
                return Err(JxlError::DecodingFailed);
            },
        };
        if !self.in_box {
            self.phase = DecodePhase::Error;
            return Err(JxlError::DecodingFailed);
        }
        self.box_written = if rec.contents_size <= blen as u64 {
            rec.contents_size as usize
        } else {
            blen
        };
        self.in_box = false;
        self.pending = PendingAction::Idle;
        Ok(self.event_result(JxlDecoderStatus::BoxComplete))
    }

    /// Resets the decoder to its initial state, configuration included.
    pub fn reset(&mut self)
        ensures
            final(self).wf(),
            JxlDecoder::stream_state_reset(final(self)),
            final(self).subscriptions_spec() == 0,
            final(self).preferred_profile_spec() is None,
            !final(self).decompress_boxes_spec(),
            final(self).callback_mode_spec() == CallbackMode::Unset,
    {
        *self = JxlDecoder::new();
    }

    /// Rewinds to the beginning of the stream: per-stream state is
    /// discarded, configuration (subscriptions, preferred color profile,
    /// callbacks, box and rendering options) is kept.
    pub fn rewind(&mut self)
        requires
            old(self).wf(),
        ensures
            final(self).wf(),
            JxlDecoder::stream_state_reset(final(self)),
            JxlDecoder::config_unchanged(old(self), final(self)),
    {
        self.phase = DecodePhase::Start;
        self.pending = PendingAction::Idle;
        self.feeder.reset();
        self.basic_info = None;
        self.extra_channels = Vec::new();
        self.extra_channel_names = Vec::new();
        self.encoded_profile = None;
        self.icc_profile = None;
        self.frame_header = None;
        self.frame_name = None;
        self.image_buffer_len = None;
        self.preview_buffer_len = None;
        self.jpeg_buffer_len = None;
        self.box_buffer_len = None;
        self.current_box = None;
        self.box_written = 0;
        self.in_box = false;
        self.downsampling = 1;
        self.frames_to_skip = 0;
        self.output_profile = None;
        self.output_icc_len = None;
        self.extra_buffer = None;
        self.image_bit_depth = None;
        proof {
            assert(self.extra_channel_names@.map_values(|v: Vec<u8>| v@) =~= Seq::<
                Seq<u8>,
            >::empty());
        }
    }

    /// Requests that the next `amount` frames be skipped without pixel
    /// events.  Valid only while frames are being read.
    pub fn skip_frames(&mut self, amount: usize) -> (r: Result<(), JxlError>)
        requires
            old(self).wf(),
        ensures
            final(self).wf(),
            (old(self).phase_spec() == DecodePhase::AwaitingFrame || old(self).phase_spec()
                == DecodePhase::StreamingPixels) ==> ({
                &&& r == Ok::<(), JxlError>(())
                &&& final(self).frames_to_skip_spec() == (if old(self).frames_to_skip_spec()
                    + amount <= usize::MAX {
                    old(self).frames_to_skip_spec() + amount
                } else {
                    usize::MAX as int
                })
                &&& final(self).phase_spec() == old(self).phase_spec()
            }),
            !(old(self).phase_spec() == DecodePhase::AwaitingFrame || old(self).phase_spec()
                == DecodePhase::StreamingPixels) ==> ({
                &&& r == Err::<(), JxlError>(JxlError::ApiSequenceError)
                &&& *final(self) == *old(self)
            }),
    {
        if !(matches!(self.phase, DecodePhase::AwaitingFrame) || matches!(
            self.phase,
            DecodePhase::StreamingPixels,
        )) {
            return Err(JxlError::ApiSequenceError);
        }
        if amount > usize::MAX - self.frames_to_skip {
            self.frames_to_skip = usize::MAX;
        } else {
            self.frames_to_skip = self.frames_to_skip + amount;
        }
        Ok(())
    }

    /// Abandons the current frame (or the next one, if none is open) and
    /// re-enters the frame-reading phase without pixel events.
    pub fn skip_current_frame(&mut self) -> (r: Result<(), JxlError>)
        requires
            old(self).wf(),
        ensures
            final(self).wf(),
            old(self).phase_spec() == DecodePhase::StreamingPixels ==> ({
                &&& r == Ok::<(), JxlError>(())
                &&& final(self).phase_spec() == DecodePhase::AwaitingFrame
                &&& final(self).frame_header_spec() is None
                &&& final(self).pending_spec() == PendingAction::Idle
            }),
            old(self).phase_spec() == DecodePhase::AwaitingFrame ==> ({
                &&& r == Ok::<(), JxlError>(())
                &&& final(self).phase_spec() == DecodePhase::AwaitingFrame
                &&& final(self).frames_to_skip_spec() == (if old(self).frames_to_skip_spec() + 1
                    <= usize::MAX {
                    old(self).frames_to_skip_spec() + 1
                } else {
                    usize::MAX as int
                })
            }),
            !(old(self).phase_spec() == DecodePhase::StreamingPixels || old(self).phase_spec()
                == DecodePhase::AwaitingFrame) ==> ({
                &&& r == Err::<(), JxlError>(JxlError::ApiSequenceError)
                &&& *final(self) == *old(self)
            }),
    {
        if matches!(self.phase, DecodePhase::StreamingPixels) {
            self.phase = DecodePhase::AwaitingFrame;
            self.frame_header = None;
            self.frame_name = None;
            self.pending = PendingAction::Idle;
            return Ok(());
        }
        if matches!(self.phase, DecodePhase::AwaitingFrame) {
            if self.frames_to_skip < usize::MAX {
                self.frames_to_skip = self.frames_to_skip + 1;
            }
            return Ok(());
        }
        Err(JxlError::ApiSequenceError)
    }

    /// The basic image metadata; available once the stream produced it.
    pub fn get_basic_info(&self) -> (r: Result<JxlBasicInfo, JxlError>)
        ensures
            self.basic_info_spec() matches Some(info) ==> r == Ok::<JxlBasicInfo, JxlError>(info),
            self.basic_info_spec() is None ==> r == Err::<JxlBasicInfo, JxlError>(
                JxlError::MetadataNotReady,
            ),
    {
        match self.basic_info {
            Some(info) => Ok(info),
            None => Err(JxlError::MetadataNotReady),
        }
    }

    /// Metadata of the extra channel at `index`.
    pub fn get_extra_channel_info(&self, index: usize) -> (r: Result<JxlExtraChannelInfo, JxlError>)
        ensures
            (self.basic_info_spec() is Some && index < self.extra_channels_spec().len()) ==> r
                == Ok::<JxlExtraChannelInfo, JxlError>(self.extra_channels_spec()[index as int]),
            !(self.basic_info_spec() is Some && index < self.extra_channels_spec().len()) ==> r
                == Err::<JxlExtraChannelInfo, JxlError>(JxlError::ExtraChannelError),
    {
        if self.basic_info.is_none() || index >= self.extra_channels.len() {
            return Err(JxlError::ExtraChannelError);
        }
        Ok(self.extra_channels[index])
    }

    /// Name of the extra channel at `index`, copied into an owned buffer.
    ///
    /// `max_len` is the caller's buffer length for the NUL-terminated text;
    /// a name that would not fit (its bytes plus the terminator) is a
    /// caller error, not silently truncated.
    pub fn get_extra_channel_name(&self, index: usize, max_len: usize) -> (r: Result<
        Vec<u8>,
        JxlError,
    >)
        ensures
            !(self.basic_info_spec() is Some && index < self.extra_channel_names_spec().len())
                ==> r == Err::<Vec<u8>, JxlError>(JxlError::ExtraChannelError),
            (self.basic_info_spec() is Some && index < self.extra_channel_names_spec().len()
                && self.extra_channel_names_spec()[index as int].len() + 1 > max_len) ==> r
                == Err::<Vec<u8>, JxlError>(JxlError::InvalidInput),
            (self.basic_info_spec() is Some && index < self.extra_channel_names_spec().len()
                && self.extra_channel_names_spec()[index as int].len() + 1 <= max_len) ==> (r
                matches Ok(name) && name@ == self.extra_channel_names_spec()[index as int]),
    {
        if self.basic_info.is_none() || index >= self.extra_channel_names.len() {
            return Err(JxlError::ExtraChannelError);
        }
        let src = &self.extra_channel_names[index];
        if src.len() >= max_len {
            return Err(JxlError::InvalidInput);
        }
        let mut out: Vec<u8> = Vec::new();
        let mut i: usize = 0;
        while i < src.len()
            invariant
                i <= src@.len(),
                out@ == src@.subrange(0, i as int),
            decreases src@.len() - i,
        {
            out.push(src[i]);
            i = i + 1;
            assert(out@ =~= src@.subrange(0, i as int));
        }
        assert(out@ =~= src@);
        Ok(out)
    }

    /// The structured color profile, when the stream carries one.
    pub fn get_color_as_encoded_profile(&self, target: JxlColorProfileTarget) -> (r: Result<
        JxlColorEncoding,
        JxlError,
    >)
        ensures
            self.encoded_profile_spec() matches Some(ce) ==> r == Ok::<JxlColorEncoding, JxlError>(
                ce,
            ),
            self.encoded_profile_spec() is None ==> r == Err::<JxlColorEncoding, JxlError>(
                JxlError::ColorProfileError,
            ),
    {
        match self.encoded_profile {
            Some(ce) => Ok(ce),
            None => Err(JxlError::ColorProfileError),
        }
    }

    /// Size in bytes of the ICC profile; `NotEnoughInput` until the stream
    /// reached its color encoding.
    pub fn get_icc_profile_size(&self, target: JxlColorProfileTarget) -> (r: Result<
        usize,
        JxlError,
    >)
        ensures
            self.icc_profile_spec() matches Some(icc) ==> (r matches Ok(n) && n == icc.len()),
            self.icc_profile_spec() is None ==> r == Err::<usize, JxlError>(
                JxlError::NotEnoughInput,
            ),
    {
        match &self.icc_profile {
            Some(icc) => Ok(icc.len()),
            None => Err(JxlError::NotEnoughInput),
        }
    }

    /// The ICC profile bytes; `NotEnoughInput` until the stream reached its
    /// color encoding.
    pub fn get_color_as_icc_profile(&self, target: JxlColorProfileTarget) -> (r: Result<
        Vec<u8>,
        JxlError,
    >)
        ensures
            self.icc_profile_spec() matches Some(icc) ==> (r matches Ok(v) && v@ == icc),
            self.icc_profile_spec() is None ==> r == Err::<Vec<u8>, JxlError>(
                JxlError::NotEnoughInput,
            ),
    {
        let src = match &self.icc_profile {
            Some(icc) => icc,
            None => {
                return Err(JxlError::NotEnoughInput);
            },
        };
        let mut out: Vec<u8> = Vec::new();
        let mut i: usize = 0;
        while i < src.len()
            invariant
                i <= src@.len(),
                out@ == src@.subrange(0, i as int),
            decreases src@.len() - i,
        {
            out.push(src[i]);
            i = i + 1;
            assert(out@ =~= src@.subrange(0, i as int));
        }
        assert(out@ =~= src@);
        Ok(out)
    }

    /// Records the color profile the caller prefers for decoded pixels.
    pub fn set_preferred_color_profile(&mut self, color_encoding: &JxlColorEncoding) -> (r: Result<
        (),
        JxlError,
    >)
        requires
            old(self).wf(),
        ensures
            final(self).wf(),
            r == Ok::<(), JxlError>(()),
            final(self).preferred_profile_spec() == Some(*color_encoding),
            final(self).phase_spec() == old(self).phase_spec(),
    {
        self.preferred_profile = Some(*color_encoding);
        Ok(())
    }

    /// Chooses the output color profile: either a structured encoding or an
    /// ICC profile, never both.  Handing in both is rejected as ambiguous;
    /// handing in neither is backend-defined and not accepted here.
    pub fn set_output_color_profile(
        &mut self,
        color_encoding: Option<&JxlColorEncoding>,
        icc_data: Option<&[u8]>,
    ) -> (r: Result<(), JxlError>)
        requires
            old(self).wf(),
        ensures
            final(self).wf(),
            (color_encoding is Some && icc_data is Some) ==> ({
                &&& r == Err::<(), JxlError>(JxlError::InvalidInput)
                &&& *final(self) == *old(self)
            }),
            (color_encoding is None && icc_data is None) ==> ({
                &&& r == Err::<(), JxlError>(JxlError::ColorProfileError)
                &&& *final(self) == *old(self)
            }),
            color_encoding matches Some(ce) ==> (icc_data is None ==> ({
                &&& r == Ok::<(), JxlError>(())
                &&& final(self).output_profile_spec() == Some(*ce)
                &&& final(self).output_icc_len_spec() is None
            })),
            icc_data matches Some(icc) ==> (color_encoding is None ==> ({
                &&& r == Ok::<(), JxlError>(())
                &&& final(self).output_profile_spec() is None
                &&& final(self).output_icc_len_spec() == Some(icc@.len() as usize)
            })),
            final(self).phase_spec() == old(self).phase_spec(),
    {
        match (color_encoding, icc_data) {
            (Some(_), Some(_)) => Err(JxlError::InvalidInput),
            (None, None) => Err(JxlError::ColorProfileError),
            (Some(ce), None) => {
                self.output_profile = Some(*ce);
                self.output_icc_len = None;
                Ok(())
            },
            (None, Some(icc)) => {
                self.output_profile = None;
                self.output_icc_len = Some(icc.len());
                Ok(())
            },
        }
    }

    /// Exact byte count a full-image output buffer must have for `format`.
    ///
    /// `MetadataNotReady` before basic info; the buffer error when the size
    /// does not fit the address space.
    pub fn image_out_buffer_size(&self, format: &JxlPixelFormat) -> (r: Result<usize, JxlError>)
        ensures
            self.basic_info_spec() is None ==> r == Err::<usize, JxlError>(
                JxlError::MetadataNotReady,
            ),
            self.basic_info_spec() matches Some(info) ==> ({
                &&& spec_required_size(info, *format, OutputTarget::FullImage) <= usize::MAX ==> (r
                    matches Ok(n) && n == spec_required_size(
                    info,
                    *format,
                    OutputTarget::FullImage,
                ))
                &&& spec_required_size(info, *format, OutputTarget::FullImage) > usize::MAX ==> r
                    == Err::<usize, JxlError>(JxlError::OutputBufferError)
            }),
    {
        let info = match &self.basic_info {
            Some(info) => info,
            None => {
                return Err(JxlError::MetadataNotReady);
            },
        };
        required_size(info, format, OutputTarget::FullImage)
    }

    /// Exact byte count a preview output buffer must have for `format`.
    pub fn preview_out_buffer_size(&self, format: &JxlPixelFormat) -> (r: Result<usize, JxlError>)
        ensures
            self.basic_info_spec() is None ==> r == Err::<usize, JxlError>(
                JxlError::MetadataNotReady,
            ),
            self.basic_info_spec() matches Some(info) ==> ({
                &&& spec_required_size(info, *format, OutputTarget::Preview) <= usize::MAX ==> (r
                    matches Ok(n) && n == spec_required_size(info, *format, OutputTarget::Preview))
                &&& spec_required_size(info, *format, OutputTarget::Preview) > usize::MAX ==> r
                    == Err::<usize, JxlError>(JxlError::PreviewBufferError)
            }),
    {
        let info = match &self.basic_info {
            Some(info) => info,
            None => {
                return Err(JxlError::MetadataNotReady);
            },
        };
        match required_size(info, format, OutputTarget::Preview) {
            Ok(n) => Ok(n),
            Err(_) => Err(JxlError::PreviewBufferError),
        }
    }

    /// Exact byte count an extra-channel output buffer must have for
    /// `format` (one channel per pixel).
    pub fn extra_channel_buffer_size(&self, format: &JxlPixelFormat, index: u32) -> (r: Result<
        usize,
        JxlError,
    >)
        ensures
            self.basic_info_spec() is None ==> r == Err::<usize, JxlError>(
                JxlError::MetadataNotReady,
            ),
            self.basic_info_spec() matches Some(info) ==> ({
                &&& index >= self.extra_channels_spec().len() ==> r == Err::<usize, JxlError>(
                    JxlError::ExtraChannelBufferError,
                )
                &&& (index < self.extra_channels_spec().len() && spec_required_size(
                    info,
                    *format,
                    OutputTarget::ExtraChannel,
                ) <= usize::MAX) ==> (r matches Ok(n) && n == spec_required_size(
                    info,
                    *format,
                    OutputTarget::ExtraChannel,
                ))
                &&& (index < self.extra_channels_spec().len() && spec_required_size(
                    info,
                    *format,
                    OutputTarget::ExtraChannel,
                ) > usize::MAX) ==> r == Err::<usize, JxlError>(JxlError::ExtraChannelBufferError)
            }),
    {
        let info = match &self.basic_info {
            Some(info) => info,
            None => {
                return Err(JxlError::MetadataNotReady);
            },
        };
        if (index as usize) >= self.extra_channels.len() {
            return Err(JxlError::ExtraChannelBufferError);
        }
        match required_size(info, format, OutputTarget::ExtraChannel) {
            Ok(n) => Ok(n),
            Err(_) => Err(JxlError::ExtraChannelBufferError),
        }
    }

    /// Submits the caller's full-image output buffer.
    ///
    /// An undersized buffer is rejected with `UndersizedBuffer` and the
    /// stream state is unchanged — the machine still awaits the buffer.
    /// On success the buffer's write region belongs to the backend for the
    /// current frame and pixel streaming proceeds.
    pub fn set_image_out_buffer(&mut self, format: &JxlPixelFormat, buffer: &[u8]) -> (r: Result<
        (),
        JxlError,
    >)
        requires
            old(self).wf(),
        ensures
            final(self).wf(),
            old(self).basic_info_spec() is None ==> ({
                &&& r == Err::<(), JxlError>(JxlError::MetadataNotReady)
                &&& *final(self) == *old(self)
            }),
            (old(self).basic_info_spec() is Some && old(self).callback_mode_spec()
                != CallbackMode::Unset) ==> ({
                &&& r == Err::<(), JxlError>(JxlError::ApiSequenceError)
                &&& *final(self) == *old(self)
            }),
            (old(self).basic_info_spec() is Some && old(self).callback_mode_spec()
                == CallbackMode::Unset && old(self).phase_spec() != DecodePhase::AwaitingOutputBuffer
                && old(self).phase_spec() != DecodePhase::StreamingPixels) ==> ({
                &&& r == Err::<(), JxlError>(JxlError::ApiSequenceError)
                &&& *final(self) == *old(self)
            }),
            old(self).basic_info_spec() matches Some(info) ==> ((old(self).callback_mode_spec()
                == CallbackMode::Unset && (old(self).phase_spec()
                == DecodePhase::AwaitingOutputBuffer || old(self).phase_spec()
                == DecodePhase::StreamingPixels)) ==> ({
                let need = spec_required_size(info, *format, OutputTarget::FullImage);
                &&& need > usize::MAX ==> ({
                    &&& r == Err::<(), JxlError>(JxlError::OutputBufferError)
                    &&& *final(self) == *old(self)
                })
                &&& (need <= usize::MAX && buffer@.len() < need) ==> ({
                    &&& r == Err::<(), JxlError>(JxlError::UndersizedBuffer)
                    &&& *final(self) == *old(self)
                })
                &&& (need <= usize::MAX && buffer@.len() >= need) ==> ({
                    &&& r == Ok::<(), JxlError>(())
                    &&& final(self).image_buffer_len_spec() == Some(buffer@.len() as usize)
                    &&& final(self).phase_spec() == DecodePhase::StreamingPixels
                })
            })),
    {
        let info = match &self.basic_info {
            Some(info) => info,
            None => {
                return Err(JxlError::MetadataNotReady);
            },
        };
        if !matches!(self.callback_mode, CallbackMode::Unset) {
            return Err(JxlError::ApiSequenceError);
        }
        if !(matches!(self.phase, DecodePhase::AwaitingOutputBuffer) || matches!(
            self.phase,
            DecodePhase::StreamingPixels,
        )) {
            return Err(JxlError::ApiSequenceError);
        }
        let need = match required_size(info, format, OutputTarget::FullImage) {
            Ok(n) => n,
            Err(e) => {
                return Err(e);
            },
        };
        if buffer.len() < need {
            return Err(JxlError::UndersizedBuffer);
        }
        self.image_buffer_len = Some(buffer.len());
        self.phase = DecodePhase::StreamingPixels;
        Ok(())
    }

    /// Submits the caller's preview output buffer; undersized buffers are
    /// rejected with the state unchanged.
    pub fn set_preview_out_buffer(&mut self, format: &JxlPixelFormat, buffer: &[u8]) -> (r: Result<
        (),
        JxlError,
    >)
        requires
            old(self).wf(),
        ensures
            final(self).wf(),
            old(self).basic_info_spec() is None ==> ({
                &&& r == Err::<(), JxlError>(JxlError::MetadataNotReady)
                &&& *final(self) == *old(self)
            }),
            (old(self).basic_info_spec() is Some && old(self).phase_spec()
                != DecodePhase::AwaitingFrame) ==> ({
                &&& r == Err::<(), JxlError>(JxlError::ApiSequenceError)
                &&& *final(self) == *old(self)
            }),
            old(self).basic_info_spec() matches Some(info) ==> ((old(self).phase_spec()
                == DecodePhase::AwaitingFrame) ==> ({
                let need = spec_required_size(info, *format, OutputTarget::Preview);
                &&& need > usize::MAX ==> ({
                    &&& r == Err::<(), JxlError>(JxlError::PreviewBufferError)
                    &&& *final(self) == *old(self)
                })
                &&& (need <= usize::MAX && buffer@.len() < need) ==> ({
                    &&& r == Err::<(), JxlError>(JxlError::UndersizedBuffer)
                    &&& *final(self) == *old(self)
                })
                &&& (need <= usize::MAX && buffer@.len() >= need) ==> ({
                    &&& r == Ok::<(), JxlError>(())
                    &&& final(self).preview_buffer_len_spec() == Some(buffer@.len() as usize)
                    &&& final(self).phase_spec() == old(self).phase_spec()
                })
            })),
    {
        let info = match &self.basic_info {
            Some(info) => info,
            None => {
                return Err(JxlError::MetadataNotReady);
            },
        };
        if !matches!(self.phase, DecodePhase::AwaitingFrame) {
            return Err(JxlError::ApiSequenceError);
        }
        let need = match required_size(info, format, OutputTarget::Preview) {
            Ok(n) => n,
            Err(_) => {
                return Err(JxlError::PreviewBufferError);
            },
        };
        if buffer.len() < need {
            return Err(JxlError::UndersizedBuffer);
        }
        self.preview_buffer_len = Some(buffer.len());
        Ok(())
    }

    /// Submits the caller's buffer for one extra channel; undersized
    /// buffers are rejected with the state unchanged.
    pub fn set_extra_channel_buffer(
        &mut self,
        format: &JxlPixelFormat,
        buffer: &[u8],
        index: u32,
    ) -> (r: Result<(), JxlError>)
        requires
            old(self).wf(),
        ensures
            final(self).wf(),
            old(self).basic_info_spec() is None ==> ({
                &&& r == Err::<(), JxlError>(JxlError::MetadataNotReady)
                &&& *final(self) == *old(self)
            }),
            (old(self).basic_info_spec() matches Some(info) && index
                < old(self).extra_channels_spec().len() && spec_required_size(
                info,
                *format,
                OutputTarget::ExtraChannel,
            ) <= usize::MAX && buffer@.len() >= spec_required_size(
                info,
                *format,
                OutputTarget::ExtraChannel,
            )) ==> ({
                &&& r == Ok::<(), JxlError>(())
                &&& final(self).extra_buffer_spec() == Some(
                    (index, buffer@.len() as usize),
                )
            }),
            (old(self).basic_info_spec() matches Some(info) && index
                < old(self).extra_channels_spec().len() && spec_required_size(
                info,
                *format,
                OutputTarget::ExtraChannel,
            ) <= usize::MAX && buffer@.len() < spec_required_size(
                info,
                *format,
                OutputTarget::ExtraChannel,
            )) ==> ({
                &&& r == Err::<(), JxlError>(JxlError::UndersizedBuffer)
                &&& *final(self) == *old(self)
            }),
            (old(self).basic_info_spec() is Some && index >= old(
                self,
            ).extra_channels_spec().len()) ==> ({
                &&& r == Err::<(), JxlError>(JxlError::ExtraChannelBufferError)
                &&& *final(self) == *old(self)
            }),
    {
        let info = match &self.basic_info {
            Some(info) => info,
            None => {
                return Err(JxlError::MetadataNotReady);
            },
        };
        if (index as usize) >= self.extra_channels.len() {
            return Err(JxlError::ExtraChannelBufferError);
        }
        let need = match required_size(info, format, OutputTarget::ExtraChannel) {
            Ok(n) => n,
            Err(_) => {
                return Err(JxlError::ExtraChannelBufferError);
            },
        };
        if buffer.len() < need {
            return Err(JxlError::UndersizedBuffer);
        }
        self.extra_buffer = Some((index, buffer.len()));
        Ok(())
    }

    /// Registers the single-threaded pixel callback.
    ///
    /// The two delivery modes are mutually exclusive per stream, and
    /// exclusive with a plain output buffer: a second registration is a
    /// caller-sequence error.
    pub fn set_image_out_callback(&mut self, format: &JxlPixelFormat) -> (r: Result<(), JxlError>)
        requires
            old(self).wf(),
        ensures
            final(self).wf(),
            (old(self).callback_mode_spec() == CallbackMode::Unset && old(
                self,
            ).image_buffer_len_spec() is None) ==> ({
                &&& r == Ok::<(), JxlError>(())
                &&& final(self).callback_mode_spec() == CallbackMode::SingleThreaded
            }),
            !(old(self).callback_mode_spec() == CallbackMode::Unset && old(
                self,
            ).image_buffer_len_spec() is None) ==> ({
                &&& r == Err::<(), JxlError>(JxlError::ApiSequenceError)
                &&& *final(self) == *old(self)
            }),
            final(self).phase_spec() == old(self).phase_spec(),
    {
        if !matches!(self.callback_mode, CallbackMode::Unset) || self.image_buffer_len.is_some() {
            return Err(JxlError::ApiSequenceError);
        }
        self.callback_mode = CallbackMode::SingleThreaded;
        Ok(())
    }

    /// Registers the multi-threaded pixel callback mode; same exclusivity
    /// as the single-threaded one.  Per-frame contexts are managed by a
    /// [`crate::dispatcher::CallbackDispatcher`].
    pub fn set_multithreaded_image_out_callback(&mut self, format: &JxlPixelFormat) -> (r: Result<
        (),
        JxlError,
    >)
        requires
            old(self).wf(),
        ensures
            final(self).wf(),
            (old(self).callback_mode_spec() == CallbackMode::Unset && old(
                self,
            ).image_buffer_len_spec() is None) ==> ({
                &&& r == Ok::<(), JxlError>(())
                &&& final(self).callback_mode_spec() == CallbackMode::MultiThreaded
            }),
            !(old(self).callback_mode_spec() == CallbackMode::Unset && old(
                self,
            ).image_buffer_len_spec() is None) ==> ({
                &&& r == Err::<(), JxlError>(JxlError::ApiSequenceError)
                &&& *final(self) == *old(self)
            }),
            final(self).phase_spec() == old(self).phase_spec(),
    {
        if !matches!(self.callback_mode, CallbackMode::Unset) || self.image_buffer_len.is_some() {
            return Err(JxlError::ApiSequenceError);
        }
        self.callback_mode = CallbackMode::MultiThreaded;
        Ok(())
    }

    /// The per-frame header; valid only between a frame event and the next
    /// frame event or the end of the stream.
    pub fn get_frame_header(&self) -> (r: Result<JxlFrameHeader, JxlError>)
        ensures
            self.frame_header_spec() matches Some(h) ==> r == Ok::<JxlFrameHeader, JxlError>(h),
            self.frame_header_spec() is None ==> r == Err::<JxlFrameHeader, JxlError>(
                JxlError::FrameError,
            ),
    {
        match self.frame_header {
            Some(h) => Ok(h),
            None => Err(JxlError::FrameError),
        }
    }

    /// The current frame's name, copied into an owned buffer.
    ///
    /// `max_len` is the caller's buffer length for the NUL-terminated text;
    /// a name that would not fit is a caller error, never truncated.
    pub fn get_frame_name(&self, max_len: usize) -> (r: Result<Vec<u8>, JxlError>)
        ensures
            self.frame_name_spec() is None ==> r == Err::<Vec<u8>, JxlError>(JxlError::FrameError),
            self.frame_name_spec() matches Some(name) ==> ({
                &&& name.len() + 1 > max_len ==> r == Err::<Vec<u8>, JxlError>(
                    JxlError::InvalidInput,
                )
                &&& name.len() + 1 <= max_len ==> (r matches Ok(v) && v@ == name)
            }),
    {
        let src = match &self.frame_name {
            Some(name) => name,
            None => {
                return Err(JxlError::FrameError);
            },
        };
        if src.len() >= max_len {
            return Err(JxlError::InvalidInput);
        }
        let mut out: Vec<u8> = Vec::new();
        let mut i: usize = 0;
        while i < src.len()
            invariant
                i <= src@.len(),
                out@ == src@.subrange(0, i as int),
            decreases src@.len() - i,
        {
            out.push(src[i]);
            i = i + 1;
            assert(out@ =~= src@.subrange(0, i as int));
        }
        assert(out@ =~= src@);
        Ok(out)
    }

    /// Supplies the buffer for JPEG reconstruction output.
    pub fn set_jpeg_buffer(&mut self, buffer: &[u8]) -> (r: Result<(), JxlError>)
        requires
            old(self).wf(),
        ensures
            final(self).wf(),
            old(self).jpeg_buffer_len_spec() is Some ==> ({
                &&& r == Err::<(), JxlError>(JxlError::JpegReconstructionError)
                &&& *final(self) == *old(self)
            }),
            old(self).jpeg_buffer_len_spec() is None ==> ({
                &&& r == Ok::<(), JxlError>(())
                &&& final(self).jpeg_buffer_len_spec() == Some(buffer@.len() as usize)
            }),
            final(self).phase_spec() == old(self).phase_spec(),
    {
        if self.jpeg_buffer_len.is_some() {
            return Err(JxlError::JpegReconstructionError);
        }
        self.jpeg_buffer_len = Some(buffer.len());
        Ok(())
    }

    /// Releases the JPEG reconstruction buffer, returning how many of its
    /// bytes the stream has not filled.
    pub fn release_jpeg_buffer(&mut self) -> (r: usize)
        requires
            old(self).wf(),
        ensures
            final(self).wf(),
            old(self).jpeg_buffer_len_spec() matches Some(n) ==> r == n,
            old(self).jpeg_buffer_len_spec() is None ==> r == 0,
            final(self).jpeg_buffer_len_spec() is None,
            final(self).phase_spec() == old(self).phase_spec(),
    {
        let r = match self.jpeg_buffer_len {
            Some(n) => n,
            None => 0,
        };
        self.jpeg_buffer_len = None;
        r
    }

    /// Supplies the contents buffer for the current box.
    pub fn set_box_buffer(&mut self, buffer: &[u8]) -> (r: Result<(), JxlError>)
        requires
            old(self).wf(),
        ensures
            final(self).wf(),
            !old(self).in_box_spec() ==> ({
                &&& r == Err::<(), JxlError>(JxlError::BoxBufferError)
                &&& *final(self) == *old(self)
            }),
            (old(self).in_box_spec() && old(self).box_buffer_len_spec() is Some) ==> ({
                &&& r == Err::<(), JxlError>(JxlError::BoxBufferError)
                &&& *final(self) == *old(self)
            }),
            (old(self).in_box_spec() && old(self).box_buffer_len_spec() is None) ==> ({
                &&& r == Ok::<(), JxlError>(())
                &&& final(self).box_buffer_len_spec() == Some(buffer@.len() as usize)
            }),
            final(self).phase_spec() == old(self).phase_spec(),
    {
        if !self.in_box {
            return Err(JxlError::BoxBufferError);
        }
        if self.box_buffer_len.is_some() {
            return Err(JxlError::BoxBufferError);
        }
        self.box_buffer_len = Some(buffer.len());
        Ok(())
    }

    /// Releases the box contents buffer, returning how many of its bytes
    /// remain unfilled.  If a box is still open, a new buffer is demanded
    /// before the next step.
    pub fn release_box_buffer(&mut self) -> (r: usize)
        requires
            old(self).wf(),
        ensures
            final(self).wf(),
            old(self).box_buffer_len_spec() matches Some(n) ==> r == n - (if old(
                self,
            ).box_written_spec() <= n {
                old(self).box_written_spec()
            } else {
                n as int
            }),
            old(self).box_buffer_len_spec() is None ==> r == 0,
            final(self).box_buffer_len_spec() is None,
            final(self).box_written_spec() == 0,
            final(self).phase_spec() == old(self).phase_spec(),
    {
        let r = match self.box_buffer_len {
            Some(n) => {
                if self.box_written <= n {
                    n - self.box_written
                } else {
                    0
                }
            },
            None => 0,
        };
        self.box_buffer_len = None;
        self.box_written = 0;
        if self.in_box {
            self.pending = PendingAction::AwaitBoxBuffer;
        }
        r
    }

    /// Switches decompression of compressed boxes on or off.
    ///
    /// The mode is configuration that must be set between boxes; changing
    /// it while a box is open is rejected.
    pub fn set_decompress_boxes(&mut self, decompress: bool) -> (r: Result<(), JxlError>)
        requires
            old(self).wf(),
        ensures
            final(self).wf(),
            old(self).in_box_spec() ==> ({
                &&& r == Err::<(), JxlError>(JxlError::ApiSequenceError)
                &&& *final(self) == *old(self)
            }),
            !old(self).in_box_spec() ==> ({
                &&& r == Ok::<(), JxlError>(())
                &&& final(self).decompress_boxes_spec() == decompress
            }),
            final(self).phase_spec() == old(self).phase_spec(),
    {
        if self.in_box {
            return Err(JxlError::ApiSequenceError);
        }
        self.decompress_boxes = decompress;
        Ok(())
    }

    /// Four-byte type tag of the current box.
    pub fn get_box_type(&self) -> (r: Result<(u8, u8, u8, u8), JxlError>)
        ensures
            self.current_box_spec() matches Some(rec) ==> r == Ok::<(u8, u8, u8, u8), JxlError>(
                (rec.tag0, rec.tag1, rec.tag2, rec.tag3),
            ),
            self.current_box_spec() is None ==> r == Err::<(u8, u8, u8, u8), JxlError>(
                JxlError::BoxError,
            ),
    {
        match self.current_box {
            Some(rec) => Ok((rec.tag0, rec.tag1, rec.tag2, rec.tag3)),
            None => Err(JxlError::BoxError),
        }
    }

    /// Stored size of the current box, header included.
    pub fn get_box_size_raw(&self) -> (r: Result<u64, JxlError>)
        ensures
            self.current_box_spec() matches Some(rec) ==> r == Ok::<u64, JxlError>(rec.raw_size),
            self.current_box_spec() is None ==> r == Err::<u64, JxlError>(JxlError::BoxError),
    {
        match self.current_box {
            Some(rec) => Ok(rec.raw_size),
            None => Err(JxlError::BoxError),
        }
    }

    /// Contents size the current box will deliver.
    pub fn get_box_size_contents(&self) -> (r: Result<u64, JxlError>)
        ensures
            self.current_box_spec() matches Some(rec) ==> r == Ok::<u64, JxlError>(
                rec.contents_size,
            ),
            self.current_box_spec() is None ==> r == Err::<u64, JxlError>(JxlError::BoxError),
    {
        match self.current_box {
            Some(rec) => Ok(rec.contents_size),
            None => Err(JxlError::BoxError),
        }
    }

    /// Downsampling ratio of the most recent progressive pass.
    pub fn get_intended_downsampling_ratio(&self) -> (r: usize)
        ensures
            r == self.downsampling_spec(),
    {
        self.downsampling
    }

    /// Asks for the partial image decoded so far; meaningful only while
    /// pixels are streaming into a submitted buffer.
    pub fn flush_image(&self) -> (r: Result<(), JxlError>)
        ensures
            (self.phase_spec() == DecodePhase::StreamingPixels && self.image_buffer_len_spec()
                is Some) ==> r == Ok::<(), JxlError>(()),
            !(self.phase_spec() == DecodePhase::StreamingPixels && self.image_buffer_len_spec()
                is Some) ==> r == Err::<(), JxlError>(JxlError::OutputBufferError),
    {
        if matches!(self.phase, DecodePhase::StreamingPixels) && self.image_buffer_len.is_some() {
            Ok(())
        } else {
            Err(JxlError::OutputBufferError)
        }
    }

    /// Sets the bit depth of the output buffer or callback; valid only
    /// once one of them is registered.
    pub fn set_image_out_bit_depth(&mut self, bit_depth: &JxlBitDepth) -> (r: Result<(), JxlError>)
        requires
            old(self).wf(),
        ensures
            final(self).wf(),
            (old(self).image_buffer_len_spec() is Some || old(self).callback_mode_spec()
                != CallbackMode::Unset) ==> ({
                &&& r == Ok::<(), JxlError>(())
                &&& final(self).image_bit_depth_spec() == Some(*bit_depth)
            }),
            !(old(self).image_buffer_len_spec() is Some || old(self).callback_mode_spec()
                != CallbackMode::Unset) ==> ({
                &&& r == Err::<(), JxlError>(JxlError::PixelFormatError)
                &&& *final(self) == *old(self)
            }),
            final(self).phase_spec() == old(self).phase_spec(),
    {
        if self.image_buffer_len.is_none() && matches!(self.callback_mode, CallbackMode::Unset) {
            return Err(JxlError::PixelFormatError);
        }
        self.image_bit_depth = Some(*bit_depth);
        Ok(())
    }
}

} // verus!
