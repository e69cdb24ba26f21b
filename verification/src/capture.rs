//! One capture attempt, driven as a step-by-step session.
//!
//! Every device interaction (query the pipeline, query the framebuffer,
//! export and map the backing buffer, close the handle) is performed by the
//! embedding program; the session decides, after each reported event, what
//! must happen next.  The session owns the decisions the capture contract
//! cares about: the two-tier framebuffer query with first-success-wins
//! fallback, the rejection of non-linear layouts before any mapping, the
//! legacy depth-pair mapping, the decode into a canonical image, and the
//! rule that an obtained backing-buffer handle is closed exactly once on
//! every path.

use vstd::prelude::*;

use crate::error::{CaptureError, EncodingTag, QueryFailure};
use crate::pixel_format::{
    convert_to_rgba, decode_bytes, format_supported, lemma_decode_len, spec_bpp, PixelFormat,
};

verus! {

/// The layout modifier naming plain linear memory; every other modifier is
/// a tiled or compressed layout a flat mapping cannot decode.
pub const LINEAR_MODIFIER: u64 = 0;

/// What the richer framebuffer query reported: the first plane's backing
/// buffer, its pitch, the explicit pixel encoding, and the layout modifier
/// when the driver supplies one.
#[derive(Clone, Copy, Debug, PartialEq, Eq, Structural)]
pub struct Fb2Info {
    pub handle: Option<u32>,
    pub pitch: u32,
    pub format: PixelFormat,
    pub modifier: Option<u64>,
}

/// What the legacy framebuffer query reported: a single backing buffer,
/// its pitch, and bit depths instead of an explicit encoding tag.
#[derive(Clone, Copy, Debug, PartialEq, Eq, Structural)]
pub struct Fb1Info {
    pub handle: Option<u32>,
    pub pitch: u32,
    pub bpp: u32,
    pub depth: u32,
}

/// The result of the device interaction the session last asked for.
pub enum CaptureEvent {
    CrtcQueried { fb: Option<u32> },
    CrtcQueryFailed,
    Fb2Queried(Fb2Info),
    Fb2QueryFailed,
    Fb1Queried(Fb1Info),
    Fb1QueryFailed,
    BufferMapped(Vec<u8>),
    BufferExportFailed,
    MemoryMapFailed,
    BufferClosed,
}

/// The device interaction the session asks the embedding program to
/// perform next.  `Finish` means the outcome is ready.
#[derive(Clone, Copy, Debug, PartialEq, Eq, Structural)]
pub enum CaptureAction {
    QueryCrtc { crtc: u32 },
    QueryFb2 { fb: u32 },
    QueryFb1 { fb: u32 },
    MapBuffer { handle: u32, size: usize },
    CloseBuffer { handle: u32 },
    Finish,
}

/// A decoded capture: `width * height * 4` RGBA bytes, row-major, no
/// padding — the only artifact that crosses the pipeline's boundary.
pub struct CanonicalImage {
    pub width: u32,
    pub height: u32,
    pub data: Vec<u8>,
}

/// The product of two 32-bit values fits in 64 bits.
proof fn lemma_u32_mul_bound(a: u32, b: u32)
    by (nonlinear_arith)
    ensures
        0 <= (a as int) * (b as int),
        ((a as int) * (b as int)) < 0x1_0000_0000_0000_0000int,
{
}

/// The byte count of a canonical image is exactly its dimensions times
/// four.
pub open spec fn image_wf(img: CanonicalImage) -> bool {
    img.data@.len() == img.width * img.height * 4
}

impl CanonicalImage {
    /// Assemble an image from decoded bytes, rejecting a byte count
    /// inconsistent with the declared dimensions.
    pub fn new(width: u32, height: u32, data: Vec<u8>) -> (r: Result<CanonicalImage, CaptureError>)
        ensures
            r is Ok <==> data@.len() == width * height * 4,
            r matches Ok(img) ==> img.width == width && img.height == height && img.data@ == data@
                && image_wf(img),
            r is Err ==> r == Result::<CanonicalImage, CaptureError>::Err(
                CaptureError::ImageAssemblyFailure,
            ),
    {
        proof {
            lemma_u32_mul_bound(width, height);
        }
        let len: usize = data.len();
        let px: u64 = (width as u64) * (height as u64);
        if px <= u64::MAX / 4 && (len as u64) == px * 4 {
            Ok(CanonicalImage { width, height, data })
        } else {
            proof {
                assert(usize::MAX as int <= u64::MAX as int);
                if px > u64::MAX / 4 {
                    assert(width as int * height as int * 4 > usize::MAX as int);
                }
            }
            Err(CaptureError::ImageAssemblyFailure)
        }
    }
}

/// The geometry plan of a mapping: how many bytes the embedding program
/// must map, or why the reported framebuffer cannot be decoded.
pub open spec fn spec_plan(width: u32, height: u32, pitch: u32, format: PixelFormat) -> Result<
    int,
    CaptureError,
> {
    if !format_supported(format) {
        Err(CaptureError::UnsupportedEncoding { tag: EncodingTag::Fourcc { code: format->fourcc } })
    } else if pitch < width * spec_bpp(format) {
        Err(CaptureError::ImageAssemblyFailure)
    } else if height * pitch > usize::MAX {
        Err(CaptureError::ImageAssemblyFailure)
    } else {
        Ok(height as int * pitch as int)
    }
}

/// Check a reported framebuffer geometry against the decoder's needs.
fn validate_plan(width: u32, height: u32, pitch: u32, format: PixelFormat) -> (r: Result<
    usize,
    CaptureError,
>)
    ensures
        (r matches Ok(s) && spec_plan(width, height, pitch, format) == Result::<
            int,
            CaptureError,
        >::Ok(s as int)) || (r matches Err(e) && spec_plan(width, height, pitch, format)
            == Result::<int, CaptureError>::Err(e)),
{
    let fourcc: u32 = match format {
        PixelFormat::Other { fourcc } => {
            return Err(CaptureError::UnsupportedEncoding { tag: EncodingTag::Fourcc { code: fourcc } });
        },
        _ => 0,
    };
    let bpp = crate::pixel_format::bytes_per_pixel(format);
    proof {
        lemma_u32_mul_bound(width, bpp);
        lemma_u32_mul_bound(height, pitch);
    }
    let need: u64 = (width as u64) * (bpp as u64);
    if (pitch as u64) < need {
        return Err(CaptureError::ImageAssemblyFailure);
    }
    let size64: u64 = (height as u64) * (pitch as u64);
    if size64 > usize::MAX as u64 {
        return Err(CaptureError::ImageAssemblyFailure);
    }
    Ok(size64 as usize)
}

/// Map the legacy query's bit-depth pair to an explicit encoding, exactly
/// for the three known combinations.
pub open spec fn spec_legacy_format(bpp: u32, depth: u32) -> Option<PixelFormat> {
    if bpp == 32 && depth == 24 {
        Some(PixelFormat::Xrgb8888)
    } else if bpp == 32 && depth == 32 {
        Some(PixelFormat::Argb8888)
    } else if bpp == 16 && depth == 16 {
        Some(PixelFormat::Rgb565)
    } else {
        None
    }
}

/// Decide the encoding the legacy query's depth pair stands for.
pub fn legacy_format(bpp: u32, depth: u32) -> (r: Option<PixelFormat>)
    ensures
        r == spec_legacy_format(bpp, depth),
{
    if bpp == 32 && depth == 24 {
        Some(PixelFormat::Xrgb8888)
    } else if bpp == 32 && depth == 32 {
        Some(PixelFormat::Argb8888)
    } else if bpp == 16 && depth == 16 {
        Some(PixelFormat::Rgb565)
    } else {
        None
    }
}

/// Where a capture attempt stands, between two device interactions.
pub enum CapturePhase {
    /// Waiting for the display pipeline to report its current framebuffer.
    AwaitCrtc,
    /// Waiting for the richer framebuffer query on `fb`.
    AwaitFb2 { fb: u32 },
    /// Waiting for the legacy framebuffer query on `fb`.
    AwaitFb1 { fb: u32 },
    /// Waiting for `size` bytes of the buffer behind `handle`.
    AwaitMap { handle: u32, pitch: u32, format: PixelFormat, size: usize },
    /// Waiting for `handle` to be closed; the outcome is already decided.
    AwaitClose { handle: u32, outcome: Result<CanonicalImage, CaptureError> },
    /// The capture attempt is over.
    Done { outcome: Result<CanonicalImage, CaptureError> },
}

/// The expected phase after a backing buffer `handle` was obtained with a
/// reported geometry: map it, or close it carrying the geometry's error.
pub open spec fn spec_resolved(
    width: u32,
    height: u32,
    handle: u32,
    pitch: u32,
    format: PixelFormat,
) -> CapturePhase {
    match spec_plan(width, height, pitch, format) {
        Ok(size) => CapturePhase::AwaitMap { handle, pitch, format, size: size as usize },
        Err(e) => CapturePhase::AwaitClose { handle, outcome: Err(e) },
    }
}

/// One capture attempt on one output.  The embedding program performs the
/// pending action, reports the event, and repeats until `Finish`.
pub struct CaptureSession {
    /// Mode width of the output being captured.
    pub width: u32,
    /// Mode height of the output being captured.
    pub height: u32,
    /// The display pipeline to re-query; the bound framebuffer may have
    /// changed since probing.
    pub crtc: u32,
    /// The framebuffer seen at probe time, used when the fresh pipeline
    /// query reports none.
    pub cached_fb: u32,
    /// Where the attempt stands.
    pub phase: CapturePhase,
    /// How many backing-buffer handles the session has been told about.
    pub handles_obtained: u32,
    /// How many of them the embedding program has reported closed.
    pub handles_closed: u32,
}

impl CaptureSession {
    /// The session currently holds a backing-buffer handle that still has
    /// to be closed.
    pub open spec fn holds_handle(self) -> bool {
        self.phase is AwaitMap || self.phase is AwaitClose
    }

    /// The attempt is over and `outcome` is available.
    pub open spec fn is_finished(self) -> bool {
        self.phase is Done
    }

    /// Session sanity: handle accounting balances, and a pending mapping's
    /// geometry fits the decoder.
    pub open spec fn wf(self) -> bool {
        &&& self.handles_obtained <= 1
        &&& self.handles_closed <= self.handles_obtained
        &&& ((self.phase is AwaitCrtc || self.phase is AwaitFb2 || self.phase is AwaitFb1)
            ==> self.handles_obtained == 0)
        &&& (self.holds_handle() ==> self.handles_obtained == self.handles_closed + 1)
        &&& (!self.holds_handle() ==> self.handles_obtained == self.handles_closed)
        &&& (self.phase matches CapturePhase::AwaitMap { handle, pitch, format, size }
            ==> format_supported(format) && pitch >= self.width * spec_bpp(format) && size
            == self.height * pitch)
    }

    /// The device interaction the session is waiting on.
    pub open spec fn spec_pending_action(self) -> CaptureAction {
        match self.phase {
            CapturePhase::AwaitCrtc => CaptureAction::QueryCrtc { crtc: self.crtc },
            CapturePhase::AwaitFb2 { fb } => CaptureAction::QueryFb2 { fb },
            CapturePhase::AwaitFb1 { fb } => CaptureAction::QueryFb1 { fb },
            CapturePhase::AwaitMap { handle, pitch, format, size } => CaptureAction::MapBuffer {
                handle,
                size,
            },
            CapturePhase::AwaitClose { handle, outcome } => CaptureAction::CloseBuffer { handle },
            CapturePhase::Done { outcome } => CaptureAction::Finish,
        }
    }

    /// Whether an event is the answer to the pending action.
    pub open spec fn event_matches(self, ev: CaptureEvent) -> bool {
        match self.phase {
            CapturePhase::AwaitCrtc => ev matches CaptureEvent::CrtcQueried { .. } || ev matches
                CaptureEvent::CrtcQueryFailed,
            CapturePhase::AwaitFb2 { .. } => ev matches CaptureEvent::Fb2Queried(_) || ev matches
                CaptureEvent::Fb2QueryFailed,
            CapturePhase::AwaitFb1 { .. } => ev matches CaptureEvent::Fb1Queried(_) || ev matches
                CaptureEvent::Fb1QueryFailed,
            CapturePhase::AwaitMap { .. } => ev matches CaptureEvent::BufferMapped(_) || ev matches
                CaptureEvent::BufferExportFailed || ev matches CaptureEvent::MemoryMapFailed,
            CapturePhase::AwaitClose { .. } => ev matches CaptureEvent::BufferClosed,
            CapturePhase::Done { .. } => false,
        }
    }

    /// Start a capture attempt on one probed output.
    pub fn begin(output: &crate::probe::ActiveOutput) -> (r: CaptureSession)
        ensures
            r.wf(),
            r.width == output.width,
            r.height == output.height,
            r.crtc == output.crtc_handle,
            r.cached_fb == output.fb_handle,
            r.phase is AwaitCrtc,
            r.handles_obtained == 0,
            r.handles_closed == 0,
    {
        CaptureSession {
            width: output.width,
            height: output.height,
            crtc: output.crtc_handle,
            cached_fb: output.fb_handle,
            phase: CapturePhase::AwaitCrtc,
            handles_obtained: 0,
            handles_closed: 0,
        }
    }

    /// The device interaction to perform next.
    pub fn pending_action(&self) -> (a: CaptureAction)
        ensures
            a == self.spec_pending_action(),
    {
        match &self.phase {
            CapturePhase::AwaitCrtc => CaptureAction::QueryCrtc { crtc: self.crtc },
            CapturePhase::AwaitFb2 { fb } => CaptureAction::QueryFb2 { fb: *fb },
            CapturePhase::AwaitFb1 { fb } => CaptureAction::QueryFb1 { fb: *fb },
            CapturePhase::AwaitMap { handle, pitch, format, size } => CaptureAction::MapBuffer {
                handle: *handle,
                size: *size,
            },
            CapturePhase::AwaitClose { handle, outcome } => CaptureAction::CloseBuffer {
                handle: *handle,
            },
            CapturePhase::Done { .. } => CaptureAction::Finish,
        }
    }

    /// Consume the event answering the pending action and decide the next
    /// one.  An event that does not answer the pending action leaves the
    /// session unchanged and re-issues the same action.
    pub fn step(self, ev: CaptureEvent) -> (r: (CaptureSession, CaptureAction))
        requires
            self.wf(),
        ensures
            ({
                let s2 = r.0;
                &&& s2.wf()
                &&& s2.width == self.width
                &&& s2.height == self.height
                &&& s2.crtc == self.crtc
                &&& s2.cached_fb == self.cached_fb
                &&& r.1 == s2.spec_pending_action()
                &&& (!self.event_matches(ev) ==> s2 == self)
                &&& (self.phase is AwaitCrtc ==> (ev matches CaptureEvent::CrtcQueried { fb } ==> (
                s2.phase matches CapturePhase::AwaitFb2 { fb: f } && f == (
                if fb is Some {
                    fb->0
                } else {
                    self.cached_fb
                }))))
                &&& (self.phase is AwaitCrtc ==> (ev is CrtcQueryFailed ==> (s2.phase matches
                CapturePhase::Done { outcome } && outcome == Result::<
                    CanonicalImage,
                    CaptureError,
                >::Err(
                    CaptureError::FramebufferQueryFailure { stage: QueryFailure::CrtcUnavailable },
                ))))
                &&& (self.phase is AwaitFb2 ==> (ev matches CaptureEvent::Fb2Queried(info) ==> ({
                    if info.modifier is Some && info.modifier->0 != LINEAR_MODIFIER {
                        let e = CaptureError::UnsupportedLayout { modifier: info.modifier->0 };
                        &&& (info.handle matches Some(h) ==> (s2.phase matches
                        CapturePhase::AwaitClose { handle, outcome } && handle == h && outcome
                            == Result::<CanonicalImage, CaptureError>::Err(e)))
                        &&& (info.handle is None ==> (s2.phase matches CapturePhase::Done { outcome }
                            && outcome == Result::<CanonicalImage, CaptureError>::Err(e)))
                    } else if info.handle is None {
                        s2.phase matches CapturePhase::Done { outcome } && outcome == Result::<
                            CanonicalImage,
                            CaptureError,
                        >::Err(
                            CaptureError::FramebufferQueryFailure {
                                stage: QueryFailure::NoBufferHandle,
                            },
                        )
                    } else {
                        s2.phase == spec_resolved(
                            self.width,
                            self.height,
                            info.handle->0,
                            info.pitch,
                            info.format,
                        )
                    }
                })))
                &&& (self.phase matches CapturePhase::AwaitFb2 { fb } ==> (ev is Fb2QueryFailed
                    ==> (s2.phase matches CapturePhase::AwaitFb1 { fb: f } && f == fb)))
                &&& (self.phase is AwaitFb1 ==> (ev matches CaptureEvent::Fb1Queried(info) ==> ({
                    if info.handle is None {
                        s2.phase matches CapturePhase::Done { outcome } && outcome == Result::<
                            CanonicalImage,
                            CaptureError,
                        >::Err(
                            CaptureError::FramebufferQueryFailure {
                                stage: QueryFailure::NoLegacyBufferHandle,
                            },
                        )
                    } else {
                        match spec_legacy_format(info.bpp, info.depth) {
                            Some(f) => s2.phase == spec_resolved(
                                self.width,
                                self.height,
                                info.handle->0,
                                info.pitch,
                                f,
                            ),
                            None => s2.phase matches CapturePhase::AwaitClose { handle, outcome }
                                && handle == info.handle->0 && outcome == Result::<
                                CanonicalImage,
                                CaptureError,
                            >::Err(
                                CaptureError::UnsupportedEncoding {
                                    tag: EncodingTag::LegacyDepth {
                                        bpp: info.bpp,
                                        depth: info.depth,
                                    },
                                },
                            ),
                        }
                    }
                })))
                &&& (self.phase is AwaitFb1 ==> (ev is Fb1QueryFailed ==> (s2.phase matches
                CapturePhase::Done { outcome } && outcome == Result::<
                    CanonicalImage,
                    CaptureError,
                >::Err(
                    CaptureError::FramebufferQueryFailure { stage: QueryFailure::BothTiersFailed },
                ))))
                &&& (self.phase matches CapturePhase::AwaitMap { handle, pitch, format, size } ==> (
                ev matches CaptureEvent::BufferMapped(bytes) ==> ({
                    if bytes@.len() == size {
                        s2.phase matches CapturePhase::AwaitClose { handle: h2, outcome } && h2
                            == handle && (outcome matches Ok(img) && img.width == self.width
                            && img.height == self.height && img.data@ == decode_bytes(
                            format,
                            bytes@,
                            self.width as int,
                            self.height as int,
                            pitch as int,
                        ))
                    } else {
                        s2.phase matches CapturePhase::AwaitClose { handle: h2, outcome } && h2
                            == handle && outcome == Result::<CanonicalImage, CaptureError>::Err(
                            CaptureError::MemoryMapFailure,
                        )
                    }
                })))
                &&& (self.phase matches CapturePhase::AwaitMap { handle, .. } ==> (ev is
                BufferExportFailed ==> (s2.phase matches CapturePhase::AwaitClose {
                    handle: h2,
                    outcome,
                } && h2 == handle && outcome == Result::<CanonicalImage, CaptureError>::Err(
                    CaptureError::BufferExportFailure,
                ))))
                &&& (self.phase matches CapturePhase::AwaitMap { handle, .. } ==> (ev is
                MemoryMapFailed ==> (s2.phase matches CapturePhase::AwaitClose {
                    handle: h2,
                    outcome,
                } && h2 == handle && outcome == Result::<CanonicalImage, CaptureError>::Err(
                    CaptureError::MemoryMapFailure,
                ))))
                &&& (self.phase matches CapturePhase::AwaitClose { handle, outcome } ==> (ev is
                BufferClosed ==> (s2.phase matches CapturePhase::Done { outcome: oc2 } && oc2
                    == outcome && s2.handles_closed == self.handles_closed + 1)))
                &&& (self.phase is Done ==> s2 == self)
                &&& s2.handles_closed == self.handles_closed + (
                if self.phase is AwaitClose && ev is BufferClosed {
                    1int
                } else {
                    0
                })
            }),
    {
        let CaptureSession { width, height, crtc, cached_fb, phase, handles_obtained, handles_closed } =
            self;
        let next = match (phase, ev) {
            (CapturePhase::AwaitCrtc, CaptureEvent::CrtcQueried { fb }) => {
                let f = match fb {
                    Some(h) => h,
                    None => cached_fb,
                };
                CaptureSession {
                    width,
                    height,
                    crtc,
                    cached_fb,
                    phase: CapturePhase::AwaitFb2 { fb: f },
                    handles_obtained,
                    handles_closed,
                }
            },
            (CapturePhase::AwaitCrtc, CaptureEvent::CrtcQueryFailed) => CaptureSession {
                width,
                height,
                crtc,
                cached_fb,
                phase: CapturePhase::Done {
                    outcome: Err(
                        CaptureError::FramebufferQueryFailure {
                            stage: QueryFailure::CrtcUnavailable,
                        },
                    ),
                },
                handles_obtained,
                handles_closed,
            },
            (CapturePhase::AwaitFb2 { fb: _ }, CaptureEvent::Fb2Queried(info)) => {
                let Fb2Info { handle, pitch, format, modifier } = info;
                let bad_modifier: Option<u64> = match modifier {
                    Some(m) => if m != LINEAR_MODIFIER {
                        Some(m)
                    } else {
                        None
                    },
                    None => None,
                };
                match bad_modifier {
                    Some(m) => {
                        let outcome = Err(CaptureError::UnsupportedLayout { modifier: m });
                        match handle {
                            Some(h) => CaptureSession {
                                width,
                                height,
                                crtc,
                                cached_fb,
                                phase: CapturePhase::AwaitClose { handle: h, outcome },
                                handles_obtained: handles_obtained + 1,
                                handles_closed,
                            },
                            None => CaptureSession {
                                width,
                                height,
                                crtc,
                                cached_fb,
                                phase: CapturePhase::Done { outcome },
                                handles_obtained,
                                handles_closed,
                            },
                        }
                    },
                    None => match handle {
                        None => CaptureSession {
                            width,
                            height,
                            crtc,
                            cached_fb,
                            phase: CapturePhase::Done {
                                outcome: Err(
                                    CaptureError::FramebufferQueryFailure {
                                        stage: QueryFailure::NoBufferHandle,
                                    },
                                ),
                            },
                            handles_obtained,
                            handles_closed,
                        },
                        Some(h) => CaptureSession {
                            width,
                            height,
                            crtc,
                            cached_fb,
                            phase: resolve_to_phase(width, height, h, pitch, format),
                            handles_obtained: handles_obtained + 1,
                            handles_closed,
                        },
                    },
                }
            },
            (CapturePhase::AwaitFb2 { fb }, CaptureEvent::Fb2QueryFailed) => CaptureSession {
                width,
                height,
                crtc,
                cached_fb,
                phase: CapturePhase::AwaitFb1 { fb },
                handles_obtained,
                handles_closed,
            },
            (CapturePhase::AwaitFb1 { fb: _ }, CaptureEvent::Fb1Queried(info)) => {
                let Fb1Info { handle, pitch, bpp, depth } = info;
                match handle {
                    None => CaptureSession {
                        width,
                        height,
                        crtc,
                        cached_fb,
                        phase: CapturePhase::Done {
                            outcome: Err(
                                CaptureError::FramebufferQueryFailure {
                                    stage: QueryFailure::NoLegacyBufferHandle,
                                },
                            ),
                        },
                        handles_obtained,
                        handles_closed,
                    },
                    Some(h) => {
                        let phase2 = match legacy_format(bpp, depth) {
                            Some(f) => resolve_to_phase(width, height, h, pitch, f),
                            None => CapturePhase::AwaitClose {
                                handle: h,
                                outcome: Err(
                                    CaptureError::UnsupportedEncoding {
                                        tag: EncodingTag::LegacyDepth { bpp, depth },
                                    },
                                ),
                            },
                        };
                        CaptureSession {
                            width,
                            height,
                            crtc,
                            cached_fb,
                            phase: phase2,
                            handles_obtained: handles_obtained + 1,
                            handles_closed,
                        }
                    },
                }
            },
            (CapturePhase::AwaitFb1 { fb: _ }, CaptureEvent::Fb1QueryFailed) => CaptureSession {
                width,
                height,
                crtc,
                cached_fb,
                phase: CapturePhase::Done {
                    outcome: Err(
                        CaptureError::FramebufferQueryFailure {
                            stage: QueryFailure::BothTiersFailed,
                        },
                    ),
                },
                handles_obtained,
                handles_closed,
            },
            (
                CapturePhase::AwaitMap { handle, pitch, format, size },
                CaptureEvent::BufferMapped(bytes),
            ) => {
                let outcome: Result<CanonicalImage, CaptureError> = if bytes.len() != size {
                    Err(CaptureError::MemoryMapFailure)
                } else {
                    proof {
                        lemma_decode_len(
                            format,
                            bytes@,
                            width as int,
                            height as int,
                            pitch as int,
                        );
                        assert((height as int) * (pitch as int) == (height as int - 1) * (
                        pitch as int) + (pitch as int)) by (nonlinear_arith);
                    }
                    match convert_to_rgba(bytes.as_slice(), width, height, pitch, format) {
                        Ok(data) => CanonicalImage::new(width, height, data),
                        Err(e) => Err(e),
                    }
                };
                CaptureSession {
                    width,
                    height,
                    crtc,
                    cached_fb,
                    phase: CapturePhase::AwaitClose { handle, outcome },
                    handles_obtained,
                    handles_closed,
                }
            },
            (CapturePhase::AwaitMap { handle, .. }, CaptureEvent::BufferExportFailed) =>
                CaptureSession {
                width,
                height,
                crtc,
                cached_fb,
                phase: CapturePhase::AwaitClose {
                    handle,
                    outcome: Err(CaptureError::BufferExportFailure),
                },
                handles_obtained,
                handles_closed,
            },
            (CapturePhase::AwaitMap { handle, .. }, CaptureEvent::MemoryMapFailed) =>
                CaptureSession {
                width,
                height,
                crtc,
                cached_fb,
                phase: CapturePhase::AwaitClose {
                    handle,
                    outcome: Err(CaptureError::MemoryMapFailure),
                },
                handles_obtained,
                handles_closed,
            },
            (CapturePhase::AwaitClose { handle: _, outcome }, CaptureEvent::BufferClosed) =>
                CaptureSession {
                width,
                height,
                crtc,
                cached_fb,
                phase: CapturePhase::Done { outcome },
                handles_obtained,
                handles_closed: handles_closed + 1,
            },
            (p, _) => CaptureSession {
                width,
                height,
                crtc,
                cached_fb,
                phase: p,
                handles_obtained,
                handles_closed,
            },
        };
        let act = next.pending_action();
        (next, act)
    }

    /// The finished outcome, handing the session back unchanged otherwise.
    pub fn into_outcome(self) -> (r: Result<Result<CanonicalImage, CaptureError>, CaptureSession>)
        ensures
            self.is_finished() ==> (r matches Ok(oc) && self.phase matches CapturePhase::Done {
                outcome,
            } && oc == outcome),
            !self.is_finished() ==> r == Result::<
                Result<CanonicalImage, CaptureError>,
                CaptureSession,
            >::Err(self),
    {
        match self.phase {
            CapturePhase::Done { outcome } => Ok(outcome),
            phase => Err(
                CaptureSession {
                    width: self.width,
                    height: self.height,
                    crtc: self.crtc,
                    cached_fb: self.cached_fb,
                    phase,
                    handles_obtained: self.handles_obtained,
                    handles_closed: self.handles_closed,
                },
            ),
        }
    }
}

/// Resolve an obtained handle's geometry into the next phase.
fn resolve_to_phase(width: u32, height: u32, handle: u32, pitch: u32, format: PixelFormat) -> (p:
    CapturePhase)
    ensures
        p == spec_resolved(width, height, handle, pitch, format),
{
    match validate_plan(width, height, pitch, format) {
        Ok(size) => CapturePhase::AwaitMap { handle, pitch, format, size },
        Err(e) => CapturePhase::AwaitClose { handle, outcome: Err(e) },
    }
}

/// A finished, well-formed session has closed every backing-buffer handle
/// it obtained, and it never obtained more than one: each handle is closed
/// exactly once, on success and on every failure path.
pub proof fn lemma_handle_accounting(s: CaptureSession)
    requires
        s.wf(),
        s.is_finished(),
    ensures
        s.handles_closed == s.handles_obtained,
        s.handles_obtained <= 1,
{
}

} // verus!
