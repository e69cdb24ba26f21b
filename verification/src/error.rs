//! Typed, message-bearing failures of the capture pipeline.
//!
//! Every failure a capture can hit is one of these kinds; each carries the
//! data an operator needs to act on it (the rejected modifier, the
//! unrecognized format tag, the out-of-range index).

use vstd::prelude::*;

verus! {

/// The pixel-encoding tag that could not be decoded: either an explicit
/// format code from the richer framebuffer query, or the bit-depth pair
/// reported by the legacy query.
#[derive(Clone, Copy, Debug, PartialEq, Eq, Structural)]
pub enum EncodingTag {
    Fourcc { code: u32 },
    LegacyDepth { bpp: u32, depth: u32 },
}

/// The query step that left a capture without a framebuffer description.
#[derive(Clone, Copy, Debug, PartialEq, Eq, Structural)]
pub enum QueryFailure {
    /// The display pipeline itself could not be read.
    CrtcUnavailable,
    /// The richer framebuffer query succeeded but reported no backing buffer.
    NoBufferHandle,
    /// The legacy framebuffer query reported no backing buffer; this is the
    /// shape a missing capability takes, so the message carries remediation.
    NoLegacyBufferHandle,
    /// Both query tiers failed outright.
    BothTiersFailed,
}

/// Every error a capture attempt or a backend operation can return.
#[derive(Clone, Copy, Debug, PartialEq, Eq, Structural)]
pub enum CaptureError {
    /// No graphics device node could be opened with usable outputs.
    DeviceOpenFailure,
    /// The device has no active output, or the requested index is out of
    /// range: `requested` is the index asked for, `available` the count.
    NoUsableOutput { requested: u32, available: u32 },
    /// Neither framebuffer query tier produced a usable description.
    FramebufferQueryFailure { stage: QueryFailure },
    /// The framebuffer reports a tiled or compressed memory layout.
    UnsupportedLayout { modifier: u64 },
    /// The pixel encoding is not one the decoder understands.
    UnsupportedEncoding { tag: EncodingTag },
    /// The backing buffer could not be exported as a shareable handle.
    BufferExportFailure,
    /// The exported handle could not be mapped, or the mapping was shorter
    /// than the framebuffer geometry demands.
    MemoryMapFailure,
    /// Byte counts are inconsistent with the declared image dimensions.
    ImageAssemblyFailure,
}

/// The exact description text of each error kind.  The operator-facing
/// guidance lives here: the device-open and missing-capability texts name
/// the device nodes and the capability to grant.
pub open spec fn spec_message(e: CaptureError) -> Seq<char> {
    match e {
        CaptureError::DeviceOpenFailure => "no graphics device node with active outputs could be opened; ensure /dev/dri/card* exists and the process has CAP_SYS_ADMIN (try: setcap cap_sys_admin+ep <binary>)"@,
        CaptureError::NoUsableOutput { .. } => "requested output index is out of range for this device"@,
        CaptureError::FramebufferQueryFailure { stage } => match stage {
            QueryFailure::CrtcUnavailable => "the display pipeline could not be queried"@,
            QueryFailure::NoBufferHandle => "the framebuffer query reported no backing buffer handle"@,
            QueryFailure::NoLegacyBufferHandle => "the legacy framebuffer query reported no backing buffer; CAP_SYS_ADMIN is required for framebuffer queries (try: setcap cap_sys_admin+ep <binary>)"@,
            QueryFailure::BothTiersFailed => "both framebuffer query tiers failed"@,
        },
        CaptureError::UnsupportedLayout { .. } => "the framebuffer reports a non-linear layout modifier; tiled buffers cannot be read from a flat mapping"@,
        CaptureError::UnsupportedEncoding { .. } => "the framebuffer pixel encoding is not supported by the decoder"@,
        CaptureError::BufferExportFailure => "the backing buffer could not be exported as a shareable handle"@,
        CaptureError::MemoryMapFailure => "the exported buffer could not be mapped into process memory"@,
        CaptureError::ImageAssemblyFailure => "decoded byte count is inconsistent with the declared image dimensions"@,
    }
}

impl CaptureError {
    /// The human-readable description of this error, exactly the text
    /// `spec_message` states; the structured fields of the variant carry
    /// the exact numbers for callers that render richer text.
    pub fn message(&self) -> (r: String)
        ensures
            r@ == spec_message(*self),
            r@.len() > 0,
    {
        let text: &str = match self {
            CaptureError::DeviceOpenFailure => {
                "no graphics device node with active outputs could be opened; ensure /dev/dri/card* exists and the process has CAP_SYS_ADMIN (try: setcap cap_sys_admin+ep <binary>)"
            },
            CaptureError::NoUsableOutput { .. } => {
                "requested output index is out of range for this device"
            },
            CaptureError::FramebufferQueryFailure { stage } => {
                match stage {
                    QueryFailure::CrtcUnavailable => {
                        "the display pipeline could not be queried"
                    },
                    QueryFailure::NoBufferHandle => {
                        "the framebuffer query reported no backing buffer handle"
                    },
                    QueryFailure::NoLegacyBufferHandle => {
                        "the legacy framebuffer query reported no backing buffer; CAP_SYS_ADMIN is required for framebuffer queries (try: setcap cap_sys_admin+ep <binary>)"
                    },
                    QueryFailure::BothTiersFailed => {
                        "both framebuffer query tiers failed"
                    },
                }
            },
            CaptureError::UnsupportedLayout { .. } => {
                "the framebuffer reports a non-linear layout modifier; tiled buffers cannot be read from a flat mapping"
            },
            CaptureError::UnsupportedEncoding { .. } => {
                "the framebuffer pixel encoding is not supported by the decoder"
            },
            CaptureError::BufferExportFailure => {
                "the backing buffer could not be exported as a shareable handle"
            },
            CaptureError::MemoryMapFailure => {
                "the exported buffer could not be mapped into process memory"
            },
            CaptureError::ImageAssemblyFailure => {
                "decoded byte count is inconsistent with the declared image dimensions"
            },
        };
        proof {
            reveal_strlit("no graphics device node with active outputs could be opened; ensure /dev/dri/card* exists and the process has CAP_SYS_ADMIN (try: setcap cap_sys_admin+ep <binary>)");
            reveal_strlit("requested output index is out of range for this device");
            reveal_strlit("the display pipeline could not be queried");
            reveal_strlit("the framebuffer query reported no backing buffer handle");
            reveal_strlit("the legacy framebuffer query reported no backing buffer; CAP_SYS_ADMIN is required for framebuffer queries (try: setcap cap_sys_admin+ep <binary>)");
            reveal_strlit("both framebuffer query tiers failed");
            reveal_strlit("the framebuffer reports a non-linear layout modifier; tiled buffers cannot be read from a flat mapping");
            reveal_strlit("the framebuffer pixel encoding is not supported by the decoder");
            reveal_strlit("the backing buffer could not be exported as a shareable handle");
            reveal_strlit("the exported buffer could not be mapped into process memory");
            reveal_strlit("decoded byte count is inconsistent with the declared image dimensions");
        }
        text.to_owned()
    }
}

} // verus!
