//! The capture backends and the operations they expose.
//!
//! The mode-setting backend owns the output list probed at construction
//! and hands out capture sessions by output index; the desktop backend is
//! a thin tag whose work is done entirely by an outside capture library in
//! the embedding program.

use vstd::prelude::*;

use crate::capture::CaptureSession;
use crate::error::CaptureError;
use crate::probe::ActiveOutput;

verus! {

/// One monitor, as reported to callers.  This backend knows no virtual
/// desktop layout, so `x` and `y` are always 0, and the first output is
/// primary by convention only.
pub struct MonitorInfo {
    pub id: u32,
    pub name: String,
    pub x: i32,
    pub y: i32,
    pub width: u32,
    pub height: u32,
    pub is_primary: bool,
}

/// One window, as reported by a desktop backend; the mode-setting backend
/// has no window concept.
pub struct WindowInfo {
    pub id: u32,
    pub title: String,
    pub app_name: String,
    pub x: i32,
    pub y: i32,
    pub width: u32,
    pub height: u32,
    pub is_minimized: bool,
    pub is_maximized: bool,
}

/// What a backend can do beyond whole-monitor capture.
#[derive(Clone, Copy, Debug, PartialEq, Eq, Structural)]
pub struct BackendCapabilities {
    pub supports_windows: bool,
}

/// The desktop-capture backend tag; every operation of it is delegated to
/// an outside capture library by the embedding program.
pub struct XcapBackend;

/// The direct mode-setting backend: the outputs probed once when the
/// device was opened.  The device handle itself stays with the embedding
/// program, which performs the session's device interactions.
pub struct KmsBackend {
    outputs: Vec<ActiveOutput>,
}

/// The monitor entry an output becomes at index `i`.
pub open spec fn monitor_matches(m: MonitorInfo, o: ActiveOutput, i: int) -> bool {
    &&& m.id == i
    &&& m.name@ == o.connector_name@
    &&& m.x == 0
    &&& m.y == 0
    &&& m.width == o.width
    &&& m.height == o.height
    &&& (m.is_primary <==> i == 0)
}

impl View for KmsBackend {
    type V = Seq<ActiveOutput>;

    closed spec fn view(&self) -> Seq<ActiveOutput> {
        self.outputs@
    }
}

impl KmsBackend {
    /// Index arithmetic stays in range: monitor ids are 32-bit.
    pub open spec fn wf(self) -> bool {
        self@.len() <= u32::MAX
    }

    /// Own a probed output list.
    pub fn new(outputs: Vec<ActiveOutput>) -> (r: KmsBackend)
        requires
            outputs@.len() <= u32::MAX,
        ensures
            r@ == outputs@,
            r.wf(),
    {
        KmsBackend { outputs }
    }

    /// How many outputs were active when the device was probed.
    pub fn output_count(&self) -> (r: usize)
        ensures
            r == self@.len(),
    {
        self.outputs.len()
    }

    /// List the active outputs: one monitor per output, in probe order,
    /// index 0 primary by convention.
    #[verifier::loop_isolation(false)]
    pub fn list_monitors(&self) -> (r: Result<Vec<MonitorInfo>, CaptureError>)
        requires
            self.wf(),
        ensures
            r matches Ok(ms) && ms@.len() == self@.len() && (forall|i: int|
                0 <= i < ms@.len() ==> monitor_matches(#[trigger] ms@[i], self@[i], i)),
    {
        let mut ms: Vec<MonitorInfo> = Vec::new();
        let mut i: usize = 0;
        while i < self.outputs.len()
            invariant
                i <= self@.len(),
                ms@.len() == i,
                forall|j: int| 0 <= j < i ==> monitor_matches(#[trigger] ms@[j], self@[j], j),
            decreases self@.len() - i,
        {
            let o = &self.outputs[i];
            ms.push(
                MonitorInfo {
                    id: i as u32,
                    name: o.connector_name.clone(),
                    x: 0,
                    y: 0,
                    width: o.width,
                    height: o.height,
                    is_primary: i == 0,
                },
            );
            i = i + 1;
        }
        Ok(ms)
    }

    /// Begin a capture of the output at `monitor_id` (0 when omitted).  An
    /// index at or past the output count — including any index on a device
    /// with no outputs — is the input-validation error `NoUsableOutput`,
    /// never an internal failure.
    pub fn begin_capture(&self, monitor_id: Option<u32>) -> (r: Result<CaptureSession, CaptureError>)
        requires
            self.wf(),
        ensures
            ({
                let idx: int = match monitor_id {
                    Some(id) => id as int,
                    None => 0,
                };
                let requested: u32 = match monitor_id {
                    Some(id) => id,
                    None => 0,
                };
                &&& (idx < self@.len() <==> r is Ok)
                &&& (idx >= self@.len() ==> r == Result::<CaptureSession, CaptureError>::Err(
                    CaptureError::NoUsableOutput { requested, available: self@.len() as u32 },
                ))
                &&& (idx < self@.len() ==> (r matches Ok(s) && s.wf() && s.phase is AwaitCrtc
                    && s.width == self@[idx].width && s.height == self@[idx].height && s.crtc
                    == self@[idx].crtc_handle && s.cached_fb == self@[idx].fb_handle
                    && s.handles_obtained == 0 && s.handles_closed == 0))
            }),
    {
        let requested: u32 = match monitor_id {
            Some(id) => id,
            None => 0,
        };
        let count: usize = self.outputs.len();
        if (requested as usize) < count {
            let output = &self.outputs[requested as usize];
            Ok(CaptureSession::begin(output))
        } else {
            Err(CaptureError::NoUsableOutput { requested, available: count as u32 })
        }
    }
}

/// The closed set of capture strategies, tagged; both share the monitor
/// contract, and only the desktop strategy knows windows.
pub enum Backend {
    Xcap(XcapBackend),
    Kms(KmsBackend),
}

impl Backend {
    /// What this strategy can do: window operations exist only on the
    /// desktop backend.
    pub fn capabilities(&self) -> (r: BackendCapabilities)
        ensures
            r.supports_windows <==> self is Xcap,
    {
        match self {
            Backend::Xcap(_) => BackendCapabilities { supports_windows: true },
            Backend::Kms(_) => BackendCapabilities { supports_windows: false },
        }
    }

    /// The strategy's short name.
    pub fn name(&self) -> (r: &'static str)
        ensures
            self is Xcap ==> r@ == "xcap"@,
            self is Kms ==> r@ == "kms"@,
    {
        match self {
            Backend::Xcap(_) => "xcap",
            Backend::Kms(_) => "kms",
        }
    }
}

/// The crop rectangle of a region request against a captured image:
/// clamp the origin to the image, shrink the size to what remains, and
/// reject an origin outside the image (`None`).
pub fn crop_bounds(x: i32, y: i32, width: u32, height: u32, img_w: u32, img_h: u32) -> (r: Option<
    (u32, u32, u32, u32),
>)
    ensures
        ({
            let cx: int = if x > 0 {
                x as int
            } else {
                0
            };
            let cy: int = if y > 0 {
                y as int
            } else {
                0
            };
            &&& (r is Some <==> cx < img_w && cy < img_h)
            &&& (r matches Some(c) ==> c.0 == cx && c.1 == cy && c.2 == (
            if width <= img_w - cx {
                width as int
            } else {
                img_w - cx
            }) && c.3 == (
            if height <= img_h - cy {
                height as int
            } else {
                img_h - cy
            }))
        }),
{
    let cx: u32 = if x > 0 {
        x as u32
    } else {
        0
    };
    let cy: u32 = if y > 0 {
        y as u32
    } else {
        0
    };
    if cx >= img_w || cy >= img_h {
        return None;
    }
    let w: u32 = if width <= img_w - cx {
        width
    } else {
        img_w - cx
    };
    let h: u32 = if height <= img_h - cy {
        height
    } else {
        img_h - cy
    };
    Some((cx, cy, w, h))
}

} // verus!
