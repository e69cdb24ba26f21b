//! Deciding which connectors are actively displaying.
//!
//! The embedding program queries each connector's chain (connector →
//! encoder → display pipeline) and records what it saw as plain values; the
//! logic here decides, for every connector, whether it is an active output,
//! and builds the output list in connector enumeration order.

use vstd::prelude::*;

verus! {

/// What a walk of one connector's chain reported.  A `None` stands both for
/// "the chain ends here" and for "this query step failed": either way the
/// connector is skipped, never the whole probe.
pub struct ConnectorProbe {
    /// Display name of the connector.
    pub connector_name: String,
    /// Whether the connector reports a connected display.
    pub connected: bool,
    /// The display pipeline bound through the connector's current encoder.
    pub encoder_crtc: Option<u32>,
    /// The active mode size (width, height) that pipeline reports.
    pub mode_size: Option<(u32, u32)>,
    /// The framebuffer bound to that pipeline.
    pub fb_handle: Option<u32>,
}

/// An output that is connected and currently displaying a mode.
pub struct ActiveOutput {
    /// Display name of the connector driving this output.
    pub connector_name: String,
    /// The display pipeline to re-query before each capture.
    pub crtc_handle: u32,
    /// Mode width in pixels.
    pub width: u32,
    /// Mode height in pixels.
    pub height: u32,
    /// The framebuffer seen at probe time; a hint only, re-read per capture.
    pub fb_handle: u32,
}

/// A connector survives the probe when the whole chain holds: connected,
/// an encoder with a bound pipeline, an active mode, a bound framebuffer.
pub open spec fn probe_survives(p: ConnectorProbe) -> bool {
    &&& p.connected
    &&& p.encoder_crtc is Some
    &&& p.mode_size is Some
    &&& p.fb_handle is Some
}

/// The active output a surviving connector becomes.
pub open spec fn output_of(p: ConnectorProbe) -> ActiveOutput {
    ActiveOutput {
        connector_name: p.connector_name,
        crtc_handle: p.encoder_crtc->0,
        width: (p.mode_size->0).0,
        height: (p.mode_size->0).1,
        fb_handle: p.fb_handle->0,
    }
}

/// The outputs of a whole probe: the surviving connectors, in order.
pub open spec fn spec_outputs(ps: Seq<ConnectorProbe>) -> Seq<ActiveOutput>
    decreases ps.len(),
{
    if ps.len() == 0 {
        Seq::empty()
    } else {
        let rest = spec_outputs(ps.drop_last());
        if probe_survives(ps.last()) {
            rest.push(output_of(ps.last()))
        } else {
            rest
        }
    }
}

/// Decide one connector: an active output exactly when the chain holds.
pub fn evaluate_connector(p: &ConnectorProbe) -> (r: Option<ActiveOutput>)
    ensures
        r is Some <==> probe_survives(*p),
        probe_survives(*p) ==> r == Some(output_of(*p)),
{
    if !p.connected {
        return None;
    }
    let crtc_handle = match p.encoder_crtc {
        Some(h) => h,
        None => { return None; },
    };
    let (width, height) = match p.mode_size {
        Some(s) => s,
        None => { return None; },
    };
    let fb_handle = match p.fb_handle {
        Some(h) => h,
        None => { return None; },
    };
    Some(
        ActiveOutput {
            connector_name: p.connector_name.clone(),
            crtc_handle,
            width,
            height,
            fb_handle,
        },
    )
}

/// Build the active output list of a device from its connector probes,
/// keeping the surviving connectors in enumeration order.
#[verifier::loop_isolation(false)]
pub fn collect_outputs(probes: &Vec<ConnectorProbe>) -> (r: Vec<ActiveOutput>)
    ensures
        r@ == spec_outputs(probes@),
{
    let mut out: Vec<ActiveOutput> = Vec::new();
    let mut i: usize = 0;
    while i < probes.len()
        invariant
            i <= probes@.len(),
            out@ == spec_outputs(probes@.take(i as int)),
        decreases probes@.len() - i,
    {
        proof {
            assert(probes@.take(i as int + 1).drop_last() =~= probes@.take(i as int));
            assert(probes@.take(i as int + 1).last() == probes@[i as int]);
        }
        match evaluate_connector(&probes[i]) {
            Some(o) => out.push(o),
            None => (),
        }
        i = i + 1;
    }
    proof {
        assert(probes@.take(probes@.len() as int) =~= probes@);
    }
    out
}

/// Whether a probed device should be selected: it has at least one active
/// output.  An empty list is "nothing usable here", not an error; the
/// caller moves on to the next device node.
pub fn device_usable(outputs: &Vec<ActiveOutput>) -> (r: bool)
    ensures
        r == (outputs@.len() > 0),
{
    outputs.len() > 0
}

/// The device node a walk over nodes selects: the first, in node order,
/// whose probe yields any output.
pub open spec fn spec_first_usable(results: Seq<Seq<ActiveOutput>>) -> Option<int>
    decreases results.len(),
{
    if results.len() == 0 {
        None
    } else if results[0].len() > 0 {
        Some(0)
    } else {
        match spec_first_usable(results.drop_first()) {
            Some(i) => Some(i + 1),
            None => None,
        }
    }
}

/// First-usable device selection, as the walk over node probes that
/// `device_usable` decides one node at a time: the selected node has an
/// output, every node before it has none — a zero-output device is
/// skipped, never fatal — and no selection means no node had any.
pub proof fn lemma_first_usable(results: Seq<Seq<ActiveOutput>>)
    ensures
        spec_first_usable(results) matches Some(i) ==> 0 <= i < results.len() && results[i].len()
            > 0 && (forall|j: int| 0 <= j < i ==> results[j].len() == 0),
        spec_first_usable(results) is None ==> (forall|j: int|
            0 <= j < results.len() ==> results[j].len() == 0),
    decreases results.len(),
{
    if results.len() > 0 && results[0].len() == 0 {
        let rest = results.drop_first();
        lemma_first_usable(rest);
        assert(forall|j: int| 0 <= j < rest.len() ==> #[trigger] rest[j] == results[j + 1]);
        if spec_first_usable(rest) is Some {
            let i = spec_first_usable(rest)->0;
            assert(spec_first_usable(results) == Some(i + 1));
            assert(results[i + 1].len() > 0);
            assert forall|j: int| 0 <= j < i + 1 implies results[j].len() == 0 by {
                if j > 0 {
                    assert(rest[j - 1] == results[j]);
                }
            }
        } else {
            assert forall|j: int| 0 <= j < results.len() implies results[j].len() == 0 by {
                if j > 0 {
                    assert(rest[j - 1] == results[j]);
                }
            }
        }
    }
}

/// A probe in which no connector survives the chain — in particular a
/// device with zero connected connectors — yields an empty output list.
pub proof fn lemma_no_survivor_no_output(ps: Seq<ConnectorProbe>)
    requires
        forall|i: int| 0 <= i < ps.len() ==> !probe_survives(ps[i]),
    ensures
        spec_outputs(ps).len() == 0,
    decreases ps.len(),
{
    if ps.len() > 0 {
        lemma_no_survivor_no_output(ps.drop_last());
    }
}

} // verus!
