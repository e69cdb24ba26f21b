use kms_capture::backend::{Backend, KmsBackend, XcapBackend};
use kms_capture::backend::crop_bounds;
use kms_capture::error::CaptureError;
use kms_capture::probe::{collect_outputs, device_usable, evaluate_connector, ConnectorProbe};

fn probe(name: &str, connected: bool, crtc: Option<u32>, mode: Option<(u32, u32)>, fb: Option<u32>) -> ConnectorProbe {
    ConnectorProbe {
        connector_name: name.to_owned(),
        connected,
        encoder_crtc: crtc,
        mode_size: mode,
        fb_handle: fb,
    }
}

#[test]
fn connector_chain_must_hold_end_to_end() {
    assert!(evaluate_connector(&probe("a", false, Some(1), Some((10, 20)), Some(2))).is_none());
    assert!(evaluate_connector(&probe("b", true, None, Some((10, 20)), Some(2))).is_none());
    assert!(evaluate_connector(&probe("c", true, Some(1), None, Some(2))).is_none());
    assert!(evaluate_connector(&probe("d", true, Some(1), Some((10, 20)), None)).is_none());
    let out = evaluate_connector(&probe("HDMI-A-1", true, Some(7), Some((1920, 1080)), Some(42)))
        .expect("full chain survives");
    assert_eq!(out.connector_name, "HDMI-A-1");
    assert_eq!(out.crtc_handle, 7);
    assert_eq!(out.width, 1920);
    assert_eq!(out.height, 1080);
    assert_eq!(out.fb_handle, 42);
}

#[test]
fn zero_connected_connectors_yield_empty_list_and_probing_continues() {
    // First device: connectors present but none connected.
    let first = vec![
        probe("a", false, None, None, None),
        probe("b", false, None, None, None),
    ];
    let first_outputs = collect_outputs(&first);
    assert!(first_outputs.is_empty());
    assert!(!device_usable(&first_outputs));

    // The harness treats that as "try the next device node", not a failure.
    let second = vec![probe("c", true, Some(1), Some((640, 480)), Some(9))];
    let second_outputs = collect_outputs(&second);
    assert!(device_usable(&second_outputs));
    assert_eq!(second_outputs.len(), 1);
}

#[test]
fn surviving_connectors_keep_enumeration_order() {
    let probes = vec![
        probe("a", true, Some(1), Some((10, 10)), Some(1)),
        probe("b", false, None, None, None),
        probe("c", true, Some(2), Some((20, 20)), Some(2)),
    ];
    let outputs = collect_outputs(&probes);
    assert_eq!(outputs.len(), 2);
    assert_eq!(outputs[0].connector_name, "a");
    assert_eq!(outputs[1].connector_name, "c");
}

#[test]
fn monitors_are_listed_in_order_with_first_primary() {
    let probes = vec![
        probe("DP-1", true, Some(1), Some((800, 600)), Some(1)),
        probe("DP-2", true, Some(2), Some((1024, 768)), Some(2)),
    ];
    let backend = KmsBackend::new(collect_outputs(&probes));
    let monitors = backend.list_monitors().unwrap();
    assert_eq!(monitors.len(), 2);
    assert_eq!(monitors[0].id, 0);
    assert_eq!(monitors[0].name, "DP-1");
    assert_eq!((monitors[0].x, monitors[0].y), (0, 0));
    assert_eq!((monitors[0].width, monitors[0].height), (800, 600));
    assert!(monitors[0].is_primary);
    assert_eq!(monitors[1].id, 1);
    assert_eq!(monitors[1].name, "DP-2");
    assert!(!monitors[1].is_primary);
}

#[test]
fn capture_index_at_output_count_is_input_validation() {
    let probes = vec![probe("DP-1", true, Some(1), Some((800, 600)), Some(1))];
    let backend = KmsBackend::new(collect_outputs(&probes));
    assert_eq!(backend.output_count(), 1);
    let err = backend.begin_capture(Some(1)).err().expect("out of range");
    assert_eq!(err, CaptureError::NoUsableOutput { requested: 1, available: 1 });
    assert!(backend.begin_capture(Some(0)).is_ok());
    assert!(backend.begin_capture(None).is_ok());
}

#[test]
fn capture_on_empty_device_is_no_usable_output() {
    let backend = KmsBackend::new(Vec::new());
    let err = backend.begin_capture(None).err().expect("no outputs");
    assert_eq!(err, CaptureError::NoUsableOutput { requested: 0, available: 0 });
}

#[test]
fn backend_capabilities_and_names() {
    let desktop = Backend::Xcap(XcapBackend);
    let kms = Backend::Kms(KmsBackend::new(Vec::new()));
    assert!(desktop.capabilities().supports_windows);
    assert!(!kms.capabilities().supports_windows);
    assert_eq!(desktop.name(), "xcap");
    assert_eq!(kms.name(), "kms");
}

#[test]
fn crop_bounds_clamps_and_rejects() {
    assert_eq!(crop_bounds(10, 20, 100, 100, 640, 480), Some((10, 20, 100, 100)));
    // Negative origin clamps to zero.
    assert_eq!(crop_bounds(-5, -5, 50, 50, 640, 480), Some((0, 0, 50, 50)));
    // Size shrinks to what remains of the image.
    assert_eq!(crop_bounds(600, 400, 100, 100, 640, 480), Some((600, 400, 40, 80)));
    // An origin outside the image is rejected.
    assert_eq!(crop_bounds(640, 0, 10, 10, 640, 480), None);
    assert_eq!(crop_bounds(0, 480, 10, 10, 640, 480), None);
}
