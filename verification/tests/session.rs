use kms_capture::capture::{
    CaptureAction, CaptureEvent, CaptureSession, Fb1Info, Fb2Info,
};
use kms_capture::error::{CaptureError, EncodingTag, QueryFailure};
use kms_capture::pixel_format::PixelFormat;
use kms_capture::probe::ActiveOutput;

fn output_2x1() -> ActiveOutput {
    ActiveOutput {
        connector_name: "HDMI-A-1".to_owned(),
        crtc_handle: 3,
        width: 2,
        height: 1,
        fb_handle: 77,
    }
}

fn finish(session: CaptureSession) -> (Result<Vec<u8>, CaptureError>, u32, u32) {
    let obtained = session.handles_obtained;
    let closed = session.handles_closed;
    match session.into_outcome() {
        Ok(outcome) => (outcome.map(|img| img.data), obtained, closed),
        Err(_) => panic!("session not finished"),
    }
}

#[test]
fn successful_capture_through_richer_query() {
    let session = CaptureSession::begin(&output_2x1());
    assert_eq!(session.pending_action(), CaptureAction::QueryCrtc { crtc: 3 });

    // The pipeline reports a fresher framebuffer than the probe cached.
    let (session, act) = session.step(CaptureEvent::CrtcQueried { fb: Some(9) });
    assert_eq!(act, CaptureAction::QueryFb2 { fb: 9 });

    let info = Fb2Info {
        handle: Some(5),
        pitch: 8,
        format: PixelFormat::Xrgb8888,
        modifier: Some(0),
    };
    let (session, act) = session.step(CaptureEvent::Fb2Queried(info));
    assert_eq!(act, CaptureAction::MapBuffer { handle: 5, size: 8 });

    let bytes = vec![0x10, 0x20, 0x30, 0x00, 0x40, 0x50, 0x60, 0x00];
    let (session, act) = session.step(CaptureEvent::BufferMapped(bytes));
    assert_eq!(act, CaptureAction::CloseBuffer { handle: 5 });

    let (session, act) = session.step(CaptureEvent::BufferClosed);
    assert_eq!(act, CaptureAction::Finish);

    let (outcome, obtained, closed) = finish(session);
    assert_eq!(
        outcome.unwrap(),
        vec![0x30, 0x20, 0x10, 0xFF, 0x60, 0x50, 0x40, 0xFF]
    );
    assert_eq!((obtained, closed), (1, 1));
}

#[test]
fn cached_framebuffer_used_when_pipeline_reports_none() {
    let session = CaptureSession::begin(&output_2x1());
    let (_, act) = session.step(CaptureEvent::CrtcQueried { fb: None });
    assert_eq!(act, CaptureAction::QueryFb2 { fb: 77 });
}

#[test]
fn nonlinear_modifier_never_reaches_the_mapper() {
    let session = CaptureSession::begin(&output_2x1());
    let (session, _) = session.step(CaptureEvent::CrtcQueried { fb: Some(9) });
    let info = Fb2Info {
        handle: Some(5),
        pitch: 8,
        format: PixelFormat::Xrgb8888,
        modifier: Some(0x0100_0000_0000_0001),
    };
    let (session, act) = session.step(CaptureEvent::Fb2Queried(info));
    // The obtained handle is closed; no mapping is ever requested.
    assert_eq!(act, CaptureAction::CloseBuffer { handle: 5 });
    let (session, act) = session.step(CaptureEvent::BufferClosed);
    assert_eq!(act, CaptureAction::Finish);
    let (outcome, obtained, closed) = finish(session);
    assert_eq!(
        outcome.err(),
        Some(CaptureError::UnsupportedLayout { modifier: 0x0100_0000_0000_0001 })
    );
    assert_eq!((obtained, closed), (1, 1));
}

#[test]
fn legacy_fallback_decodes_after_richer_query_fails() {
    let session = CaptureSession::begin(&output_2x1());
    let (session, _) = session.step(CaptureEvent::CrtcQueried { fb: None });
    let (session, act) = session.step(CaptureEvent::Fb2QueryFailed);
    assert_eq!(act, CaptureAction::QueryFb1 { fb: 77 });

    let info = Fb1Info { handle: Some(6), pitch: 8, bpp: 32, depth: 24 };
    let (session, act) = session.step(CaptureEvent::Fb1Queried(info));
    assert_eq!(act, CaptureAction::MapBuffer { handle: 6, size: 8 });

    let bytes = vec![1, 2, 3, 0, 4, 5, 6, 0];
    let (session, act) = session.step(CaptureEvent::BufferMapped(bytes));
    assert_eq!(act, CaptureAction::CloseBuffer { handle: 6 });
    let (session, _) = session.step(CaptureEvent::BufferClosed);
    let (outcome, obtained, closed) = finish(session);
    assert_eq!(outcome.unwrap(), vec![3, 2, 1, 0xFF, 6, 5, 4, 0xFF]);
    assert_eq!((obtained, closed), (1, 1));
}

#[test]
fn unmapped_depth_pair_closes_handle_and_reports_encoding() {
    let session = CaptureSession::begin(&output_2x1());
    let (session, _) = session.step(CaptureEvent::CrtcQueried { fb: None });
    let (session, _) = session.step(CaptureEvent::Fb2QueryFailed);
    let info = Fb1Info { handle: Some(6), pitch: 8, bpp: 24, depth: 24 };
    let (session, act) = session.step(CaptureEvent::Fb1Queried(info));
    assert_eq!(act, CaptureAction::CloseBuffer { handle: 6 });
    let (session, _) = session.step(CaptureEvent::BufferClosed);
    let (outcome, obtained, closed) = finish(session);
    assert_eq!(
        outcome.err(),
        Some(CaptureError::UnsupportedEncoding {
            tag: EncodingTag::LegacyDepth { bpp: 24, depth: 24 }
        })
    );
    assert_eq!((obtained, closed), (1, 1));
}

#[test]
fn export_failure_still_closes_the_handle_exactly_once() {
    let session = CaptureSession::begin(&output_2x1());
    let (session, _) = session.step(CaptureEvent::CrtcQueried { fb: None });
    let info = Fb2Info {
        handle: Some(5),
        pitch: 8,
        format: PixelFormat::Xrgb8888,
        modifier: None,
    };
    let (session, _) = session.step(CaptureEvent::Fb2Queried(info));
    let (session, act) = session.step(CaptureEvent::BufferExportFailed);
    assert_eq!(act, CaptureAction::CloseBuffer { handle: 5 });
    let (session, _) = session.step(CaptureEvent::BufferClosed);
    let (outcome, obtained, closed) = finish(session);
    assert_eq!(outcome.err(), Some(CaptureError::BufferExportFailure));
    assert_eq!((obtained, closed), (1, 1));
}

#[test]
fn map_failure_still_closes_the_handle() {
    let session = CaptureSession::begin(&output_2x1());
    let (session, _) = session.step(CaptureEvent::CrtcQueried { fb: None });
    let info = Fb2Info {
        handle: Some(5),
        pitch: 8,
        format: PixelFormat::Xrgb8888,
        modifier: Some(0),
    };
    let (session, _) = session.step(CaptureEvent::Fb2Queried(info));
    let (session, act) = session.step(CaptureEvent::MemoryMapFailed);
    assert_eq!(act, CaptureAction::CloseBuffer { handle: 5 });
    let (session, _) = session.step(CaptureEvent::BufferClosed);
    let (outcome, obtained, closed) = finish(session);
    assert_eq!(outcome.err(), Some(CaptureError::MemoryMapFailure));
    assert_eq!((obtained, closed), (1, 1));
}

#[test]
fn short_mapping_is_a_map_failure() {
    let session = CaptureSession::begin(&output_2x1());
    let (session, _) = session.step(CaptureEvent::CrtcQueried { fb: None });
    let info = Fb2Info {
        handle: Some(5),
        pitch: 8,
        format: PixelFormat::Xrgb8888,
        modifier: None,
    };
    let (session, _) = session.step(CaptureEvent::Fb2Queried(info));
    let (session, _) = session.step(CaptureEvent::BufferMapped(vec![0u8; 4]));
    let (session, _) = session.step(CaptureEvent::BufferClosed);
    let (outcome, obtained, closed) = finish(session);
    assert_eq!(outcome.err(), Some(CaptureError::MemoryMapFailure));
    assert_eq!((obtained, closed), (1, 1));
}

#[test]
fn both_query_tiers_failing_is_terminal() {
    let session = CaptureSession::begin(&output_2x1());
    let (session, _) = session.step(CaptureEvent::CrtcQueried { fb: None });
    let (session, _) = session.step(CaptureEvent::Fb2QueryFailed);
    let (session, act) = session.step(CaptureEvent::Fb1QueryFailed);
    assert_eq!(act, CaptureAction::Finish);
    let (outcome, obtained, closed) = finish(session);
    assert_eq!(
        outcome.err(),
        Some(CaptureError::FramebufferQueryFailure { stage: QueryFailure::BothTiersFailed })
    );
    assert_eq!((obtained, closed), (0, 0));
}

#[test]
fn missing_legacy_handle_names_the_capability() {
    let session = CaptureSession::begin(&output_2x1());
    let (session, _) = session.step(CaptureEvent::CrtcQueried { fb: None });
    let (session, _) = session.step(CaptureEvent::Fb2QueryFailed);
    let info = Fb1Info { handle: None, pitch: 8, bpp: 32, depth: 24 };
    let (session, act) = session.step(CaptureEvent::Fb1Queried(info));
    assert_eq!(act, CaptureAction::Finish);
    let (outcome, _, _) = finish(session);
    let err = outcome.err().unwrap();
    assert_eq!(
        err,
        CaptureError::FramebufferQueryFailure { stage: QueryFailure::NoLegacyBufferHandle }
    );
    assert!(err.message().contains("CAP_SYS_ADMIN"));
}

#[test]
fn pipeline_query_failure_is_reported() {
    let session = CaptureSession::begin(&output_2x1());
    let (session, act) = session.step(CaptureEvent::CrtcQueryFailed);
    assert_eq!(act, CaptureAction::Finish);
    let (outcome, obtained, closed) = finish(session);
    assert_eq!(
        outcome.err(),
        Some(CaptureError::FramebufferQueryFailure { stage: QueryFailure::CrtcUnavailable })
    );
    assert_eq!((obtained, closed), (0, 0));
}

#[test]
fn missing_richer_handle_is_a_query_failure() {
    let session = CaptureSession::begin(&output_2x1());
    let (session, _) = session.step(CaptureEvent::CrtcQueried { fb: None });
    let info = Fb2Info { handle: None, pitch: 8, format: PixelFormat::Xrgb8888, modifier: Some(0) };
    let (session, act) = session.step(CaptureEvent::Fb2Queried(info));
    assert_eq!(act, CaptureAction::Finish);
    let (outcome, obtained, closed) = finish(session);
    assert_eq!(
        outcome.err(),
        Some(CaptureError::FramebufferQueryFailure { stage: QueryFailure::NoBufferHandle })
    );
    assert_eq!((obtained, closed), (0, 0));
}

#[test]
fn nonlinear_modifier_without_handle_finishes_directly() {
    let session = CaptureSession::begin(&output_2x1());
    let (session, _) = session.step(CaptureEvent::CrtcQueried { fb: None });
    let info = Fb2Info { handle: None, pitch: 8, format: PixelFormat::Xrgb8888, modifier: Some(3) };
    let (session, act) = session.step(CaptureEvent::Fb2Queried(info));
    assert_eq!(act, CaptureAction::Finish);
    let (outcome, obtained, closed) = finish(session);
    assert_eq!(outcome.err(), Some(CaptureError::UnsupportedLayout { modifier: 3 }));
    assert_eq!((obtained, closed), (0, 0));
}

#[test]
fn mismatched_event_reissues_the_pending_action() {
    let session = CaptureSession::begin(&output_2x1());
    assert_eq!(session.pending_action(), CaptureAction::QueryCrtc { crtc: 3 });
    let (session, act) = session.step(CaptureEvent::BufferClosed);
    assert_eq!(act, CaptureAction::QueryCrtc { crtc: 3 });
    assert_eq!(session.handles_obtained, 0);
    assert_eq!(session.handles_closed, 0);
}

#[test]
fn every_error_kind_has_a_message() {
    let errors = vec![
        CaptureError::DeviceOpenFailure,
        CaptureError::NoUsableOutput { requested: 2, available: 1 },
        CaptureError::FramebufferQueryFailure { stage: QueryFailure::CrtcUnavailable },
        CaptureError::FramebufferQueryFailure { stage: QueryFailure::NoBufferHandle },
        CaptureError::FramebufferQueryFailure { stage: QueryFailure::NoLegacyBufferHandle },
        CaptureError::FramebufferQueryFailure { stage: QueryFailure::BothTiersFailed },
        CaptureError::UnsupportedLayout { modifier: 1 },
        CaptureError::UnsupportedEncoding { tag: EncodingTag::Fourcc { code: 7 } },
        CaptureError::BufferExportFailure,
        CaptureError::MemoryMapFailure,
        CaptureError::ImageAssemblyFailure,
    ];
    for e in errors {
        assert!(!e.message().is_empty());
    }
}

#[test]
fn messages_carry_actionable_guidance() {
    let open = CaptureError::DeviceOpenFailure.message();
    assert!(open.contains("/dev/dri/card*"));
    assert!(open.contains("CAP_SYS_ADMIN"));
    assert!(open.contains("setcap cap_sys_admin+ep"));
    let legacy =
        CaptureError::FramebufferQueryFailure { stage: QueryFailure::NoLegacyBufferHandle }
            .message();
    assert!(legacy.contains("CAP_SYS_ADMIN"));
    assert!(legacy.contains("setcap cap_sys_admin+ep"));
    assert_eq!(
        CaptureError::UnsupportedLayout { modifier: 9 }.message(),
        "the framebuffer reports a non-linear layout modifier; tiled buffers cannot be read from a flat mapping"
    );
}
