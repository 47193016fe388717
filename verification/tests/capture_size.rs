use chidescaler_neo::backend::CaptureCrop;
use chidescaler_neo::resolution::{
    after_source_resize, apply_capture_resolution_to_target, capture_resolution_content_size,
    capture_resolution_disabled_for_target, capture_resolution_fullscreen_guard, capture_resolution_label,
    capture_resolution_plan, capture_resolution_presets, commit_resolution_text, even_capture_neighbors,
    fit_candidates, fit_search, is_picture_in_picture_title, is_pip_title, parse_capture_resolution, pick_resolution, proposed_fit,
    ApplyStep, AspectVerdict, CaptureResolution, ResizeOutcome, ResolutionPlan, SourceFacts,
};

fn size(w: u32, h: u32) -> CaptureResolution {
    CaptureResolution { w, h }
}

#[test]
fn capture_resolution_crop_off_is_geometry_transparent() {
    let crop = CaptureCrop {
        enabled: false,
        bottom: 23,
        ..CaptureCrop::default()
    };
    assert_eq!(
        capture_resolution_content_size((960, 540), crop),
        (960, 540)
    );
}

#[test]
fn capture_resolution_crop_is_post_capture_and_does_not_expand_canvas() {
    let crop = CaptureCrop {
        enabled: true,
        bottom: 23,
        ..CaptureCrop::default()
    };
    assert_eq!(
        capture_resolution_content_size((960, 540), crop),
        (960, 517)
    );
}

#[test]
fn capture_resolution_fullscreen_guard_uses_session_origin() {
    assert!(!capture_resolution_fullscreen_guard(Some(false), true));
    assert!(capture_resolution_fullscreen_guard(Some(true), false));
    assert!(capture_resolution_fullscreen_guard(None, true));
    assert!(!capture_resolution_fullscreen_guard(None, false));
}

#[test]
fn capture_resolution_labels_follow_ui_language() {
    assert_eq!(capture_resolution_label(None, "自動"), "自動");
    assert_eq!(capture_resolution_label(None, "Auto"), "Auto");
    let size = Some(CaptureResolution { w: 640, h: 480 });
    assert_eq!(
        capture_resolution_label(size, "自動"),
        "640x480 (4:3)"
    );
    assert_eq!(
        capture_resolution_label(size, "Auto"),
        "640x480 (4:3)"
    );
    assert_eq!(capture_resolution_label(Some(CaptureResolution { w: 1280, h: 720 }), "Auto"), "1280x720");
}

#[test]
fn capture_resolution_parser_accepts_both_languages() {
    assert_eq!(parse_capture_resolution("自動"), Some(None));
    assert_eq!(parse_capture_resolution("Auto"), Some(None));
    assert_eq!(
        parse_capture_resolution("640x480 (4:3)"),
        Some(Some(CaptureResolution { w: 640, h: 480 }))
    );
    let presets = capture_resolution_presets();
    assert!(presets.contains(&Some(CaptureResolution { w: 480, h: 360 })));
    assert!(presets.contains(&Some(CaptureResolution { w: 960, h: 720 })));
    assert!(presets.contains(&Some(CaptureResolution { w: 1152, h: 648 })));
    assert!(presets.contains(&Some(CaptureResolution { w: 1600, h: 900 })));
    let index_of = |target: CaptureResolution| {
        presets
            .iter()
            .position(|preset| *preset == Some(target))
            .unwrap()
    };
    assert!(
        index_of(CaptureResolution { w: 960, h: 720 })
            < index_of(CaptureResolution { w: 1152, h: 648 })
    );
    assert!(
        index_of(CaptureResolution { w: 1152, h: 648 })
            < index_of(CaptureResolution { w: 1280, h: 720 })
    );
}

#[test]
fn odd_spellings_of_a_size() {
    assert_eq!(parse_capture_resolution("  1280 × 720 "), Some(Some(size(1280, 720))));
    assert_eq!(parse_capture_resolution("1280*720"), Some(Some(size(1280, 720))));
    assert_eq!(parse_capture_resolution("10x10"), Some(Some(size(160, 120))));
    assert_eq!(parse_capture_resolution("99999X99999"), Some(Some(size(7680, 4320))));
    assert_eq!(parse_capture_resolution("1280"), None);
    assert_eq!(parse_capture_resolution("ax b"), None);
    assert_eq!(parse_capture_resolution("4294967296x5"), None);
}

#[test]
fn every_offered_size_is_read_back_from_its_label() {
    for preset in capture_resolution_presets() {
        let label = capture_resolution_label(preset, "Auto");
        assert_eq!(parse_capture_resolution(&label), Some(preset));
    }
}

#[test]
fn a_typed_size_is_taken_or_left() {
    let edit = commit_resolution_text(None, "640x480", "Auto");
    assert_eq!((edit.value, edit.text.as_str(), edit.changed), (Some(size(640, 480)), "640x480 (4:3)", true));
    let edit = commit_resolution_text(Some(size(640, 480)), "junk", "Auto");
    assert_eq!((edit.value, edit.text.as_str(), edit.changed), (Some(size(640, 480)), "junk", false));
}

/// The size that fits into `requested` with the aspect of `current`.
fn fit_resolution_preserving_aspect(requested: CaptureResolution, current: (i32, i32)) -> CaptureResolution {
    if current.0 <= 0 || current.1 <= 0 {
        return requested;
    }
    let cur = current.0 as f64 / current.1 as f64;
    let req = requested.w as f64 / requested.h as f64;
    let same_aspect = (cur / req - 1.0).abs() <= 0.0025;
    let scale = (requested.w as f64 / current.0 as f64).min(requested.h as f64 / current.1 as f64);
    let proposed = proposed_fit(
        requested,
        same_aspect,
        (current.0 as f64 * scale).round() as u32,
        (current.1 as f64 * scale).round() as u32,
    );
    let mut search = fit_search(requested, proposed);
    let mut best = f64::INFINITY;
    for candidate in fit_candidates(requested, proposed) {
        let error = (candidate.w as f64 / candidate.h as f64 / cur - 1.0).abs();
        let verdict = if error < best - 1e-9 {
            AspectVerdict::Closer
        } else if (error - best).abs() <= 1e-9 {
            AspectVerdict::Tied
        } else {
            AspectVerdict::Farther
        };
        if search.consider(candidate, verdict) {
            best = error;
        }
    }
    search.best
}

#[test]
fn pip_capture_resolution_preserves_current_content_aspect() {
    assert_eq!(
        fit_resolution_preserving_aspect(CaptureResolution { w: 1280, h: 720 }, (758, 426)),
        CaptureResolution { w: 1280, h: 720 }
    );
    assert_eq!(
        fit_resolution_preserving_aspect(CaptureResolution { w: 1280, h: 720 }, (568, 426)),
        CaptureResolution { w: 960, h: 720 }
    );
    assert_eq!(
        fit_resolution_preserving_aspect(CaptureResolution { w: 640, h: 480 }, (854, 480)),
        CaptureResolution { w: 640, h: 360 }
    );
    assert_eq!(
        fit_resolution_preserving_aspect(CaptureResolution { w: 640, h: 480 }, (762, 428)),
        CaptureResolution { w: 640, h: 360 }
    );
    assert!(is_picture_in_picture_title("ピクチャー イン ピクチャー"));
    assert!(is_picture_in_picture_title("Picture-in-Picture"));
}

#[test]
fn titles_are_compared_without_case() {
    assert!(is_picture_in_picture_title("PICTURE IN PICTURE - Film"));
    assert!(!is_picture_in_picture_title("Picture"));
    assert!(is_pip_title("X", "a picture-in-picture"));
    assert!(!is_pip_title("Picture in Picture", "x"));
}

#[test]
fn neighbours_are_even_and_within_bounds() {
    assert_eq!(even_capture_neighbors(359, 120, 480), (358, 360));
    assert_eq!(even_capture_neighbors(360, 120, 480), (360, 360));
    assert_eq!(even_capture_neighbors(50, 120, 480), (120, 120));
    assert_eq!(even_capture_neighbors(999, 120, 481), (480, 480));
    let candidates = fit_candidates(size(640, 480), size(640, 359));
    assert!(candidates.contains(&size(640, 358)) && candidates.contains(&size(640, 360)));
}

fn source() -> SourceFacts {
    SourceFacts {
        hwnd: 5,
        valid: true,
        session_active: false,
        session_live_fullscreen: false,
        origin_fullscreen: None,
        window_fullscreen: false,
    }
}

#[test]
fn a_fullscreen_source_keeps_its_size() {
    let wanted = Some(size(640, 480));
    assert!(!capture_resolution_disabled_for_target(wanted, source()));
    let full = SourceFacts { window_fullscreen: true, ..source() };
    assert!(capture_resolution_disabled_for_target(wanted, full));
    assert!(!capture_resolution_disabled_for_target(None, full));
    assert!(!capture_resolution_disabled_for_target(wanted, SourceFacts { origin_fullscreen: Some(false), ..full }));
    assert!(!capture_resolution_disabled_for_target(wanted, SourceFacts { valid: false, ..full }));
}

#[test]
fn a_plan_asks_for_the_fitted_size_of_a_floating_picture() {
    let wanted = Some(size(640, 480));
    let plain = capture_resolution_plan(wanted, source(), false, size(640, 360)).unwrap();
    assert_eq!(plain, ResolutionPlan { requested: size(640, 480), applied: size(640, 480) });
    let pip = capture_resolution_plan(wanted, source(), true, size(640, 360)).unwrap();
    assert_eq!(pip.applied, size(640, 360));
    assert!(capture_resolution_plan(None, source(), true, size(640, 360)).is_none());
    assert!(capture_resolution_plan(wanted, SourceFacts { hwnd: 0, ..source() }, true, size(1, 1)).is_none());
}

#[test]
fn applying_a_size_to_the_source() {
    let wanted = Some(size(640, 480));
    let plan = ResolutionPlan { requested: size(640, 480), applied: size(640, 360) };
    assert_eq!(apply_capture_resolution_to_target(None, false, true, None), ApplyStep::Cleared { clear: true });
    assert_eq!(apply_capture_resolution_to_target(wanted, true, true, Some(plan)), ApplyStep::Noticed);
    assert_eq!(apply_capture_resolution_to_target(wanted, false, true, None), ApplyStep::Failed);
    assert_eq!(
        apply_capture_resolution_to_target(wanted, false, true, Some(plan)),
        ApplyStep::Resize { plan, announce: true }
    );
    let crop = CaptureCrop { enabled: true, left: 2, top: 0, right: 4, bottom: 0 };
    assert_eq!(after_source_resize(plan, crop, true, true), ResizeOutcome::Publish { plan, crop });
    assert_eq!(after_source_resize(plan, crop, true, false), ResizeOutcome::Refused { retract: true });
}

#[test]
fn a_size_of_the_list_is_taken_as_it_is() {
    let edit = pick_resolution(Some(size(640, 480)), "Auto");
    assert_eq!((edit.value, edit.text.as_str(), edit.changed), (Some(size(640, 480)), "640x480 (4:3)", true));
    let edit = pick_resolution(None, "Auto");
    assert_eq!((edit.value, edit.text.as_str(), edit.changed), (None, "Auto", true));
}
