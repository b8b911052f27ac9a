use eve_l_preview::color::RenderColor;
use eve_l_preview::config::DisplayConfig;
use eve_l_preview::geom::{Dimensions, Position, TextOffset};
use eve_l_preview::snap::Rect;
use eve_l_preview::thumbnail::{
    argb_to_bgra, scale_fixed, CompositeOp, InputState, RenderOp, RenderedText, Thumbnail,
    ThumbnailIds, ThumbnailState,
};

fn display_config() -> DisplayConfig {
    DisplayConfig {
        opacity: 0xCC000000,
        border_size: 3,
        border_color: RenderColor { red: 65535, green: 0, blue: 0, alpha: 65535 },
        text_offset: TextOffset { x: 10, y: 20 },
        text_foreground: 0xFFFFFFFF,
        hide_when_no_focus: false,
    }
}

fn ids() -> ThumbnailIds {
    ThumbnailIds {
        window: 100,
        border_fill: 101,
        src_picture: 102,
        dst_picture: 103,
        overlay_pixmap: 104,
        overlay_picture: 105,
        overlay_gc: 106,
        damage: 107,
    }
}

fn empty_label() -> RenderedText {
    RenderedText { width: 0, height: 0, data: Vec::new() }
}

fn sample_thumbnail() -> Thumbnail {
    let (t, _) = Thumbnail::new(
        ids(),
        "Alice".to_string(),
        55,
        1,
        &display_config(),
        Some(Position { x: 40, y: 50 }),
        Rect { x: 300, y: 400, width: 1920, height: 1080 },
        Dimensions { width: 250, height: 141 },
        7,
        8,
        &empty_label(),
        200,
        201,
    )
    .unwrap();
    t
}

#[test]
fn construction_rejects_zero_dimensions() {
    for (w, h) in [(0u16, 141u16), (250, 0), (0, 0)] {
        let r = Thumbnail::new(
            ids(),
            "Alice".to_string(),
            55,
            1,
            &display_config(),
            None,
            Rect { x: 0, y: 0, width: 100, height: 100 },
            Dimensions { width: w, height: h },
            7,
            8,
            &empty_label(),
            200,
            201,
        );
        // A descriptive error, and no operations planned: nothing to leak.
        let msg = r.err().unwrap();
        assert!(msg.contains("non-zero"));
    }
}

#[test]
fn construction_spawns_at_source_corner_plus_padding() {
    let (t, ops) = Thumbnail::new(
        ids(),
        "Alice".to_string(),
        55,
        1,
        &display_config(),
        None,
        Rect { x: 300, y: 400, width: 1920, height: 1080 },
        Dimensions { width: 250, height: 141 },
        7,
        8,
        &empty_label(),
        200,
        201,
    )
    .unwrap();
    assert_eq!(t.character_name, "Alice");
    assert_eq!(t.state, ThumbnailState::Normal { focused: false });
    assert!(t.visible);
    assert_eq!(t.input_state, InputState { dragging: false, drag_start: Position { x: 0, y: 0 }, win_start: Position { x: 0, y: 0 } });
    // Without a saved position the preview spawns 20px inside the source.
    assert_eq!(
        ops[0],
        RenderOp::CreateWindow { window: 100, x: 320, y: 420, width: 250, height: 141 }
    );
    // The damage handle is bound to the source window.
    assert!(ops.contains(&RenderOp::CreateDamage { damage: 107, drawable: 55 }));
}

#[test]
fn construction_uses_saved_position_when_given() {
    let (_, ops) = Thumbnail::new(
        ids(),
        "Alice".to_string(),
        55,
        1,
        &display_config(),
        Some(Position { x: 5, y: 6 }),
        Rect { x: 300, y: 400, width: 1920, height: 1080 },
        Dimensions { width: 250, height: 141 },
        7,
        8,
        &empty_label(),
        200,
        201,
    )
    .unwrap();
    assert_eq!(
        ops[0],
        RenderOp::CreateWindow { window: 100, x: 5, y: 6, width: 250, height: 141 }
    );
}

#[test]
fn scale_factor_is_16_16_fixed_point() {
    // Identity scale.
    assert_eq!(scale_fixed(250, 250), 65536);
    // Downscale 1920 -> 250: 1920/250 * 65536, rounded.
    assert_eq!(scale_fixed(1920, 250), (1920u32 * 65536 + 125) / 250);
    // Degenerate source is representable.
    assert_eq!(scale_fixed(0, 250), 0);
}

#[test]
fn frame_update_is_capture_then_overlay() {
    let t = sample_thumbnail();
    let ops = t.update(1920, 1080);
    assert_eq!(ops.len(), 3);
    assert_eq!(
        ops[0],
        RenderOp::SetScaleTransform {
            picture: t.src_picture,
            sx: scale_fixed(1920, 250),
            sy: scale_fixed(1080, 141),
        }
    );
    assert_eq!(
        ops[1],
        RenderOp::Composite {
            op: CompositeOp::Src,
            src: t.src_picture,
            dst: t.dst_picture,
            dst_x: 0,
            dst_y: 0,
            width: 250,
            height: 141,
        }
    );
    assert_eq!(
        ops[2],
        RenderOp::Composite {
            op: CompositeOp::Over,
            src: t.overlay_picture,
            dst: t.dst_picture,
            dst_x: 0,
            dst_y: 0,
            width: 250,
            height: 141,
        }
    );
}

#[test]
fn label_redraw_uploads_and_frees_temporaries() {
    let t = sample_thumbnail();
    let cfg = display_config();
    let label = RenderedText { width: 60, height: 18, data: vec![0; 60 * 18] };
    let ops = t.update_name(&cfg, &label, 300, 301, 8);
    // Clear the inset region, then five operations for the label bitmap,
    // then free both temporaries.
    assert_eq!(ops.len(), 7);
    assert_eq!(
        ops[0],
        RenderOp::Composite {
            op: CompositeOp::Clear,
            src: t.overlay_picture,
            dst: t.overlay_picture,
            dst_x: 3,
            dst_y: 3,
            width: 250 - 6,
            height: 141 - 6,
        }
    );
    assert_eq!(ops[1], RenderOp::CreatePixmap { pixmap: 300, width: 60, height: 18 });
    assert_eq!(ops[6], RenderOp::FreePixmap { pixmap: 300 });
    assert!(ops.contains(&RenderOp::FreePicture { picture: 301 }));

    // An empty label only clears.
    let ops = t.update_name(&cfg, &empty_label(), 300, 301, 8);
    assert_eq!(ops.len(), 1);
}

#[test]
fn visibility_changes_only_when_needed() {
    let mut t = sample_thumbnail();
    assert!(t.visible);
    assert_eq!(t.visibility(true), vec![]);
    assert_eq!(t.visibility(false), vec![RenderOp::UnmapWindow { window: t.window }]);
    assert!(!t.visible);
    assert_eq!(t.visibility(true), vec![RenderOp::MapWindow { window: t.window }]);
}

#[test]
fn minimized_enters_the_minimized_state_and_centers_marker() {
    let mut t = sample_thumbnail();
    let cfg = display_config();
    let ops = t.minimized(&cfg, &empty_label(), 300, 301, 8, 72, 11, 2, 1920, 1080);
    assert_eq!(t.state, ThumbnailState::Minimized);
    // The marker is centered from the measured text extents.
    assert!(ops.contains(&RenderOp::DrawStatusLabel {
        pixmap: t.overlay_pixmap,
        gc: t.overlay_gc,
        x: (250 - 72) / 2,
        y: (141 + 11 + 2) / 2,
    }));
}

#[test]
fn identity_change_redraws_and_may_move() {
    let mut t = sample_thumbnail();
    let cfg = display_config();
    let ops = t.set_character_name("Bob".to_string(), Some(Position { x: 9, y: 8 }), &cfg, &empty_label(), 300, 301, 8);
    assert_eq!(t.character_name, "Bob");
    assert_eq!(*ops.last().unwrap(), RenderOp::MoveWindow { window: t.window, x: 9, y: 8 });

    let ops = t.set_character_name("Carol".to_string(), None, &cfg, &empty_label(), 300, 301, 8);
    assert_eq!(t.character_name, "Carol");
    assert!(!ops.iter().any(|o| matches!(o, RenderOp::MoveWindow { .. })));
}

#[test]
fn release_covers_every_owned_resource() {
    let t = sample_thumbnail();
    let ops = t.release_ops();
    assert_eq!(
        ops,
        vec![
            RenderOp::DestroyDamage { damage: t.damage },
            RenderOp::FreeGc { gc: t.overlay_gc },
            RenderOp::FreePicture { picture: t.overlay_picture },
            RenderOp::FreePicture { picture: t.src_picture },
            RenderOp::FreePicture { picture: t.dst_picture },
            RenderOp::FreePicture { picture: t.border_fill },
            RenderOp::FreePixmap { pixmap: t.overlay_pixmap },
            RenderOp::DestroyWindow { window: t.window },
        ]
    );
}

#[test]
fn hover_test_is_inclusive_of_edges() {
    let t = sample_thumbnail();
    let g = Rect { x: 10, y: 10, width: 100, height: 50 };
    assert!(t.is_hovered(10, 10, g));
    assert!(t.is_hovered(110, 60, g));
    assert!(t.is_hovered(50, 30, g));
    assert!(!t.is_hovered(9, 30, g));
    assert!(!t.is_hovered(111, 30, g));
    assert!(!t.is_hovered(50, 61, g));
}

#[test]
fn pixel_conversion_is_little_endian_bgra() {
    let data = vec![0xAABBCCDDu32, 0x01020304];
    let bytes = argb_to_bgra(&data);
    assert_eq!(bytes, vec![0xDD, 0xCC, 0xBB, 0xAA, 0x04, 0x03, 0x02, 0x01]);
}

#[test]
fn focus_plan_activates_the_source_window() {
    let t = sample_thumbnail();
    assert_eq!(t.focus(), vec![RenderOp::Activate { window: t.src }]);
    assert_eq!(t.reposition(1, 2), vec![RenderOp::MoveWindow { window: t.window, x: 1, y: 2 }]);
}
