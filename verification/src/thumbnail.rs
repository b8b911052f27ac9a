//! One tracked window's preview: its state machine and the exact plans of
//! protocol operations that create, redraw, move, and release it.
//!
//! The daemon's unverified shell owns the protocol connection; it generates
//! resource handles, queries live geometry, rasterizes labels, and executes
//! the operation lists computed here.  Everything decided about a thumbnail
//! — what is drawn, where it spawns, when it is shown or hidden, what is
//! released — is computed in this module on plain values.

use vstd::prelude::*;
use crate::color::RenderColor;
use crate::config::DisplayConfig;
use crate::geom::{Dimensions, Position};
use crate::snap::Rect;

verus! {

/// Compositing operators used by the preview pipeline.
#[derive(Debug, Clone, Copy, PartialEq, Eq, Structural)]
pub enum CompositeOp {
    /// Replace the destination.
    Src,
    /// Alpha-blend over the destination.
    Over,
    /// Clear the destination.
    Clear,
}

/// One protocol operation of a rendering or lifecycle plan.  The shell
/// executes these in order against the windowing connection.
#[derive(Debug, Clone, Copy, PartialEq, Eq, Structural)]
pub enum RenderOp {
    /// Create the override-redirect preview window.
    CreateWindow { window: u32, x: i16, y: i16, width: u16, height: u16 },
    /// Set the window's opacity property.
    SetOpacity { window: u32, opacity: u32 },
    /// Tag the window with the previewer's class name.
    SetClassTag { window: u32 },
    /// Ask for always-on-top state.
    SetAlwaysOnTop { window: u32 },
    MapWindow { window: u32 },
    UnmapWindow { window: u32 },
    DestroyWindow { window: u32 },
    MoveWindow { window: u32, x: i16, y: i16 },
    /// Create a solid-color fill picture for the border.
    CreateSolidFill { picture: u32, color: RenderColor },
    /// Wrap a drawable in a picture of the given format.
    CreatePicture { picture: u32, drawable: u32, format: u32 },
    FreePicture { picture: u32 },
    CreatePixmap { pixmap: u32, width: u16, height: u16 },
    FreePixmap { pixmap: u32 },
    CreateGc { gc: u32, drawable: u32, foreground: u32 },
    FreeGc { gc: u32 },
    /// Set the scale transform of a picture, 16.16 fixed point per axis.
    SetScaleTransform { picture: u32, sx: u32, sy: u32 },
    /// Composite a source picture onto a destination.
    Composite {
        op: CompositeOp,
        src: u32,
        dst: u32,
        dst_x: i16,
        dst_y: i16,
        width: u16,
        height: u16,
    },
    /// Upload the label bitmap the shell rasterized (the shell pairs this
    /// with the converted pixel bytes).
    UploadImage { pixmap: u32, gc: u32, width: u16, height: u16 },
    /// Draw the fixed minimized-state label at the given baseline point.
    DrawStatusLabel { pixmap: u32, gc: u32, x: i16, y: i16 },
    /// Bind a damage-notification handle to a drawable.
    CreateDamage { damage: u32, drawable: u32 },
    DestroyDamage { damage: u32 },
    /// Raise a window and send the activation client message for it.
    Activate { window: u32 },
}

/// A label bitmap the external glyph rasterizer produced: premultiplied
/// ARGB pixels, row-major.
pub struct RenderedText {
    pub width: usize,
    pub height: usize,
    pub data: Vec<u32>,
}

/// The display states of a thumbnail: normal (focused or not) or standing
/// in for a minimized source window.  A later focus always returns it to
/// the focused normal state.
#[derive(Debug, Clone, Copy, PartialEq, Eq, Structural)]
pub enum ThumbnailState {
    Normal { focused: bool },
    Minimized,
}

impl ThumbnailState {
    pub open spec fn spec_is_focused(self) -> bool {
        self == (ThumbnailState::Normal { focused: true })
    }

    pub open spec fn spec_is_minimized(self) -> bool {
        self is Minimized
    }

    pub fn is_focused(&self) -> (r: bool)
        ensures
            r == self.spec_is_focused(),
    {
        match self {
            ThumbnailState::Normal { focused } => *focused,
            ThumbnailState::Minimized => false,
        }
    }

    pub fn is_minimized(&self) -> (r: bool)
        ensures
            r == self.spec_is_minimized(),
    {
        match self {
            ThumbnailState::Normal { .. } => false,
            ThumbnailState::Minimized => true,
        }
    }
}

/// Pointer-drag bookkeeping: whether a drag is live, where the pointer was
/// when it started, and where the window was.
#[derive(Debug, Clone, Copy, PartialEq, Eq, Structural)]
pub struct InputState {
    pub dragging: bool,
    pub drag_start: Position,
    pub win_start: Position,
}

impl Default for InputState {
    fn default() -> (r: InputState)
        ensures
            r.dragging == false,
            r.drag_start == (Position { x: 0, y: 0 }),
            r.win_start == (Position { x: 0, y: 0 }),
    {
        InputState {
            dragging: false,
            drag_start: Position { x: 0, y: 0 },
            win_start: Position { x: 0, y: 0 },
        }
    }
}

/// The fresh protocol handles the shell generated for one thumbnail.
#[derive(Debug, Clone, Copy, PartialEq, Eq, Structural)]
pub struct ThumbnailIds {
    pub window: u32,
    pub border_fill: u32,
    pub src_picture: u32,
    pub dst_picture: u32,
    pub overlay_pixmap: u32,
    pub overlay_picture: u32,
    pub overlay_gc: u32,
    pub damage: u32,
}

/// One live preview of one tracked source window: its identity, display
/// state, drag state, fixed pixel size, and the protocol resources it owns.
/// Its current screen position is deliberately not cached: the shell
/// queries it live, because the compositor may move windows out of band.
#[derive(Debug, Clone)]
pub struct Thumbnail {
    pub character_name: String,
    pub state: ThumbnailState,
    pub visible: bool,
    pub input_state: InputState,
    pub dimensions: Dimensions,
    pub window: u32,
    pub src: u32,
    pub damage: u32,
    pub root: u32,
    pub border_fill: u32,
    pub src_picture: u32,
    pub dst_picture: u32,
    pub overlay_gc: u32,
    pub overlay_pixmap: u32,
    pub overlay_picture: u32,
}

/// The 16.16 fixed-point scale factor from a source extent to a thumbnail
/// extent, rounded to nearest.
pub fn scale_fixed(src: u16, dst: u16) -> (r: u32)
    requires
        dst > 0,
    ensures
        r == (src * 65536 + dst / 2) / (dst as int),
{
    (src as u32 * 65536 + dst as u32 / 2) / dst as u32
}

/// The capture stage: scale the source picture to the thumbnail size and
/// composite it over the previous contents.
pub open spec fn spec_capture_ops(t: Thumbnail, src_w: u16, src_h: u16) -> Seq<RenderOp> {
    seq![
        RenderOp::SetScaleTransform {
            picture: t.src_picture,
            sx: ((src_w * 65536 + t.dimensions.width / 2) / t.dimensions.width as int) as u32,
            sy: ((src_h * 65536 + t.dimensions.height / 2) / t.dimensions.height as int) as u32,
        },
        RenderOp::Composite {
            op: CompositeOp::Src,
            src: t.src_picture,
            dst: t.dst_picture,
            dst_x: 0,
            dst_y: 0,
            width: t.dimensions.width,
            height: t.dimensions.height,
        },
    ]
}

/// The overlay stage: blend the pre-rendered border-and-label surface over
/// the captured frame.
pub open spec fn spec_overlay_ops(t: Thumbnail) -> Seq<RenderOp> {
    seq![
        RenderOp::Composite {
            op: CompositeOp::Over,
            src: t.overlay_picture,
            dst: t.dst_picture,
            dst_x: 0,
            dst_y: 0,
            width: t.dimensions.width,
            height: t.dimensions.height,
        },
    ]
}

/// The label redraw plan: clear the region inside the border; when the
/// rasterized label has pixels, upload it as a temporary surface, blend it
/// at the configured offset, and free the temporaries.
pub open spec fn spec_update_name_ops(
    t: Thumbnail,
    cfg: DisplayConfig,
    rw: u16,
    rh: u16,
    text_pixmap: u32,
    text_picture: u32,
    argb_format: u32,
) -> Seq<RenderOp> {
    let clear = seq![
        RenderOp::Composite {
            op: CompositeOp::Clear,
            src: t.overlay_picture,
            dst: t.overlay_picture,
            dst_x: cfg.border_size as i16,
            dst_y: cfg.border_size as i16,
            width: (t.dimensions.width - 2 * cfg.border_size) as u16,
            height: (t.dimensions.height - 2 * cfg.border_size) as u16,
        },
    ];
    if rw > 0 && rh > 0 {
        clear + seq![
            RenderOp::CreatePixmap { pixmap: text_pixmap, width: rw, height: rh },
            RenderOp::UploadImage { pixmap: text_pixmap, gc: t.overlay_gc, width: rw, height: rh },
            RenderOp::CreatePicture {
                picture: text_picture,
                drawable: text_pixmap,
                format: argb_format,
            },
            RenderOp::Composite {
                op: CompositeOp::Over,
                src: text_picture,
                dst: t.overlay_picture,
                dst_x: cfg.text_offset.x,
                dst_y: cfg.text_offset.y,
                width: rw,
                height: rh,
            },
            RenderOp::FreePicture { picture: text_picture },
            RenderOp::FreePixmap { pixmap: text_pixmap },
        ]
    } else {
        clear
    }
}

/// The first operation of a border redraw: fill with the border color when
/// focused, clear when not.
pub open spec fn spec_border_base_op(t: Thumbnail, focused: bool) -> RenderOp {
    if focused {
        RenderOp::Composite {
            op: CompositeOp::Src,
            src: t.border_fill,
            dst: t.overlay_picture,
            dst_x: 0,
            dst_y: 0,
            width: t.dimensions.width,
            height: t.dimensions.height,
        }
    } else {
        RenderOp::Composite {
            op: CompositeOp::Clear,
            src: t.overlay_picture,
            dst: t.overlay_picture,
            dst_x: 0,
            dst_y: 0,
            width: t.dimensions.width,
            height: t.dimensions.height,
        }
    }
}

/// Where a new thumbnail spawns: the saved or inherited position when one
/// was resolved, else the source window's corner plus the fixed padding.
pub open spec fn spec_spawn_position(position: Option<Position>, src_geom: Rect) -> Position {
    match position {
        Some(p) => p,
        None => Position { x: (src_geom.x + 20) as i16, y: (src_geom.y + 20) as i16 },
    }
}

/// The creation plan up to the label redraw: the override-redirect window
/// with its properties, the border fill, the capture pictures, the overlay
/// surface with its picture and graphics context, and damage tracking on
/// the source window.
pub open spec fn spec_creation_ops(
    ids: ThumbnailIds,
    src: u32,
    cfg: DisplayConfig,
    x: i16,
    y: i16,
    dims: Dimensions,
    root_format: u32,
    argb_format: u32,
) -> Seq<RenderOp> {
    seq![
        RenderOp::CreateWindow { window: ids.window, x, y, width: dims.width, height: dims.height },
        RenderOp::SetOpacity { window: ids.window, opacity: cfg.opacity },
        RenderOp::SetClassTag { window: ids.window },
        RenderOp::SetAlwaysOnTop { window: ids.window },
        RenderOp::MapWindow { window: ids.window },
        RenderOp::CreateSolidFill { picture: ids.border_fill, color: cfg.border_color },
        RenderOp::CreatePicture { picture: ids.src_picture, drawable: src, format: root_format },
        RenderOp::CreatePicture {
            picture: ids.dst_picture,
            drawable: ids.window,
            format: root_format,
        },
        RenderOp::CreatePixmap {
            pixmap: ids.overlay_pixmap,
            width: dims.width,
            height: dims.height,
        },
        RenderOp::CreatePicture {
            picture: ids.overlay_picture,
            drawable: ids.overlay_pixmap,
            format: argb_format,
        },
        RenderOp::CreateGc {
            gc: ids.overlay_gc,
            drawable: ids.overlay_pixmap,
            foreground: cfg.text_foreground,
        },
        RenderOp::CreateDamage { damage: ids.damage, drawable: src },
    ]
}

/// The release plan: every owned resource, the window last.
pub open spec fn spec_release_ops(t: Thumbnail) -> Seq<RenderOp> {
    seq![
        RenderOp::DestroyDamage { damage: t.damage },
        RenderOp::FreeGc { gc: t.overlay_gc },
        RenderOp::FreePicture { picture: t.overlay_picture },
        RenderOp::FreePicture { picture: t.src_picture },
        RenderOp::FreePicture { picture: t.dst_picture },
        RenderOp::FreePicture { picture: t.border_fill },
        RenderOp::FreePixmap { pixmap: t.overlay_pixmap },
        RenderOp::DestroyWindow { window: t.window },
    ]
}

/// Convert premultiplied ARGB words to the byte order the image upload
/// wants (little-endian BGRA): for every pixel, its blue, green, red, and
/// alpha bytes in that order.
pub fn argb_to_bgra(data: &Vec<u32>) -> (r: Vec<u8>)
    requires
        4 * data@.len() <= usize::MAX,
    ensures
        r@.len() == 4 * data@.len(),
        forall|i: int|
            0 <= i < data@.len() ==> {
                let p = #[trigger] data@[i];
                &&& r@[4 * i] == p % 256
                &&& r@[4 * i + 1] == (p / 0x100) % 256
                &&& r@[4 * i + 2] == (p / 0x10000) % 256
                &&& r@[4 * i + 3] == p / 0x1000000
            },
{
    let n = data.len();
    let mut out: Vec<u8> = Vec::new();
    let mut i: usize = 0;
    while i < n
        invariant
            0 <= i <= n,
            n == data@.len(),
            4 * n <= usize::MAX,
            out@.len() == 4 * i,
            forall|j: int|
                0 <= j < i ==> {
                    let p = #[trigger] data@[j];
                    &&& out@[4 * j] == p % 256
                    &&& out@[4 * j + 1] == (p / 0x100) % 256
                    &&& out@[4 * j + 2] == (p / 0x10000) % 256
                    &&& out@[4 * j + 3] == p / 0x1000000
                },
        decreases n - i,
    {
        let p = data[i];
        out.push((p % 256) as u8);
        out.push(((p / 0x100) % 256) as u8);
        out.push(((p / 0x10000) % 256) as u8);
        out.push((p / 0x1000000) as u8);
        i = i + 1;
    }
    out
}

impl Thumbnail {
    /// Non-degenerate size: both extents non-zero (checked at creation).
    pub open spec fn wf(self) -> bool {
        self.dimensions.width > 0 && self.dimensions.height > 0
    }

    /// Plan one frame capture, given the source window's live size.
    pub fn capture(&self, src_w: u16, src_h: u16) -> (r: Vec<RenderOp>)
        requires
            self.wf(),
        ensures
            r@ == spec_capture_ops(*self, src_w, src_h),
    {
        let sx = scale_fixed(src_w, self.dimensions.width);
        let sy = scale_fixed(src_h, self.dimensions.height);
        let mut ops: Vec<RenderOp> = Vec::new();
        ops.push(RenderOp::SetScaleTransform { picture: self.src_picture, sx, sy });
        ops.push(
            RenderOp::Composite {
                op: CompositeOp::Src,
                src: self.src_picture,
                dst: self.dst_picture,
                dst_x: 0,
                dst_y: 0,
                width: self.dimensions.width,
                height: self.dimensions.height,
            },
        );
        proof {
            assert(ops@ =~= spec_capture_ops(*self, src_w, src_h));
        }
        ops
    }

    /// Plan the overlay blend.
    fn overlay(&self) -> (r: Vec<RenderOp>)
        ensures
            r@ == spec_overlay_ops(*self),
    {
        let mut ops: Vec<RenderOp> = Vec::new();
        ops.push(
            RenderOp::Composite {
                op: CompositeOp::Over,
                src: self.overlay_picture,
                dst: self.dst_picture,
                dst_x: 0,
                dst_y: 0,
                width: self.dimensions.width,
                height: self.dimensions.height,
            },
        );
        proof {
            assert(ops@ =~= spec_overlay_ops(*self));
        }
        ops
    }

    /// Plan one full frame update, as run on every damage notification:
    /// capture, then overlay.
    pub fn update(&self, src_w: u16, src_h: u16) -> (r: Vec<RenderOp>)
        requires
            self.wf(),
        ensures
            r@ == spec_capture_ops(*self, src_w, src_h) + spec_overlay_ops(*self),
    {
        let mut ops = self.capture(src_w, src_h);
        let mut tail = self.overlay();
        ops.append(&mut tail);
        ops
    }

    /// Plan the visibility change: nothing when already in the requested
    /// state, otherwise map or unmap the preview window.
    pub fn visibility(&mut self, visible: bool) -> (r: Vec<RenderOp>)
        ensures
            *final(self) == (Thumbnail { visible, ..*old(self) }),
            r@ == (if old(self).visible == visible {
                Seq::<RenderOp>::empty()
            } else if visible {
                seq![RenderOp::MapWindow { window: old(self).window }]
            } else {
                seq![RenderOp::UnmapWindow { window: old(self).window }]
            }),
    {
        let mut ops: Vec<RenderOp> = Vec::new();
        if visible != self.visible {
            if visible {
                ops.push(RenderOp::MapWindow { window: self.window });
            } else {
                ops.push(RenderOp::UnmapWindow { window: self.window });
            }
        }
        self.visible = visible;
        proof {
            if old(self).visible == visible {
                assert(ops@ =~= Seq::<RenderOp>::empty());
            } else if visible {
                assert(ops@ =~= seq![RenderOp::MapWindow { window: old(self).window }]);
            } else {
                assert(ops@ =~= seq![RenderOp::UnmapWindow { window: old(self).window }]);
            }
        }
        ops
    }

    /// Plan a move of the preview window.  No position is cached locally:
    /// the window system stays the single source of truth for where the
    /// thumbnail is.
    pub fn reposition(&self, x: i16, y: i16) -> (r: Vec<RenderOp>)
        ensures
            r@ == seq![RenderOp::MoveWindow { window: self.window, x, y }],
    {
        let mut ops: Vec<RenderOp> = Vec::new();
        ops.push(RenderOp::MoveWindow { window: self.window, x, y });
        proof {
            assert(ops@ =~= seq![RenderOp::MoveWindow { window: self.window, x, y }]);
        }
        ops
    }

    /// Plan a focus request for the tracked source window.
    pub fn focus(&self) -> (r: Vec<RenderOp>)
        ensures
            r@ == seq![RenderOp::Activate { window: self.src }],
    {
        let mut ops: Vec<RenderOp> = Vec::new();
        ops.push(RenderOp::Activate { window: self.src });
        proof {
            assert(ops@ =~= seq![RenderOp::Activate { window: self.src }]);
        }
        ops
    }

    /// Plan a redraw of the entity label: clear the region inside the
    /// border, then — unless the rasterized label is empty — upload the
    /// label bitmap as a temporary surface, blend it at the configured
    /// offset, and free the temporaries.  `text_pixmap` and `text_picture`
    /// are fresh handles for the temporaries; `argb_format` is the alpha
    /// picture format.
    pub fn update_name(
        &self,
        cfg: &DisplayConfig,
        rendered: &RenderedText,
        text_pixmap: u32,
        text_picture: u32,
        argb_format: u32,
    ) -> (r: Vec<RenderOp>)
        requires
            2 * cfg.border_size <= self.dimensions.width,
            2 * cfg.border_size <= self.dimensions.height,
            rendered.width <= u16::MAX,
            rendered.height <= u16::MAX,
        ensures
            r@ == spec_update_name_ops(
                *self,
                *cfg,
                rendered.width as u16,
                rendered.height as u16,
                text_pixmap,
                text_picture,
                argb_format,
            ),
    {
        let bs = cfg.border_size;
        let mut ops: Vec<RenderOp> = Vec::new();
        ops.push(
            RenderOp::Composite {
                op: CompositeOp::Clear,
                src: self.overlay_picture,
                dst: self.overlay_picture,
                dst_x: bs as i16,
                dst_y: bs as i16,
                width: self.dimensions.width - 2 * bs,
                height: self.dimensions.height - 2 * bs,
            },
        );
        let rw = rendered.width as u16;
        let rh = rendered.height as u16;
        if rw > 0 && rh > 0 {
            ops.push(RenderOp::CreatePixmap { pixmap: text_pixmap, width: rw, height: rh });
            ops.push(
                RenderOp::UploadImage {
                    pixmap: text_pixmap,
                    gc: self.overlay_gc,
                    width: rw,
                    height: rh,
                },
            );
            ops.push(
                RenderOp::CreatePicture {
                    picture: text_picture,
                    drawable: text_pixmap,
                    format: argb_format,
                },
            );
            ops.push(
                RenderOp::Composite {
                    op: CompositeOp::Over,
                    src: text_picture,
                    dst: self.overlay_picture,
                    dst_x: cfg.text_offset.x,
                    dst_y: cfg.text_offset.y,
                    width: rw,
                    height: rh,
                },
            );
            ops.push(RenderOp::FreePicture { picture: text_picture });
            ops.push(RenderOp::FreePixmap { pixmap: text_pixmap });
        }
        proof {
            assert(ops@ =~= spec_update_name_ops(
                *self,
                *cfg,
                rendered.width as u16,
                rendered.height as u16,
                text_pixmap,
                text_picture,
                argb_format,
            ));
        }
        ops
    }

    /// Plan a border redraw: fill the overlay with the border color when
    /// focused, clear it when not, then redraw the label over it.
    pub fn border(
        &self,
        focused: bool,
        cfg: &DisplayConfig,
        rendered: &RenderedText,
        text_pixmap: u32,
        text_picture: u32,
        argb_format: u32,
    ) -> (r: Vec<RenderOp>)
        requires
            2 * cfg.border_size <= self.dimensions.width,
            2 * cfg.border_size <= self.dimensions.height,
            rendered.width <= u16::MAX,
            rendered.height <= u16::MAX,
        ensures
            r@ == seq![spec_border_base_op(*self, focused)] + spec_update_name_ops(
                *self,
                *cfg,
                rendered.width as u16,
                rendered.height as u16,
                text_pixmap,
                text_picture,
                argb_format,
            ),
    {
        let mut ops: Vec<RenderOp> = Vec::new();
        if focused {
            ops.push(
                RenderOp::Composite {
                    op: CompositeOp::Src,
                    src: self.border_fill,
                    dst: self.overlay_picture,
                    dst_x: 0,
                    dst_y: 0,
                    width: self.dimensions.width,
                    height: self.dimensions.height,
                },
            );
        } else {
            ops.push(
                RenderOp::Composite {
                    op: CompositeOp::Clear,
                    src: self.overlay_picture,
                    dst: self.overlay_picture,
                    dst_x: 0,
                    dst_y: 0,
                    width: self.dimensions.width,
                    height: self.dimensions.height,
                },
            );
        }
        let mut tail = self.update_name(cfg, rendered, text_pixmap, text_picture, argb_format);
        ops.append(&mut tail);
        proof {
            assert(ops@ =~= seq![spec_border_base_op(*self, focused)] + spec_update_name_ops(
                *self,
                *cfg,
                rendered.width as u16,
                rendered.height as u16,
                text_pixmap,
                text_picture,
                argb_format,
            ));
        }
        ops
    }

    /// Transition to the minimized state and plan its display: clear the
    /// border, redraw the label, draw the fixed minimized marker centered
    /// by the font metrics the shell measured, and refresh the frame.
    pub fn minimized(
        &mut self,
        cfg: &DisplayConfig,
        rendered: &RenderedText,
        text_pixmap: u32,
        text_picture: u32,
        argb_format: u32,
        label_width: i16,
        font_ascent: i16,
        font_descent: i16,
        src_w: u16,
        src_h: u16,
    ) -> (r: Vec<RenderOp>)
        requires
            old(self).wf(),
            2 * cfg.border_size <= old(self).dimensions.width,
            2 * cfg.border_size <= old(self).dimensions.height,
            rendered.width <= u16::MAX,
            rendered.height <= u16::MAX,
            0 <= label_width <= old(self).dimensions.width,
            0 <= old(self).dimensions.height + font_ascent + font_descent <= 65534,
        ensures
            *final(self) == (Thumbnail { state: ThumbnailState::Minimized, ..*old(self) }),
            r@ == seq![spec_border_base_op(*old(self), false)] + spec_update_name_ops(
                *old(self),
                *cfg,
                rendered.width as u16,
                rendered.height as u16,
                text_pixmap,
                text_picture,
                argb_format,
            ) + seq![
                RenderOp::DrawStatusLabel {
                    pixmap: old(self).overlay_pixmap,
                    gc: old(self).overlay_gc,
                    x: ((old(self).dimensions.width - label_width) / 2) as i16,
                    y: ((old(self).dimensions.height + font_ascent + font_descent) / 2) as i16,
                },
            ] + spec_capture_ops(*old(self), src_w, src_h) + spec_overlay_ops(*old(self)),
    {
        self.state = ThumbnailState::Minimized;
        let mut ops = self.border(false, cfg, rendered, text_pixmap, text_picture, argb_format);
        let x: i32 = (self.dimensions.width as i32 - label_width as i32) / 2;
        let y: i32 = (self.dimensions.height as i32 + font_ascent as i32 + font_descent as i32)
            / 2;
        ops.push(
            RenderOp::DrawStatusLabel {
                pixmap: self.overlay_pixmap,
                gc: self.overlay_gc,
                x: x as i16,
                y: y as i16,
            },
        );
        let mut tail = self.update(src_w, src_h);
        ops.append(&mut tail);
        proof {
            assert(ops@ =~= seq![spec_border_base_op(*old(self), false)] + spec_update_name_ops(
                *old(self),
                *cfg,
                rendered.width as u16,
                rendered.height as u16,
                text_pixmap,
                text_picture,
                argb_format,
            ) + seq![
                RenderOp::DrawStatusLabel {
                    pixmap: old(self).overlay_pixmap,
                    gc: old(self).overlay_gc,
                    x: ((old(self).dimensions.width - label_width) / 2) as i16,
                    y: ((old(self).dimensions.height + font_ascent + font_descent) / 2) as i16,
                },
            ] + spec_capture_ops(*old(self), src_w, src_h) + spec_overlay_ops(*old(self)));
        }
        ops
    }

    /// Record an identity change: carry the new name and plan the label
    /// redraw, plus a move when the new identity has a saved position.
    pub fn set_character_name(
        &mut self,
        new_name: String,
        new_position: Option<Position>,
        cfg: &DisplayConfig,
        rendered: &RenderedText,
        text_pixmap: u32,
        text_picture: u32,
        argb_format: u32,
    ) -> (r: Vec<RenderOp>)
        requires
            2 * cfg.border_size <= old(self).dimensions.width,
            2 * cfg.border_size <= old(self).dimensions.height,
            rendered.width <= u16::MAX,
            rendered.height <= u16::MAX,
        ensures
            *final(self) == (Thumbnail { character_name: new_name, ..*old(self) }),
            r@ == spec_update_name_ops(
                *old(self),
                *cfg,
                rendered.width as u16,
                rendered.height as u16,
                text_pixmap,
                text_picture,
                argb_format,
            ) + (match new_position {
                Some(p) => seq![
                    RenderOp::MoveWindow { window: old(self).window, x: p.x, y: p.y },
                ],
                None => Seq::<RenderOp>::empty(),
            }),
    {
        self.character_name = new_name;
        let mut ops = self.update_name(cfg, rendered, text_pixmap, text_picture, argb_format);
        match new_position {
            Some(p) => {
                ops.push(RenderOp::MoveWindow { window: self.window, x: p.x, y: p.y });
            },
            None => {},
        }
        proof {
            assert(ops@ =~= spec_update_name_ops(
                *old(self),
                *cfg,
                rendered.width as u16,
                rendered.height as u16,
                text_pixmap,
                text_picture,
                argb_format,
            ) + (match new_position {
                Some(p) => seq![
                    RenderOp::MoveWindow { window: old(self).window, x: p.x, y: p.y },
                ],
                None => Seq::<RenderOp>::empty(),
            }));
        }
        ops
    }

    /// Validate and plan the creation of a thumbnail for a tracked source
    /// window.  Zero dimensions are refused up front, before any operation
    /// is planned, so a failed construction leaks no protocol window.  The
    /// spawn position is the saved or inherited one when given, else the
    /// source window's corner plus the fixed padding offset.
    pub fn new(
        ids: ThumbnailIds,
        character_name: String,
        src: u32,
        root: u32,
        cfg: &DisplayConfig,
        position: Option<Position>,
        src_geom: Rect,
        dimensions: Dimensions,
        root_format: u32,
        argb_format: u32,
        rendered: &RenderedText,
        text_pixmap: u32,
        text_picture: u32,
    ) -> (r: Result<(Thumbnail, Vec<RenderOp>), String>)
        requires
            src_geom.x + 20 <= i16::MAX,
            src_geom.y + 20 <= i16::MAX,
            dimensions.width > 0 ==> 2 * cfg.border_size <= dimensions.width,
            dimensions.height > 0 ==> 2 * cfg.border_size <= dimensions.height,
            rendered.width <= u16::MAX,
            rendered.height <= u16::MAX,
        ensures
            r is Err <==> (dimensions.width == 0 || dimensions.height == 0),
            match r {
                Ok((t, ops)) => {
                    let at = spec_spawn_position(position, src_geom);
                    &&& t == (Thumbnail {
                        character_name,
                        state: ThumbnailState::Normal { focused: false },
                        visible: true,
                        input_state: InputState {
                            dragging: false,
                            drag_start: Position { x: 0, y: 0 },
                            win_start: Position { x: 0, y: 0 },
                        },
                        dimensions,
                        window: ids.window,
                        src,
                        damage: ids.damage,
                        root,
                        border_fill: ids.border_fill,
                        src_picture: ids.src_picture,
                        dst_picture: ids.dst_picture,
                        overlay_gc: ids.overlay_gc,
                        overlay_pixmap: ids.overlay_pixmap,
                        overlay_picture: ids.overlay_picture,
                    })
                    &&& ops@ == spec_creation_ops(
                        ids,
                        src,
                        *cfg,
                        at.x,
                        at.y,
                        dimensions,
                        root_format,
                        argb_format,
                    ) + spec_update_name_ops(
                        t,
                        *cfg,
                        rendered.width as u16,
                        rendered.height as u16,
                        text_pixmap,
                        text_picture,
                        argb_format,
                    )
                },
                Err(e) => e@ == "invalid thumbnail dimensions: width and height must be non-zero"@,
            },
    {
        if dimensions.width == 0 || dimensions.height == 0 {
            return Err(
                "invalid thumbnail dimensions: width and height must be non-zero".to_owned(),
            );
        }
        let at = match position {
            Some(p) => p,
            None => {
                let px: i32 = src_geom.x as i32 + 20;
                let py: i32 = src_geom.y as i32 + 20;
                Position { x: px as i16, y: py as i16 }
            },
        };
        let thumbnail = Thumbnail {
            character_name,
            state: ThumbnailState::Normal { focused: false },
            visible: true,
            input_state: InputState {
                dragging: false,
                drag_start: Position { x: 0, y: 0 },
                win_start: Position { x: 0, y: 0 },
            },
            dimensions,
            window: ids.window,
            src,
            damage: ids.damage,
            root,
            border_fill: ids.border_fill,
            src_picture: ids.src_picture,
            dst_picture: ids.dst_picture,
            overlay_gc: ids.overlay_gc,
            overlay_pixmap: ids.overlay_pixmap,
            overlay_picture: ids.overlay_picture,
        };
        let mut ops: Vec<RenderOp> = Vec::new();
        ops.push(
            RenderOp::CreateWindow {
                window: ids.window,
                x: at.x,
                y: at.y,
                width: dimensions.width,
                height: dimensions.height,
            },
        );
        ops.push(RenderOp::SetOpacity { window: ids.window, opacity: cfg.opacity });
        ops.push(RenderOp::SetClassTag { window: ids.window });
        ops.push(RenderOp::SetAlwaysOnTop { window: ids.window });
        ops.push(RenderOp::MapWindow { window: ids.window });
        ops.push(RenderOp::CreateSolidFill { picture: ids.border_fill, color: cfg.border_color });
        ops.push(
            RenderOp::CreatePicture {
                picture: ids.src_picture,
                drawable: src,
                format: root_format,
            },
        );
        ops.push(
            RenderOp::CreatePicture {
                picture: ids.dst_picture,
                drawable: ids.window,
                format: root_format,
            },
        );
        ops.push(
            RenderOp::CreatePixmap {
                pixmap: ids.overlay_pixmap,
                width: dimensions.width,
                height: dimensions.height,
            },
        );
        ops.push(
            RenderOp::CreatePicture {
                picture: ids.overlay_picture,
                drawable: ids.overlay_pixmap,
                format: argb_format,
            },
        );
        ops.push(
            RenderOp::CreateGc {
                gc: ids.overlay_gc,
                drawable: ids.overlay_pixmap,
                foreground: cfg.text_foreground,
            },
        );
        ops.push(RenderOp::CreateDamage { damage: ids.damage, drawable: src });
        let mut tail = thumbnail.update_name(cfg, rendered, text_pixmap, text_picture, argb_format);
        ops.append(&mut tail);
        proof {
            let at_s = spec_spawn_position(position, src_geom);
            assert(at == at_s);
            assert(ops@ =~= spec_creation_ops(
                ids,
                src,
                *cfg,
                at_s.x,
                at_s.y,
                dimensions,
                root_format,
                argb_format,
            ) + spec_update_name_ops(
                thumbnail,
                *cfg,
                rendered.width as u16,
                rendered.height as u16,
                text_pixmap,
                text_picture,
                argb_format,
            ));
        }
        Ok((thumbnail, ops))
    }

    /// Plan the release of everything this thumbnail owns: the damage
    /// handle, the graphics context, every picture, the overlay surface,
    /// and the preview window itself.  The shell attempts each operation
    /// independently, so one failure cannot block the rest.
    pub fn release_ops(&self) -> (r: Vec<RenderOp>)
        ensures
            r@ == spec_release_ops(*self),
    {
        let mut ops: Vec<RenderOp> = Vec::new();
        ops.push(RenderOp::DestroyDamage { damage: self.damage });
        ops.push(RenderOp::FreeGc { gc: self.overlay_gc });
        ops.push(RenderOp::FreePicture { picture: self.overlay_picture });
        ops.push(RenderOp::FreePicture { picture: self.src_picture });
        ops.push(RenderOp::FreePicture { picture: self.dst_picture });
        ops.push(RenderOp::FreePicture { picture: self.border_fill });
        ops.push(RenderOp::FreePixmap { pixmap: self.overlay_pixmap });
        ops.push(RenderOp::DestroyWindow { window: self.window });
        proof {
            assert(ops@ =~= spec_release_ops(*self));
        }
        ops
    }

    /// Whether a root-space point falls on this thumbnail, judged against
    /// its live-queried geometry (cached geometry could be stale if the
    /// compositor moved the window).
    pub fn is_hovered(&self, x: i16, y: i16, geom: Rect) -> (r: bool)
        requires
            geom.wf(),
        ensures
            r == (geom.x <= x && x <= geom.spec_right() && geom.y <= y && y
                <= geom.spec_bottom()),
    {
        let right = geom.right();
        let bottom = geom.bottom();
        geom.x <= x && x <= right && geom.y <= y && y <= bottom
    }
}

} // verus!
