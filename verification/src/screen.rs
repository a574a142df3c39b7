//! The picture that goes to the display: a frame of a core fitted into
//! the fixed size of the screen, and the toast that is shown over it.

use crate::colour::background_colour;
use crate::commands::ScreenMessage;
use crate::commands::ScreenMessageView;
use crate::commands::ScreenToast;
use crate::commands::ScreenToastView;
use vstd::prelude::*;
use vstd::string::*;

verus! {

/// Where a frame of `size` pixels starts on a screen of `room` pixels,
/// along one axis: in the middle where it is smaller, at the edge where
/// it is not.
pub open spec fn offset_of(size: int, room: int) -> int {
    if size > room {
        0
    } else {
        (room - size) / 2
    }
}

/// How many pixels of a frame of `size` pixels are left out before the
/// first one shown on a screen of `room` pixels, along one axis: half of
/// the excess where the frame is larger, none where it is not.
pub open spec fn skip_of(size: int, room: int) -> int {
    if size > room {
        (size - room) / 2
    } else {
        0
    }
}

/// The pixel of a frame at column `x` of row `y`: two bytes, the low one
/// first, in rows of `pitch` bytes.
pub open spec fn source_pixel(data: Seq<u8>, pitch: int, x: int, y: int) -> u16 {
    (data[x * 2 + y * pitch] as u16) | ((data[x * 2 + y * pitch + 1] as u16) << 8)
}

/// What the screen of `w` by `h` pixels shows at column `x` of row `y`
/// for a frame of `width` by `height` pixels: the frame, centred and
/// cropped to the screen, and the background round it.
pub open spec fn screen_pixel(
    w: int,
    h: int,
    width: int,
    height: int,
    pitch: int,
    data: Seq<u8>,
    background: u16,
    x: int,
    y: int,
) -> u16 {
    let sx = x - offset_of(width, w);
    let sy = y - offset_of(height, h);
    if 0 <= sx < width && 0 <= sy < height {
        source_pixel(data, pitch, sx + skip_of(width, w), sy + skip_of(height, h))
    } else {
        background
    }
}

/// The colour round a frame that is smaller than the screen.
pub open spec fn border() -> u16 {
    0x98D5
}

/// Reads a pixel of a frame.
fn read_pixel(data: &[u8], pitch: usize, x: usize, y: usize) -> (r: u16)
    requires
        x <= 0xFFFF,
        y <= 0xFFFF,
        pitch <= 0xFFFF,
        x * 2 + y * pitch + 1 < data@.len(),
    ensures
        r == source_pixel(data@, pitch as int, x as int, y as int),
{
    assert(y * pitch <= 0xFFFF * 0xFFFF) by (nonlinear_arith)
        requires
            y <= 0xFFFF,
            pitch <= 0xFFFF,
    ;
    let i = x * 2 + y * pitch;
    (data[i] as u16) | ((data[i + 1] as u16) << 8)
}

/// The first `n` pixels of a picture are what the screen shows there.
pub open spec fn drawn_upto(
    fb: Seq<u16>,
    n: int,
    w: int,
    h: int,
    width: int,
    height: int,
    pitch: int,
    data: Seq<u8>,
) -> bool {
    forall|x: int, y: int|
        0 <= x < w && 0 <= y < h && y * w + x < n ==> #[trigger] fb[y * w + x] == screen_pixel(
            w,
            h,
            width,
            height,
            pitch,
            data,
            border(),
            x,
            y,
        )
}

/// A place in a row of a picture comes before every place of a later row.
proof fn lemma_row_order(w: int, x1: int, y1: int, x2: int, y2: int)
    requires
        0 <= x1 < w,
        0 <= x2 < w,
        0 <= y1,
        0 <= y2,
    ensures
        y1 < y2 ==> y1 * w + x1 < y2 * w + x2,
        y1 * w + x1 == y2 * w + x2 ==> x1 == x2 && y1 == y2,
        0 <= y1 * w + x1,
{
    assert(y1 < y2 ==> (y1 + 1) * w <= y2 * w) by (nonlinear_arith)
        requires
            w > 0,
    ;
    assert(y2 < y1 ==> (y2 + 1) * w <= y1 * w) by (nonlinear_arith)
        requires
            w > 0,
    ;
    assert((y1 + 1) * w == y1 * w + w) by (nonlinear_arith);
    assert((y2 + 1) * w == y2 * w + w) by (nonlinear_arith);
    assert(0 <= y1 * w) by (nonlinear_arith)
        requires
            0 <= y1,
            w > 0,
    ;
}

/// Fits a frame of a core into a screen of `w` by `h` pixels. The frame
/// has `width` by `height` pixels of two bytes each, in rows of `pitch`
/// bytes. Where the frame is larger than the screen its middle is shown;
/// where it is smaller it stands in the middle, with the background
/// colour round it.
pub fn draw(w: u16, h: u16, width: u16, height: u16, pitch: u16, data: &[u8]) -> (fb: Vec<u16>)
    requires
        pitch >= 2 * width,
        data@.len() >= pitch * height,
    ensures
        fb@.len() == w * h,
        drawn_upto(
            fb@,
            w * h,
            w as int,
            h as int,
            width as int,
            height as int,
            pitch as int,
            data@,
        ),
{
    let mut fb: Vec<u16> = Vec::new();
    let ws: usize = w as usize;
    let hs: usize = h as usize;
    let xsz: usize = width as usize;
    let ysz: usize = height as usize;
    let psz: usize = pitch as usize;

    // Drawing to the display is always done at full screen size,
    // so fill in the background.
    let color = background_colour();

    // Offset for output
    let xoff: usize = if xsz > ws {
        0
    } else {
        (ws - xsz) / 2
    };
    let yoff: usize = if ysz > hs {
        0
    } else {
        (hs - ysz) / 2
    };
    // Offset for input
    let xskip: usize = if xsz > ws {
        (xsz - ws) / 2
    } else {
        0
    };
    let yskip: usize = if ysz > hs {
        (ysz - hs) / 2
    } else {
        0
    };
    let ghost wi = w as int;
    let ghost hi = h as int;
    let ghost wd = width as int;
    let ghost hd = height as int;
    let ghost pi = pitch as int;
    let mut y: usize = 0;
    while y < hs
        invariant
            y <= hs,
            ws == w,
            hs == h,
            xsz == width,
            ysz == height,
            psz == pitch,
            wi == w,
            hi == h,
            wd == width,
            hd == height,
            pi == pitch,
            color == border(),
            xoff == offset_of(wd, wi),
            yoff == offset_of(hd, hi),
            xskip == skip_of(wd, wi),
            yskip == skip_of(hd, hi),
            pitch >= 2 * width,
            data@.len() >= pitch * height,
            fb@.len() == y * ws,
            drawn_upto(fb@, y * ws, wi, hi, wd, hd, pi, data@),
        decreases hs - y,
    {
        let mut x: usize = 0;
        assert(y * ws + ws == (y + 1) * ws) by (nonlinear_arith);
        assert((y + 1) * ws <= hs * ws) by (nonlinear_arith)
            requires
                y < hs,
        ;
        assert(hs * ws <= 0xFFFF * 0xFFFF) by (nonlinear_arith)
            requires
                hs <= 0xFFFF,
                ws <= 0xFFFF,
        ;
        while x < ws
            invariant
                x <= ws,
                y < hs,
                ws == w,
                hs == h,
                xsz == width,
                ysz == height,
                psz == pitch,
                wi == w,
                hi == h,
                wd == width,
                hd == height,
                pi == pitch,
                color == border(),
                xoff == offset_of(wd, wi),
                yoff == offset_of(hd, hi),
                xskip == skip_of(wd, wi),
                yskip == skip_of(hd, hi),
                pitch >= 2 * width,
                data@.len() >= pitch * height,
                y * ws + ws <= 0xFFFF * 0xFFFF,
                fb@.len() == y * ws + x,
                drawn_upto(fb@, y * ws + x, wi, hi, wd, hd, pi, data@),
            decreases ws - x,
        {
            let ghost before = fb@;
            let d = if x >= xoff && x - xoff < xsz && y >= yoff && y - yoff < ysz {
                let sx = x - xoff + xskip;
                let sy = y - yoff + yskip;
                assert(sx < xsz && sy < ysz);
                assert(sx * 2 + sy * psz + 1 < psz * ysz) by (nonlinear_arith)
                    requires
                        sx < xsz,
                        sy < ysz,
                        psz >= 2 * xsz,
                ;
                assert(sx * 2 + sy * psz + 1 < 0xFFFF * 0xFFFF) by (nonlinear_arith)
                    requires
                        sx * 2 + sy * psz + 1 < psz * ysz,
                        psz <= 0xFFFF,
                        ysz <= 0xFFFF,
                ;
                read_pixel(data, psz, sx, sy)
            } else {
                color
            };
            fb.push(d);
            assert forall|x2: int, y2: int|
                0 <= x2 < wi && 0 <= y2 < hi && y2 * wi + x2 < y * ws + x + 1 implies #[trigger] fb@[y2
                    * wi + x2] == screen_pixel(wi, hi, wd, hd, pi, data@, border(), x2, y2) by {
                lemma_row_order(wi, x2, y2, x as int, y as int);
                if y2 * wi + x2 < y * ws + x {
                    assert(fb@[y2 * wi + x2] == before[y2 * wi + x2]);
                } else {
                    assert(x2 == x && y2 == y);
                }
            }
            x += 1;
        }
        y += 1;
    }
    assert(hs * ws == w * h) by (nonlinear_arith)
        requires
            hs == h,
            ws == w,
    ;
    fb
}

/// Whether a full picture for a screen of `w` by `h` pixels has the
/// right number of pixels.
pub fn full_frame_fits(w: u16, h: u16, data: &[u16]) -> (r: bool)
    ensures
        r == (data@.len() == w * h),
{
    assert(w * h <= 0xFFFF * 0xFFFF) by (nonlinear_arith)
        requires
            w <= 0xFFFF,
            h <= 0xFFFF,
    ;
    data.len() == (w as usize) * (h as usize)
}

/// A picture in memory, row by row.
pub struct Framebuffer {
    width: u16,
    height: u16,
    buffer: Vec<u16>,
}

impl Framebuffer {
    #[verifier::type_invariant]
    closed spec fn inv(self) -> bool {
        self.buffer@.len() == self.width * self.height
    }

    /// The width of the picture.
    pub closed spec fn w(&self) -> u16 {
        self.width
    }

    /// The height of the picture.
    pub closed spec fn h(&self) -> u16 {
        self.height
    }

    /// The pixels of the picture, row by row.
    pub closed spec fn pixels(&self) -> Seq<u16> {
        self.buffer@
    }

    /// Takes a buffer of the right size as a picture.
    pub fn new(width: u16, height: u16, buffer: Vec<u16>) -> (r: Framebuffer)
        requires
            buffer@.len() == width * height,
        ensures
            r.w() == width,
            r.h() == height,
            r.pixels() == buffer@,
    {
        Framebuffer { width, height, buffer }
    }

    pub fn data(&self) -> (d: &[u16])
        ensures
            d@ == self.pixels(),
            d@.len() == self.w() * self.h(),
    {
        proof {
            use_type_invariant(self);
        }
        self.buffer.as_slice()
    }

    pub fn dim(&self) -> (d: (u16, u16))
        ensures
            d == (self.w(), self.h()),
    {
        (self.width, self.height)
    }

    pub fn reclaim(self) -> (b: Vec<u16>)
        ensures
            b@ == self.pixels(),
            b@.len() == self.w() * self.h(),
    {
        proof {
            use_type_invariant(&self);
        }
        self.buffer
    }

    /// Whether a pixel at the given place is taken: the place must lie
    /// inside the picture, and not in its first row or column.
    pub open spec fn takes(&self, x: i32, y: i32) -> bool {
        (x > 0 && x < self.w()) && (y > 0 && y < self.h())
    }

    /// Sets one pixel. A pixel that is not taken is passed over.
    pub fn set_pixel(&mut self, x: i32, y: i32, colour: u16)
        ensures
            final(self).w() == old(self).w(),
            final(self).h() == old(self).h(),
            final(self).pixels() == if old(self).takes(x, y) {
                old(self).pixels().update(x + y * old(self).w(), colour)
            } else {
                old(self).pixels()
            },
    {
        proof {
            use_type_invariant(&*self);
        }
        let width: i32 = self.width as i32;
        let height: i32 = self.height as i32;
        if (x > 0 && x < width) && (y > 0 && y < height) {
            assert(0 <= x + y * width < width * height && y * width <= 0xFFFF * 0xFFFF)
                by (nonlinear_arith)
                requires
                    0 < x < width,
                    0 < y < height,
                    width <= 0xFFFF,
                    height <= 0xFFFF,
            ;
            // Calculate the index in the framebuffer.
            let index: usize = (x as usize) + (y as usize) * (width as usize);
            let mut taken = Framebuffer { width: 0, height: 0, buffer: Vec::new() };
            std::mem::swap(self, &mut taken);
            let Framebuffer { width, height, mut buffer } = taken;
            buffer.set(index, colour);
            *self = Framebuffer { width, height, buffer };
        }
    }
}

/// Height of the band that a toast covers, in pixels.
pub const TOAST_HEIGHT: u32 = 30;

/// Whether the pixel of the band of a toast is darkened. The band is
/// darkened like a chequerboard: `n` counts the pixels of the band row by
/// row, and `y` is the row of the pixel on screen. On a screen of even
/// width every other pixel of a row is dark, and the rows are offset
/// against each other; on one of odd width counting alone does that.
pub fn toast_shade(n: i32, y: i32, width: u32) -> (dark: bool)
    requires
        i32::MIN <= n + y <= i32::MAX,
    ensures
        dark == if width % 2 == 0 {
            (n + y) % 2 == 0
        } else {
            n % 2 == 0
        },
{
    let index = if width % 2 == 0 {
        // Even width, so add y coord to form checkerboard
        n + y
    } else {
        // Unlikely to get an odd width screen, but if so, no need to
        // include the y coordinate.
        n
    };
    index % 2 == 0
}

/// Width and height of a sprite, in pixels.
pub const SPRITE_DIM: u32 = 16;

/// The gap between a sprite and the edge of the band of a toast.
pub const SPRITE_PAD: u32 = 7;

/// Where the text of a toast starts, in pixels from the left.
pub const TOAST_LEFT_MARGIN: i32 = 30;

/// How far below the middle of the screen the text of a toast is written.
pub const TOAST_FONT_OFFSET: i32 = 6;

/// Where the parts of a toast go, in pixels.
#[derive(Clone, Copy, Debug, PartialEq, Eq, Structural)]
pub struct ToastLayout {
    /// The top of the band.
    pub band_top: i32,
    /// The corner of the sprite.
    pub sprite_x: i32,
    pub sprite_y: i32,
    /// The corner and the size of the volume bar.
    pub bar_x: i32,
    pub bar_y: i32,
    pub bar_width: u32,
    pub bar_height: u32,
    /// Where the text is written.
    pub text_x: i32,
    pub text_y: i32,
}

/// The layout of a toast on a screen of the given width whose middle row
/// is `centre_y`: the band is centred on the middle row, the sprite stands
/// at its left with a gap all round, the volume bar fills the rest of the
/// width but for gaps, and the text is written a little below the middle.
pub open spec fn layout_of(width: u32, centre_y: i32) -> ToastLayout {
    ToastLayout {
        band_top: (centre_y - 15) as i32,
        sprite_x: 7,
        sprite_y: (centre_y - 15 + 7) as i32,
        bar_x: 30,
        bar_y: (centre_y - 15 + 7) as i32,
        bar_width: (width - 44) as u32,
        bar_height: SPRITE_DIM,
        text_x: TOAST_LEFT_MARGIN,
        text_y: (centre_y + TOAST_FONT_OFFSET) as i32,
    }
}

/// Lays out a toast. The screen must be wide enough for the sprite and
/// the gaps round the volume bar.
pub fn toast_layout(width: u32, centre_y: i32) -> (l: ToastLayout)
    requires
        width >= 4 * SPRITE_PAD + SPRITE_DIM,
        i32::MIN + 15 <= centre_y <= i32::MAX - TOAST_FONT_OFFSET,
    ensures
        l == layout_of(width, centre_y),
{
    let height: i32 = 30;
    let pad: i32 = 7;
    let dim: i32 = 16;
    let band_top = centre_y - (height / 2);
    ToastLayout {
        band_top,
        sprite_x: pad,
        sprite_y: band_top + pad,
        bar_x: pad * 2 + dim,
        bar_y: band_top + pad,
        bar_width: width - SPRITE_PAD * 4 - SPRITE_DIM,
        bar_height: SPRITE_DIM,
        text_x: TOAST_LEFT_MARGIN,
        text_y: centre_y + TOAST_FONT_OFFSET,
    }
}

/// The text that a toast shows, and whether it is written large. A
/// message of a core is written small, and a change of volume shows no
/// text.
pub open spec fn text_of(message: ScreenMessageView) -> Option<(Seq<char>, bool)> {
    match message {
        ScreenMessageView::VolumeUp(_) => None,
        ScreenMessageView::VolumeDown(_) => None,
        ScreenMessageView::AudioIssue => Some(("Audio error"@, true)),
        ScreenMessageView::VideoIssue => Some(("Video error"@, true)),
        ScreenMessageView::Unstable => Some(("UNSTABLE"@, true)),
        ScreenMessageView::Message(m) => Some((m, false)),
    }
}

/// The text that a toast shows, and whether it is written large.
pub fn toast_text(message: &ScreenMessage) -> (r: Option<(String, bool)>)
    ensures
        match r {
            Some((t, large)) => text_of(message@) == Some((t@, large)),
            None => text_of(message@) is None,
        },
{
    match message {
        ScreenMessage::VolumeUp(_) => None,
        ScreenMessage::VolumeDown(_) => None,
        ScreenMessage::AudioIssue => Some((String::from_str("Audio error"), true)),
        ScreenMessage::VideoIssue => Some((String::from_str("Video error"), true)),
        ScreenMessage::Unstable => Some((String::from_str("UNSTABLE"), true)),
        ScreenMessage::Message(m) => Some((m.clone(), false)),
    }
}

/// A toast, and the time at which it was made, in nanoseconds.
pub struct Stamped {
    pub toast: ScreenToast,
    pub start: u64,
}

/// A toast and the time at which it was made, as plain values.
pub struct StampedView {
    pub toast: ScreenToastView,
    pub start: u64,
}

impl View for Stamped {
    type V = StampedView;

    open spec fn view(&self) -> StampedView {
        StampedView { toast: self.toast@, start: self.start }
    }
}

impl StampedView {
    /// Whether the toast has outstayed its duration at the time `now`.
    pub open spec fn elapsed(self, now: u64) -> bool {
        now - self.start > self.toast.duration
    }
}

/// What the channel of toasts holds at the moment.
pub enum ToastEvent {
    /// Nothing is waiting.
    Empty,
    /// The channel has no sender left.
    Disconnected,
    /// The toast that is first in line, and when it was made.
    Received(Stamped),
}

/// The toast on screen, and those that wait behind it.
pub struct Toasts {
    toast: Option<Stamped>,
    toasts: Vec<Stamped>,
}

/// The toast on screen, and those that wait, the next one last.
pub struct ToastsView {
    pub toast: Option<StampedView>,
    pub toasts: Seq<StampedView>,
}

/// The views of a list of toasts.
pub open spec fn stamped_views(s: Seq<Stamped>) -> Seq<StampedView> {
    Seq::new(s.len(), |i: int| s[i]@)
}

impl View for Toasts {
    type V = ToastsView;

    closed spec fn view(&self) -> ToastsView {
        ToastsView {
            toast: match self.toast {
                Some(t) => Some(t@),
                None => None,
            },
            toasts: stamped_views(self.toasts@),
        }
    }
}

impl ToastsView {
    /// The waiting toasts after the channel was looked at: a toast that
    /// came waits, and a channel without senders makes a toast that says
    /// that things are unstable.
    pub open spec fn received(self, event: ToastEvent, now: u64) -> Seq<StampedView> {
        match event {
            ToastEvent::Empty => self.toasts,
            ToastEvent::Disconnected => self.toasts.push(
                StampedView {
                    toast: ScreenToastView::error(ScreenMessageView::Unstable),
                    start: now,
                },
            ),
            ToastEvent::Received(t) => self.toasts.push(t@),
        }
    }

    /// The state after the channel was looked at and the toast on screen
    /// was judged: where it has outstayed its duration, or where there is
    /// none, the toast that came last takes its place.
    pub open spec fn preprocessed(self, event: ToastEvent, now: u64) -> ToastsView {
        let waiting = self.received(event, now);
        let replace = match self.toast {
            Some(t) => t.elapsed(now),
            None => true,
        };
        if !replace {
            ToastsView { toast: self.toast, toasts: waiting }
        } else if waiting.len() > 0 {
            ToastsView { toast: Some(waiting.last()), toasts: waiting.drop_last() }
        } else {
            ToastsView { toast: None, toasts: waiting }
        }
    }
}

impl Toasts {
    /// No toast on screen, and none waiting.
    pub fn new() -> (r: Self)
        ensures
            r@.toast is None,
            r@.toasts == Seq::<StampedView>::empty(),
    {
        let r = Toasts { toast: None, toasts: Vec::new() };
        assert(stamped_views(r.toasts@) =~= Seq::<StampedView>::empty());
        r
    }

    /// Looks at the channel and at the toast on screen, at the time `now`.
    pub fn preprocess_toast(&mut self, event: ToastEvent, now: u64)
        ensures
            final(self)@ == old(self)@.preprocessed(event, now),
    {
        let ghost before = stamped_views(self.toasts@);
        match event {
            ToastEvent::Received(toast) => {
                self.toasts.push(toast);
                assert(stamped_views(self.toasts@) =~= before.push(toast@));
            },
            ToastEvent::Empty => {},
            ToastEvent::Disconnected => {
                // Should not ever get here as the screen holds a sender of
                // the channel.
                let t = Stamped { toast: ScreenToast::error(ScreenMessage::Unstable), start: now };
                self.toasts.push(t);
                assert(stamped_views(self.toasts@) =~= before.push(t@));
            },
        }
        // If already a toast remove if elapsed.
        let replace = match &self.toast {
            Some(toast) => now > toast.start && toast.toast.elapsed(now - toast.start),
            None => true,
        };
        if replace {
            let ghost waiting = stamped_views(self.toasts@);
            self.toast = self.toasts.pop();
            assert(waiting.len() > 0 ==> stamped_views(self.toasts@) =~= waiting.drop_last());
        }
    }

    /// The toast on screen.
    pub fn current(&self) -> (t: Option<&Stamped>)
        ensures
            match t {
                Some(s) => self@.toast == Some(s@),
                None => self@.toast is None,
            },
    {
        self.toast.as_ref()
    }
}

} // verus!
