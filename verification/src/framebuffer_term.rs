//! A text surface on the framebuffer: a cursor that walks the display line by
//! line, and glyphs drawn at the cursor.

use vstd::prelude::*;
use crate::display::ModeInfo;
use crate::framebuffer::{scrolled, Color, FramebufferDisplay};

verus! {

/// Number of spaces a tab stands for.
pub const TAB_SIZE: usize = 4;

/// Distance in pixels that is kept from the edges of the display and between
/// lines.
pub const PADDING_PX: i64 = 3;

/// Height in pixels of the font.
pub const FONT_SIZE: i64 = 20;

/// Width in pixels of every glyph of the font.
pub const FONT_WIDTH: usize = 11;

/// A glyph as a raster of intensities, row by row from the top.
pub struct Glyph {
    /// Distance in pixels to the next glyph.
    pub width: usize,
    /// Number of rows the font has.
    pub height: usize,
    /// The intensity of every pixel, from 0 for the background to 255 for the
    /// full colour.
    pub rows: Vec<Vec<u8>>,
}

/// What a glyph is, to its users.
pub struct GlyphView {
    pub width: nat,
    pub height: nat,
    pub rows: Seq<Seq<u8>>,
}

impl View for Glyph {
    type V = GlyphView;

    open spec fn view(&self) -> GlyphView {
        GlyphView {
            width: self.width as nat,
            height: self.height as nat,
            rows: Seq::new(self.rows@.len(), |i: int| self.rows@[i]@),
        }
    }
}

/// The glyph of a character in the regular weight of the font at size 20, if
/// the font has one.
pub uninterp spec fn glyph_raster(ch: char) -> Option<GlyphView>;

/// The view of a glyph that may be missing.
pub open spec fn glyph_view(glyph: Option<Glyph>) -> Option<GlyphView> {
    match glyph {
        Some(glyph) => Some(glyph@),
        None => None,
    }
}

/// `noto_sans_mono_bitmap::get_bitmap` looks the character up in the raster
/// of the font; the result depends on the character alone. A glyph of the
/// regular weight at size 20 is reported as 11 pixels wide and 20 high.
#[verifier::external_body]
fn get_bitmap(ch: char) -> (glyph: Option<Glyph>)
    ensures
        glyph_view(glyph) == glyph_raster(ch),
        glyph matches Some(found) ==> found.width == FONT_WIDTH && found.height == FONT_SIZE,
{
    noto_sans_mono_bitmap::get_bitmap(
        ch,
        noto_sans_mono_bitmap::FontWeight::Regular,
        noto_sans_mono_bitmap::BitmapHeight::Size20,
    ).map(
        |found| Glyph {
            width: found.width(),
            height: found.height(),
            rows: found.bitmap().iter().map(|row| row.to_vec()).collect(),
        },
    )
}

/// The colour `color` at intensity `value`: each channel scaled by
/// `value / 255`, rounded down.
pub open spec fn shaded(color: Color, value: u8) -> Color {
    Color {
        r: (color.r * value / 255) as u8,
        g: (color.g * value / 255) as u8,
        b: (color.b * value / 255) as u8,
    }
}

/// Scales each channel of `color` by `value / 255`.
pub fn shade(color: Color, value: u8) -> (result: Color)
    ensures
        result == shaded(color, value),
{
    assert(0 <= color.r * value <= 255 * 255) by (nonlinear_arith);
    assert(0 <= color.g * value <= 255 * 255) by (nonlinear_arith);
    assert(0 <= color.b * value <= 255 * 255) by (nonlinear_arith);
    let r = (color.r as u64 * value as u64) / 255;
    let g = (color.g as u64 * value as u64) / 255;
    let b = (color.b as u64 * value as u64) / 255;
    Color { r: r as u8, g: g as u8, b: b as u8 }
}

/// The pixels after the one at column `x` of line `y` is given `color`, lines
/// being `stride` pixels long. A position that is not in the buffer is left
/// out.
pub open spec fn plotted(pixels: Seq<u32>, x: int, y: int, stride: int, color: Color) -> Seq<u32> {
    if 0 <= x && 0 <= y && 0 <= x + y * stride < pixels.len() {
        pixels.update(x + y * stride, color.storage())
    } else {
        pixels
    }
}

/// Gives the pixel at column `x` of line `y` the colour `color`, unless the
/// position is not in the buffer.
pub fn plot(framebuffer: &mut FramebufferDisplay, x: i64, y: i64, color: Color)
    ensures
        final(framebuffer)@ == plotted(
            old(framebuffer)@,
            x as int,
            y as int,
            old(framebuffer).geometry().stride as int,
            color,
        ),
        final(framebuffer).geometry() == old(framebuffer).geometry(),
{
    if x < 0 || y < 0 {
        return ;
    }
    let stride = framebuffer.mode().stride as u64;
    let len = framebuffer.pixels().len() as u64;
    let index = match (y as u64).checked_mul(stride) {
        Some(line) => line.checked_add(x as u64),
        None => None,
    };
    assert(y * stride >= 0) by (nonlinear_arith)
        requires
            y >= 0,
            stride >= 0,
    ;
    match index {
        Some(index) => {
            if index < len {
                framebuffer.write(index as usize, color);
            }
        },
        None => {},
    }
}

/// The pixels after the first `count` pixels of row `row` of a glyph are
/// drawn with the top left corner of the glyph at column `x` of line `y`.
pub open spec fn drawn_cells(
    pixels: Seq<u32>,
    glyph: GlyphView,
    x: int,
    y: int,
    stride: int,
    color: Color,
    row: int,
    count: int,
) -> Seq<u32>
    decreases count,
{
    if count <= 0 {
        pixels
    } else {
        let before = drawn_cells(pixels, glyph, x, y, stride, color, row, count - 1);
        if 0 <= row < glyph.rows.len() && count - 1 < glyph.rows[row].len() {
            plotted(
                before,
                x + count - 1,
                y + row,
                stride,
                shaded(color, glyph.rows[row][count - 1]),
            )
        } else {
            before
        }
    }
}

/// The pixels after the first `count` rows of a glyph are drawn with the top
/// left corner of the glyph at column `x` of line `y`: every pixel of the
/// glyph's box takes the colour at the intensity the glyph gives it.
pub open spec fn drawn_rows(
    pixels: Seq<u32>,
    glyph: GlyphView,
    x: int,
    y: int,
    stride: int,
    color: Color,
    count: int,
) -> Seq<u32>
    decreases count,
{
    if count <= 0 {
        pixels
    } else {
        drawn_cells(
            drawn_rows(pixels, glyph, x, y, stride, color, count - 1),
            glyph,
            x,
            y,
            stride,
            color,
            count - 1,
            glyph.width as int,
        )
    }
}

/// Draws `glyph` in `color` with its top left corner at column `x` of line
/// `y`. Pixels of the box that the glyph has no intensity for, and positions
/// that are not in the buffer, are left out.
pub fn draw_glyph(framebuffer: &mut FramebufferDisplay, glyph: &Glyph, x: i64, y: i64, color: Color)
    requires
        -0x4000_0000_0000_0000 <= x <= 0x4000_0000_0000_0000,
        -0x4000_0000_0000_0000 <= y <= 0x4000_0000_0000_0000,
        glyph.width <= 0x1000_0000,
        glyph.height <= 0x1000_0000,
    ensures
        final(framebuffer)@ == drawn_rows(
            old(framebuffer)@,
            glyph@,
            x as int,
            y as int,
            old(framebuffer).geometry().stride as int,
            color,
            glyph.height as int,
        ),
        final(framebuffer).geometry() == old(framebuffer).geometry(),
{
    let ghost stride = framebuffer.geometry().stride as int;
    let mut row: usize = 0;
    while row < glyph.height
        invariant
            -0x4000_0000_0000_0000 <= x <= 0x4000_0000_0000_0000,
            -0x4000_0000_0000_0000 <= y <= 0x4000_0000_0000_0000,
            glyph.width <= 0x1000_0000,
            glyph.height <= 0x1000_0000,
            row <= glyph.height,
            framebuffer.geometry() == old(framebuffer).geometry(),
            stride == framebuffer.geometry().stride,
            framebuffer@ == drawn_rows(
                old(framebuffer)@,
                glyph@,
                x as int,
                y as int,
                stride,
                color,
                row as int,
            ),
        decreases glyph.height - row,
    {
        let ghost start = framebuffer@;
        let mut column: usize = 0;
        while column < glyph.width
            invariant
                -0x4000_0000_0000_0000 <= x <= 0x4000_0000_0000_0000,
                -0x4000_0000_0000_0000 <= y <= 0x4000_0000_0000_0000,
                glyph.width <= 0x1000_0000,
                glyph.height <= 0x1000_0000,
                row < glyph.height,
                column <= glyph.width,
                framebuffer.geometry() == old(framebuffer).geometry(),
                stride == framebuffer.geometry().stride,
                framebuffer@ == drawn_cells(
                    start,
                    glyph@,
                    x as int,
                    y as int,
                    stride,
                    color,
                    row as int,
                    column as int,
                ),
            decreases glyph.width - column,
        {
            if row < glyph.rows.len() && column < glyph.rows[row].len() {
                let value = glyph.rows[row][column];
                assert(glyph@.rows[row as int][column as int] == value);
                plot(framebuffer, x + column as i64, y + row as i64, shade(color, value));
            }
            column += 1;
        }
        row += 1;
    }
}

/// The farthest the cursor moves from the origin, in either direction.
pub const CURSOR_LIMIT: i64 = 0x2000_0000_0000_0000;

/// Distance in pixels from the top of one line of text to the top of the
/// next: the font, and the padding above and below it.
pub const LINE_STEP: i64 = 26;

/// A coordinate kept within the limit of the cursor.
pub open spec fn clamped(value: int) -> i64 {
    if value > CURSOR_LIMIT {
        CURSOR_LIMIT
    } else if value < -CURSOR_LIMIT {
        (-CURSOR_LIMIT) as i64
    } else {
        value as i64
    }
}

/// An extent of the display as a coordinate.
pub open spec fn extent(size: usize) -> i64 {
    clamped(size as int)
}

/// Adds two coordinates and keeps the sum within the limit of the cursor.
fn clamp_add(a: i64, b: i64) -> (sum: i64)
    requires
        -CURSOR_LIMIT <= a <= CURSOR_LIMIT,
        -CURSOR_LIMIT <= b <= CURSOR_LIMIT,
    ensures
        sum == clamped(a + b),
{
    let sum = a + b;
    if sum > CURSOR_LIMIT {
        CURSOR_LIMIT
    } else if sum < -CURSOR_LIMIT {
        -CURSOR_LIMIT
    } else {
        sum
    }
}

/// Takes an extent of the display as a coordinate.
fn to_extent(size: usize) -> (value: i64)
    ensures
        value == extent(size),
{
    let size = size as u64;
    if size > 0x2000_0000_0000_0000 {
        CURSOR_LIMIT
    } else {
        size as i64
    }
}

/// The text surface with the display it draws on: where the cursor is and
/// what the pixels are.
pub struct Surface {
    /// Column and line of the top left corner of the next glyph.
    pub cursor: (i64, i64),
    /// The pixels of the framebuffer.
    pub pixels: Seq<u32>,
}

/// Whether the cursor on line `y` is on the last line of text that fits a
/// display of `height` lines.
pub open spec fn on_last_line(y: i64, height: usize) -> bool {
    y + FONT_SIZE + PADDING_PX >= extent(height)
}

/// The surface after the cursor moves to the start of the next line. On the
/// last line the picture moves up instead, if it can, and the cursor with it.
pub open spec fn advanced(surface: Surface, mode: ModeInfo, whole: bool, bg: Color) -> Surface {
    if on_last_line(surface.cursor.1, mode.height) {
        Surface {
            cursor: (PADDING_PX, clamped(surface.cursor.1 - LINE_STEP)),
            pixels: if whole && LINE_STEP <= mode.height && 0 < mode.stride {
                scrolled(surface.pixels, mode.stride * LINE_STEP, bg.storage())
            } else {
                surface.pixels
            },
        }
    } else {
        Surface { cursor: (PADDING_PX, clamped(surface.cursor.1 + LINE_STEP)), ..surface }
    }
}

/// Whether a glyph of `width` pixels at the cursor would reach into the
/// padding at the right or at the bottom of the display.
pub open spec fn needs_new_line(cursor: (i64, i64), width: i64, mode: ModeInfo) -> bool {
    ||| cursor.0 + width + PADDING_PX * 2 >= extent(mode.width)
    ||| cursor.1 + FONT_SIZE + PADDING_PX * 2 >= extent(mode.height)
}

/// The surface after room is made for a glyph of `width` pixels.
pub open spec fn placed(surface: Surface, width: i64, mode: ModeInfo, whole: bool, bg: Color) -> Surface {
    if needs_new_line(surface.cursor, width, mode) {
        advanced(surface, mode, whole, bg)
    } else {
        surface
    }
}

/// The surface after `glyph` is written at the cursor in `color`: room is
/// made for it, it is drawn, and the cursor moves on by its width.
pub open spec fn put(
    surface: Surface,
    glyph: GlyphView,
    color: Color,
    mode: ModeInfo,
    whole: bool,
    bg: Color,
) -> Surface {
    let at = placed(surface, glyph.width as i64, mode, whole, bg);
    Surface {
        cursor: (clamped(at.cursor.0 + glyph.width), at.cursor.1),
        pixels: drawn_rows(
            at.pixels,
            glyph,
            at.cursor.0 as int,
            at.cursor.1 as int,
            mode.stride as int,
            color,
            glyph.height as int,
        ),
    }
}

/// The surface after the character `ch` is written in `color`, if it is not a
/// control character: its glyph is put, and a character the font has no glyph
/// for leaves no trace.
pub open spec fn drawn_char(
    surface: Surface,
    ch: char,
    color: Color,
    mode: ModeInfo,
    whole: bool,
    bg: Color,
) -> Surface {
    match glyph_raster(ch) {
        Some(glyph) => put(surface, glyph, color, mode, whole, bg),
        None => surface,
    }
}

/// The surface after `count` spaces are written.
pub open spec fn spaced(
    surface: Surface,
    count: nat,
    color: Color,
    mode: ModeInfo,
    whole: bool,
    bg: Color,
) -> Surface
    decreases count,
{
    if count == 0 {
        surface
    } else {
        drawn_char(
            spaced(surface, (count - 1) as nat, color, mode, whole, bg),
            ' ',
            color,
            mode,
            whole,
            bg,
        )
    }
}

/// Whether `ch` is a control character.
pub open spec fn is_control(ch: char) -> bool {
    ch as u32 <= 0x1f || 0x7f <= ch as u32 <= 0x9f
}

/// The surface after the character `ch` is written in `color`: a line feed
/// starts the next line, a carriage return takes the cursor to column 0, a
/// tab writes `TAB_SIZE` spaces, any other control character does nothing,
/// and every other character is drawn.
pub open spec fn written_char(
    surface: Surface,
    ch: char,
    color: Color,
    mode: ModeInfo,
    whole: bool,
    bg: Color,
) -> Surface {
    if ch == '\n' {
        advanced(surface, mode, whole, bg)
    } else if ch == '\r' {
        Surface { cursor: (0, surface.cursor.1), ..surface }
    } else if ch == '\t' {
        spaced(surface, TAB_SIZE as nat, color, mode, whole, bg)
    } else if is_control(ch) {
        surface
    } else {
        drawn_char(surface, ch, color, mode, whole, bg)
    }
}

/// The surface after the characters of `text` are written in `color`, one
/// after the other.
pub open spec fn written_str(
    surface: Surface,
    text: Seq<char>,
    color: Color,
    mode: ModeInfo,
    whole: bool,
    bg: Color,
) -> Surface
    decreases text.len(),
{
    if text.len() == 0 {
        surface
    } else {
        written_char(
            written_str(surface, text.drop_last(), color, mode, whole, bg),
            text.last(),
            color,
            mode,
            whole,
            bg,
        )
    }
}

/// A text surface on a framebuffer: the colour of the background and the
/// place of the next glyph.
pub struct FramebufferTextRender {
    font_size: i64,
    current_pos: (i64, i64),
    bg: Color,
}

impl FramebufferTextRender {
    /// The cursor stays within its limit, and the font has its size.
    #[verifier::type_invariant]
    closed spec fn inv(self) -> bool {
        &&& self.font_size == FONT_SIZE
        &&& -CURSOR_LIMIT <= self.current_pos.0 <= CURSOR_LIMIT
        &&& -CURSOR_LIMIT <= self.current_pos.1 <= CURSOR_LIMIT
    }

    /// Column and line of the top left corner of the next glyph.
    pub closed spec fn cursor(self) -> (i64, i64) {
        self.current_pos
    }

    /// The colour of the background.
    pub closed spec fn background(self) -> Color {
        self.bg
    }

    /// The surface this text surface makes with `framebuffer`.
    pub open spec fn surface(self, framebuffer: FramebufferDisplay) -> Surface {
        Surface { cursor: self.cursor(), pixels: framebuffer@ }
    }

    /// A text surface on `framebuffer`, which is cleared to `bg`. The cursor
    /// starts in the top left corner, inside the padding.
    pub fn new(bg: Color, framebuffer: &mut FramebufferDisplay) -> (term: FramebufferTextRender)
        ensures
            term.cursor() == (PADDING_PX, PADDING_PX),
            term.background() == bg,
            final(framebuffer).geometry() == old(framebuffer).geometry(),
            final(framebuffer)@.len() == old(framebuffer)@.len(),
            forall|i: int|
                0 <= i < final(framebuffer)@.len() ==> final(framebuffer)@[i] == bg.storage(),
    {
        framebuffer.fill(bg);
        FramebufferTextRender { font_size: FONT_SIZE, current_pos: (PADDING_PX, PADDING_PX), bg }
    }

    /// Tells column and line of the top left corner of the next glyph.
    pub fn position(&self) -> (cursor: (i64, i64))
        ensures
            cursor == self.cursor(),
    {
        self.current_pos
    }

    /// Moves the cursor to the start of the next line, and on the last line
    /// moves the picture up instead.
    pub fn advance_line(&mut self, framebuffer: &mut FramebufferDisplay)
        ensures
            final(self).surface(*final(framebuffer)) == advanced(
                old(self).surface(*old(framebuffer)),
                old(framebuffer).geometry(),
                old(framebuffer).wf(),
                old(self).background(),
            ),
            final(self).background() == old(self).background(),
            final(framebuffer).geometry() == old(framebuffer).geometry(),
    {
        proof {
            use_type_invariant(&*self);
        }
        let height = to_extent(framebuffer.mode().height);
        let line_size = self.font_size + PADDING_PX;
        let column = PADDING_PX;
        if self.current_pos.1 + line_size >= height {
            framebuffer.try_scroll_up(26, self.bg);
            let line = clamp_add(self.current_pos.1, -LINE_STEP);
            self.current_pos = (column, line);
        } else {
            let line = clamp_add(self.current_pos.1, LINE_STEP);
            self.current_pos = (column, line);
        }
    }

    /// Makes room for a glyph of `width` pixels: if it would reach into the
    /// padding at the right or at the bottom, the next line is started.
    pub fn alloc_place_for_char(&mut self, framebuffer: &mut FramebufferDisplay, width: i64)
        requires
            0 <= width <= 0x1000_0000,
        ensures
            final(self).surface(*final(framebuffer)) == placed(
                old(self).surface(*old(framebuffer)),
                width,
                old(framebuffer).geometry(),
                old(framebuffer).wf(),
                old(self).background(),
            ),
            final(self).background() == old(self).background(),
            final(framebuffer).geometry() == old(framebuffer).geometry(),
    {
        proof {
            use_type_invariant(&*self);
        }
        let mode = framebuffer.mode();
        if self.current_pos.0 + width + PADDING_PX * 2 >= to_extent(mode.width)
            || self.current_pos.1 + self.font_size + PADDING_PX * 2 >= to_extent(mode.height) {
            self.advance_line(framebuffer);
        }
    }

    /// Writes `glyph` at the cursor in `color`: room is made for it, it is
    /// drawn, and the cursor moves on by its width.
    pub fn put_glyph(&mut self, framebuffer: &mut FramebufferDisplay, glyph: &Glyph, color: Color)
        requires
            glyph.width <= 0x1000_0000,
            glyph.height <= 0x1000_0000,
        ensures
            final(self).surface(*final(framebuffer)) == put(
                old(self).surface(*old(framebuffer)),
                glyph@,
                color,
                old(framebuffer).geometry(),
                old(framebuffer).wf(),
                old(self).background(),
            ),
            final(self).background() == old(self).background(),
            final(framebuffer).geometry() == old(framebuffer).geometry(),
    {
        self.alloc_place_for_char(framebuffer, glyph.width as i64);
        proof {
            use_type_invariant(&*self);
        }
        draw_glyph(framebuffer, glyph, self.current_pos.0, self.current_pos.1, color);
        let column = clamp_add(self.current_pos.0, glyph.width as i64);
        self.current_pos = (column, self.current_pos.1);
    }

    /// Draws the character `ch` at the cursor in `color`. A character the
    /// font has no glyph for leaves no trace.
    pub fn draw_char(&mut self, framebuffer: &mut FramebufferDisplay, ch: char, color: Color)
        ensures
            final(self).surface(*final(framebuffer)) == drawn_char(
                old(self).surface(*old(framebuffer)),
                ch,
                color,
                old(framebuffer).geometry(),
                old(framebuffer).wf(),
                old(self).background(),
            ),
            final(self).background() == old(self).background(),
            final(framebuffer).geometry() == old(framebuffer).geometry(),
    {
        match get_bitmap(ch) {
            Some(glyph) => self.put_glyph(framebuffer, &glyph, color),
            None => {},
        }
    }
}

/// Tells whether `ch` is a control character.
pub fn char_is_control(ch: char) -> (control: bool)
    ensures
        control == is_control(ch),
{
    let code = ch as u32;
    code <= 0x1f || (0x7f <= code && code <= 0x9f)
}

impl FramebufferTextRender {
    /// Writes the character `ch` in `color`: control characters move the
    /// cursor, or do nothing, and every other character is drawn.
    pub fn write_char_colored_impl(
        &mut self,
        framebuffer: &mut FramebufferDisplay,
        ch: char,
        color: Color,
    )
        ensures
            final(self).surface(*final(framebuffer)) == written_char(
                old(self).surface(*old(framebuffer)),
                ch,
                color,
                old(framebuffer).geometry(),
                old(framebuffer).wf(),
                old(self).background(),
            ),
            final(self).background() == old(self).background(),
            final(framebuffer).geometry() == old(framebuffer).geometry(),
            final(framebuffer)@.len() == old(framebuffer)@.len(),
    {
        proof {
            use_type_invariant(&*self);
            lemma_written_char_keeps_length(
                self.surface(*framebuffer),
                ch,
                color,
                framebuffer.geometry(),
                framebuffer.wf(),
                self.background(),
            );
        }
        if ch == '\n' {
            self.advance_line(framebuffer);
        } else if ch == '\r' {
            self.current_pos = (0, self.current_pos.1);
        } else if ch == '\t' {
            let ghost mode = framebuffer.geometry();
            let ghost whole = framebuffer.wf();
            let ghost start = self.surface(*framebuffer);
            let mut count: usize = 0;
            while count < TAB_SIZE
                invariant
                    count <= TAB_SIZE,
                    framebuffer.geometry() == mode,
                    self.background() == old(self).background(),
                    whole == old(framebuffer).wf(),
                    mode == old(framebuffer).geometry(),
                    start == old(self).surface(*old(framebuffer)),
                    start.pixels.len() == framebuffer@.len(),
                    self.surface(*framebuffer) == spaced(
                        start,
                        count as nat,
                        color,
                        mode,
                        whole,
                        self.background(),
                    ),
                decreases TAB_SIZE - count,
            {
                proof {
                    lemma_written_char_keeps_length(
                        self.surface(*framebuffer),
                        ' ',
                        color,
                        mode,
                        whole,
                        self.background(),
                    );
                    lemma_wholeness_is_kept(*framebuffer, *old(framebuffer));
                }
                self.draw_char(framebuffer, ' ', color);
                count += 1;
            }
        } else if char_is_control(ch) {
        } else {
            self.draw_char(framebuffer, ch, color);
        }
    }

    /// Writes the character `ch` in `color`.
    pub fn write_char_colored(&mut self, framebuffer: &mut FramebufferDisplay, ch: char, color: Color)
        ensures
            final(self).surface(*final(framebuffer)) == written_char(
                old(self).surface(*old(framebuffer)),
                ch,
                color,
                old(framebuffer).geometry(),
                old(framebuffer).wf(),
                old(self).background(),
            ),
            final(self).background() == old(self).background(),
            final(framebuffer).geometry() == old(framebuffer).geometry(),
            final(framebuffer)@.len() == old(framebuffer)@.len(),
    {
        self.write_char_colored_impl(framebuffer, ch, color)
    }

    /// Writes the characters of `text` in `color`, one after the other.
    pub fn write_str_colored(&mut self, framebuffer: &mut FramebufferDisplay, text: &str, color: Color)
        ensures
            final(self).surface(*final(framebuffer)) == written_str(
                old(self).surface(*old(framebuffer)),
                text@,
                color,
                old(framebuffer).geometry(),
                old(framebuffer).wf(),
                old(self).background(),
            ),
            final(self).background() == old(self).background(),
            final(framebuffer).geometry() == old(framebuffer).geometry(),
            final(framebuffer)@.len() == old(framebuffer)@.len(),
    {
        let ghost mode = framebuffer.geometry();
        let ghost whole = framebuffer.wf();
        let ghost start = self.surface(*framebuffer);
        let len = text.unicode_len();
        let mut index: usize = 0;
        while index < len
            invariant
                len == text@.len(),
                index <= len,
                framebuffer.geometry() == mode,
                self.background() == old(self).background(),
                whole == old(framebuffer).wf(),
                mode == old(framebuffer).geometry(),
                start == old(self).surface(*old(framebuffer)),
                start.pixels.len() == framebuffer@.len(),
                self.surface(*framebuffer) == written_str(
                    start,
                    text@.take(index as int),
                    color,
                    mode,
                    whole,
                    self.background(),
                ),
            decreases len - index,
        {
            let ch = text.get_char(index);
            proof {
                lemma_wholeness_is_kept(*framebuffer, *old(framebuffer));
                assert(text@.take(index + 1).drop_last() == text@.take(index as int));
                assert(text@.take(index + 1).last() == ch);
            }
            self.write_char_colored_impl(framebuffer, ch, color);
            index += 1;
        }
        assert(text@.take(len as int) == text@);
    }
}

/// Two buffers of the same geometry and the same number of pixels are whole
/// together.
proof fn lemma_wholeness_is_kept(now: FramebufferDisplay, before: FramebufferDisplay)
    requires
        now.geometry() == before.geometry(),
        now@.len() == before@.len(),
    ensures
        now.wf() == before.wf(),
{
}

/// Drawing part of a row of a glyph changes no pixel count.
proof fn lemma_cells_keep_length(
    pixels: Seq<u32>,
    glyph: GlyphView,
    x: int,
    y: int,
    stride: int,
    color: Color,
    row: int,
    cells: int,
)
    ensures
        drawn_cells(pixels, glyph, x, y, stride, color, row, cells).len() == pixels.len(),
    decreases cells,
{
    if cells > 0 {
        lemma_cells_keep_length(pixels, glyph, x, y, stride, color, row, cells - 1);
    }
}

/// Drawing rows of a glyph changes no pixel count.
proof fn lemma_drawing_keeps_length(
    pixels: Seq<u32>,
    glyph: GlyphView,
    x: int,
    y: int,
    stride: int,
    color: Color,
    rows: int,
)
    ensures
        drawn_rows(pixels, glyph, x, y, stride, color, rows).len() == pixels.len(),
    decreases rows,
{
    if rows > 0 {
        lemma_drawing_keeps_length(pixels, glyph, x, y, stride, color, rows - 1);
        lemma_cells_keep_length(
            drawn_rows(pixels, glyph, x, y, stride, color, rows - 1),
            glyph,
            x,
            y,
            stride,
            color,
            rows - 1,
            glyph.width as int,
        );
    }
}

/// Writing a character changes no pixel count.
proof fn lemma_written_char_keeps_length(
    surface: Surface,
    ch: char,
    color: Color,
    mode: ModeInfo,
    whole: bool,
    bg: Color,
)
    ensures
        written_char(surface, ch, color, mode, whole, bg).pixels.len() == surface.pixels.len(),
        drawn_char(surface, ch, color, mode, whole, bg).pixels.len() == surface.pixels.len(),
{
    lemma_spaces_keep_length(surface, TAB_SIZE as nat, color, mode, whole, bg);
    lemma_drawn_char_keeps_length(surface, ch, color, mode, whole, bg);
}

/// Drawing a character changes no pixel count.
proof fn lemma_drawn_char_keeps_length(
    surface: Surface,
    ch: char,
    color: Color,
    mode: ModeInfo,
    whole: bool,
    bg: Color,
)
    ensures
        drawn_char(surface, ch, color, mode, whole, bg).pixels.len() == surface.pixels.len(),
{
    if let Some(glyph) = glyph_raster(ch) {
        let at = placed(surface, glyph.width as i64, mode, whole, bg);
        lemma_drawing_keeps_length(
            at.pixels,
            glyph,
            at.cursor.0 as int,
            at.cursor.1 as int,
            mode.stride as int,
            color,
            glyph.height as int,
        );
    }
}

/// Writing spaces changes no pixel count.
proof fn lemma_spaces_keep_length(
    surface: Surface,
    count: nat,
    color: Color,
    mode: ModeInfo,
    whole: bool,
    bg: Color,
)
    ensures
        spaced(surface, count, color, mode, whole, bg).pixels.len() == surface.pixels.len(),
    decreases count,
{
    if count > 0 {
        lemma_spaces_keep_length(surface, (count - 1) as nat, color, mode, whole, bg);
        lemma_drawn_char_keeps_length(
            spaced(surface, (count - 1) as nat, color, mode, whole, bg),
            ' ',
            color,
            mode,
            whole,
            bg,
        );
    }
}

} // verus!
