use tyto::display::{ModeInfo, PixelFormat};
use tyto::framebuffer::{Color, FramebufferDisplay};
use tyto::framebuffer_term::{
    char_is_control, draw_glyph, plot, shade, FramebufferTextRender, Glyph, FONT_SIZE, FONT_WIDTH,
    PADDING_PX,
};

fn display(width: usize, height: usize) -> FramebufferDisplay {
    let mode = ModeInfo { width, height, stride: width, format: PixelFormat::Bgr };
    FramebufferDisplay::new(mode).expect("the display is small")
}

const RED: Color = Color { r: 255, g: 0, b: 0 };
const GREY: Color = Color { r: 0x11, g: 0x22, b: 0x33 };

#[test]
fn a_new_buffer_is_black() {
    let buffer = display(4, 3);
    assert_eq!(buffer.pixels(), &vec![0u32; 12]);
    assert_eq!(buffer.mode().stride, 4);
    let mode = ModeInfo { width: 1, height: usize::MAX, stride: 2, format: PixelFormat::Bgr };
    assert!(FramebufferDisplay::new(mode).is_none());
}

#[test]
fn colours_are_stored_red_first() {
    let mut buffer = display(4, 3);
    buffer.fill(GREY);
    assert_eq!(buffer.pixels(), &vec![0x0011_2233u32; 12]);
    buffer.write(5, RED);
    assert_eq!(buffer.pixels()[5], 0x00ff_0000);
    assert_eq!(buffer.pixels()[4], 0x0011_2233);
    buffer.write(0, Color::white());
    assert_eq!(buffer.pixels()[0], 0x00ff_ffff);
    buffer.write(11, Color::black());
    assert_eq!(buffer.pixels()[11], 0);
}

#[test]
fn scrolling_moves_the_picture_up() {
    let mut buffer = display(2, 4);
    for pos in 0..8 {
        buffer.write(pos, Color { r: 0, g: 0, b: pos as u8 + 1 });
    }
    buffer.scroll_up(1, RED);
    assert_eq!(buffer.pixels(), &vec![3, 4, 5, 6, 7, 8, 7, 8]);
    let mut buffer = display(2, 4);
    for pos in 0..8 {
        buffer.write(pos, Color { r: 0, g: 0, b: pos as u8 + 1 });
    }
    buffer.scroll_up(3, RED);
    assert_eq!(buffer.pixels(), &vec![7, 8, 0x00ff_0000, 0x00ff_0000, 0x00ff_0000, 6, 7, 8]);
    assert!(!buffer.try_scroll_up(5, RED));
    assert!(!buffer.try_scroll_up(0, RED));
    assert_eq!(buffer.pixels(), &vec![7, 8, 0x00ff_0000, 0x00ff_0000, 0x00ff_0000, 6, 7, 8]);
    assert!(buffer.try_scroll_up(4, RED));
    assert_eq!(buffer.pixels()[..7], [0x00ff_0000u32; 7]);
    assert_eq!(buffer.pixels()[7], 8);
}

#[test]
fn shading_scales_every_channel() {
    assert_eq!(shade(Color::white(), 255), Color::white());
    assert_eq!(shade(Color::white(), 0), Color::black());
    assert_eq!(shade(Color { r: 200, g: 100, b: 51 }, 128), Color { r: 100, g: 50, b: 25 });
    assert_eq!(shade(RED, 1), Color { r: 1, g: 0, b: 0 });
}

#[test]
fn plotting_leaves_out_what_is_not_in_the_buffer() {
    let mut buffer = display(4, 3);
    plot(&mut buffer, 1, 2, RED);
    assert_eq!(buffer.pixels()[9], 0x00ff_0000);
    plot(&mut buffer, -1, 0, RED);
    plot(&mut buffer, 0, -1, RED);
    plot(&mut buffer, 0, 3, RED);
    plot(&mut buffer, 12, 0, RED);
    plot(&mut buffer, i64::MAX, i64::MAX, RED);
    assert_eq!(buffer.pixels().iter().filter(|pixel| **pixel != 0).count(), 1);
    plot(&mut buffer, 5, 0, RED);
    assert_eq!(buffer.pixels()[5], 0x00ff_0000);
}

#[test]
fn a_glyph_is_drawn_at_its_corner() {
    let glyph = Glyph { width: 2, height: 2, rows: vec![vec![255, 0], vec![128, 255]] };
    let mut buffer = display(4, 3);
    draw_glyph(&mut buffer, &glyph, 1, 1, Color::white());
    assert_eq!(
        buffer.pixels(),
        &vec![0, 0, 0, 0, 0, 0x00ff_ffff, 0, 0, 0, 0x0080_8080, 0x00ff_ffff, 0]
    );
    let ragged = Glyph { width: 3, height: 3, rows: vec![vec![255], vec![]] };
    let mut buffer = display(4, 3);
    draw_glyph(&mut buffer, &ragged, 0, 0, RED);
    assert_eq!(buffer.pixels()[0], 0x00ff_0000);
    assert_eq!(buffer.pixels().iter().filter(|pixel| **pixel != 0).count(), 1);
}

#[test]
fn the_cursor_starts_inside_the_padding() {
    let mut buffer = display(100, 100);
    let term = FramebufferTextRender::new(GREY, &mut buffer);
    assert_eq!(term.position(), (PADDING_PX, PADDING_PX));
    assert_eq!(term.position(), (3, 3));
    assert_eq!(buffer.pixels(), &vec![0x0011_2233u32; 100 * 100]);
    assert_eq!((FONT_SIZE, FONT_WIDTH), (20, 11));
}

#[test]
fn characters_move_the_cursor() {
    let mut buffer = display(100, 100);
    let mut term = FramebufferTextRender::new(Color::black(), &mut buffer);
    term.write_char_colored(&mut buffer, 'A', Color::white());
    assert_eq!(term.position(), (14, 3));
    assert!(buffer.pixels().iter().any(|pixel| *pixel != 0));
    let lit: Vec<usize> =
        (0..buffer.pixels().len()).filter(|index| buffer.pixels()[*index] != 0).collect();
    assert!(lit.iter().all(|index| (3..14).contains(&(index % 100)) && (3..23).contains(&(index / 100))));
    term.write_char_colored(&mut buffer, '\r', Color::white());
    assert_eq!(term.position(), (0, 3));
    term.write_char_colored(&mut buffer, '\n', Color::white());
    assert_eq!(term.position(), (3, 29));
    term.write_char_colored(&mut buffer, '\t', Color::white());
    assert_eq!(term.position(), (47, 29));
    term.write_char_colored(&mut buffer, '\u{7}', Color::white());
    assert_eq!(term.position(), (47, 29));
    term.write_char_colored(&mut buffer, '\u{4e2d}', Color::white());
    assert_eq!(term.position(), (47, 29));
}

#[test]
fn a_space_draws_nothing_but_moves_on() {
    let mut buffer = display(100, 100);
    let mut term = FramebufferTextRender::new(Color::black(), &mut buffer);
    term.draw_char(&mut buffer, ' ', Color::white());
    assert_eq!(term.position(), (14, 3));
    assert!(buffer.pixels().iter().all(|pixel| *pixel == 0));
}

#[test]
fn lines_wrap_at_the_right_edge() {
    let mut buffer = display(40, 200);
    let mut term = FramebufferTextRender::new(Color::black(), &mut buffer);
    term.write_str_colored(&mut buffer, "ab", Color::white());
    assert_eq!(term.position(), (25, 3));
    term.write_str_colored(&mut buffer, "c", Color::white());
    assert_eq!(term.position(), (14, 29));
    term.alloc_place_for_char(&mut buffer, 11);
    assert_eq!(term.position(), (14, 29));
    term.alloc_place_for_char(&mut buffer, 20);
    assert_eq!(term.position(), (3, 55));
}

#[test]
fn the_last_line_scrolls() {
    let mut buffer = display(100, 60);
    let mut term = FramebufferTextRender::new(Color::black(), &mut buffer);
    term.write_str_colored(&mut buffer, "A", Color::white());
    let before = buffer.pixels().clone();
    term.advance_line(&mut buffer);
    assert_eq!(term.position(), (3, 29));
    assert_eq!(buffer.pixels(), &before);
    term.write_str_colored(&mut buffer, "B", Color::white());
    let before = buffer.pixels().clone();
    term.advance_line(&mut buffer);
    assert_eq!(term.position(), (3, 55));
    assert_eq!(buffer.pixels(), &before);
    term.advance_line(&mut buffer);
    assert_eq!(term.position(), (3, 29));
    assert_eq!(buffer.pixels()[..3400], before[2600..]);
    assert_ne!(buffer.pixels(), &before);
}

#[test]
fn control_characters_are_told_apart() {
    assert!(char_is_control('\n'));
    assert!(char_is_control('\u{0}'));
    assert!(char_is_control('\u{1f}'));
    assert!(char_is_control('\u{7f}'));
    assert!(char_is_control('\u{9f}'));
    assert!(!char_is_control(' '));
    assert!(!char_is_control('~'));
    assert!(!char_is_control('\u{a0}'));
    for code in 0..0x300u32 {
        let ch = char::from_u32(code).expect("a scalar value");
        assert_eq!(char_is_control(ch), ch.is_control());
    }
}
