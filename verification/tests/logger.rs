use tyto::display::{ModeInfo, PixelFormat};
use tyto::framebuffer::{Color, FramebufferDisplay};
use tyto::framebuffer_term::FramebufferTextRender;
use tyto::logger::{format_line, level_color, level_tag, targets, DefaultLogger, Level, Targets};

fn display() -> FramebufferDisplay {
    let mode = ModeInfo { width: 200, height: 100, stride: 200, format: PixelFormat::Bgr };
    FramebufferDisplay::new(mode).expect("the display is small")
}

#[test]
fn levels_have_their_tags() {
    assert_eq!(level_tag(Level::Error), 'E');
    assert_eq!(level_tag(Level::Warn), 'W');
    assert_eq!(level_tag(Level::Info), 'I');
    assert_eq!(level_tag(Level::Debug), 'D');
    assert_eq!(level_tag(Level::Trace), 'T');
}

#[test]
fn levels_have_their_colours() {
    assert_eq!(level_color(Level::Error), Color { r: 255, g: 99, b: 71 });
    assert_eq!(level_color(Level::Warn), Color { r: 255, g: 160, b: 122 });
    assert_eq!(level_color(Level::Info), Color { r: 255, g: 255, b: 255 });
    assert_eq!(level_color(Level::Debug), Color { r: 250, g: 235, b: 215 });
    assert_eq!(level_color(Level::Trace), Color { r: 240, g: 255, b: 255 });
}

#[test]
fn lines_are_tagged_and_ended() {
    assert_eq!(format_line(Level::Info, "Kernel initialized."), "[I] Kernel initialized.\n");
    assert_eq!(format_line(Level::Error, ""), "[E] \n");
    assert_eq!(format_line(Level::Warn, "queue full"), "[W] queue full\n");
}

#[test]
fn the_serial_line_is_always_written() {
    for logger_locked in [false, true] {
        for has_terminal in [false, true] {
            assert!(targets(logger_locked, has_terminal).serial);
        }
    }
}

#[test]
fn the_framebuffer_is_skipped_when_the_logger_is_in_use() {
    assert_eq!(targets(false, true), Targets { serial: true, terminal: true });
    assert_eq!(targets(true, true), Targets { serial: true, terminal: false });
    assert_eq!(targets(false, false), Targets { serial: true, terminal: false });
    assert_eq!(targets(true, false), Targets { serial: true, terminal: false });
}

#[test]
fn a_logger_without_a_surface_draws_nothing() {
    let mut buffer = display();
    let mut logger = DefaultLogger::new(None);
    assert!(!logger.has_terminal());
    assert_eq!(logger.log(&mut buffer, Level::Info, "hello"), "[I] hello\n");
    logger.print(&mut buffer, "hello");
    assert!(buffer.pixels().iter().all(|pixel| *pixel == 0));
}

#[test]
fn a_logger_with_a_surface_draws_in_the_colour_of_the_level() {
    let mut buffer = display();
    let term = FramebufferTextRender::new(Color::black(), &mut buffer);
    let mut logger = DefaultLogger::new(None);
    logger.reinit_with_framebuffer_term(term);
    assert!(logger.has_terminal());
    assert_eq!(logger.log(&mut buffer, Level::Error, "x"), "[E] x\n");
    let lit: Vec<u32> = buffer.pixels().iter().copied().filter(|pixel| *pixel != 0).collect();
    assert!(!lit.is_empty());
    assert!(lit.contains(&0x00ff_6347));
    assert!(lit.iter().all(|pixel| {
        let (r, g, b) = (pixel >> 16 & 0xff, pixel >> 8 & 0xff, pixel & 0xff);
        g <= r && b <= g
    }));
    let mut expected = display();
    let mut plain = FramebufferTextRender::new(Color::black(), &mut expected);
    plain.write_str_colored(&mut expected, "[E] x\n", Color { r: 255, g: 99, b: 71 });
    assert_eq!(buffer.pixels(), expected.pixels());
    assert_eq!(plain.position(), (3, 29));
}

#[test]
fn print_writes_in_white() {
    let mut buffer = display();
    let term = FramebufferTextRender::new(Color::black(), &mut buffer);
    let mut logger = DefaultLogger::new(Some(term));
    logger.print(&mut buffer, "ok");
    let mut expected = display();
    let mut plain = FramebufferTextRender::new(Color::black(), &mut expected);
    plain.write_str_colored(&mut expected, "ok", Color::white());
    assert_eq!(buffer.pixels(), expected.pixels());
    assert!(buffer.pixels().contains(&0x00ff_ffff));
}
