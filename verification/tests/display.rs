use tyto::display::{next_candidate, preferred_resolution, Candidate, ModeInfo, PixelFormat};

fn mode(width: usize, height: usize, format: PixelFormat) -> ModeInfo {
    ModeInfo { width, height, stride: width, format }
}

#[test]
fn preferences_are_in_order() {
    assert_eq!(preferred_resolution(0), (1920, 1080));
    assert_eq!(preferred_resolution(1), (1920, 1200));
    assert_eq!(preferred_resolution(2), (1280, 720));
    assert_eq!(preferred_resolution(3), (640, 480));
}

#[test]
fn the_best_matching_mode_is_tried_first() {
    let modes = vec![
        mode(640, 480, PixelFormat::Bgr),
        mode(800, 600, PixelFormat::Bgr),
        mode(1920, 1080, PixelFormat::Rgb),
        mode(1280, 720, PixelFormat::Bgr),
        mode(1280, 720, PixelFormat::Bgr),
    ];
    assert_eq!(next_candidate(&modes, 0), Some(Candidate { preference: 2, mode: 3 }));
    assert_eq!(next_candidate(&modes, 2), Some(Candidate { preference: 2, mode: 3 }));
    assert_eq!(next_candidate(&modes, 3), Some(Candidate { preference: 3, mode: 0 }));
    assert_eq!(next_candidate(&modes, 4), None);
    assert_eq!(next_candidate(&modes, 9), None);
}

#[test]
fn only_blue_green_red_modes_match() {
    let modes = vec![
        mode(1920, 1080, PixelFormat::Rgb),
        mode(1920, 1080, PixelFormat::Bitmask),
        mode(1920, 1080, PixelFormat::BltOnly),
        mode(800, 600, PixelFormat::Bgr),
    ];
    assert_eq!(next_candidate(&modes, 0), None);
    assert_eq!(next_candidate(&Vec::new(), 0), None);
    let modes = vec![mode(1920, 1200, PixelFormat::Bgr), mode(1920, 1080, PixelFormat::Bgr)];
    assert_eq!(next_candidate(&modes, 0), Some(Candidate { preference: 0, mode: 1 }));
    assert_eq!(next_candidate(&modes, 1), Some(Candidate { preference: 1, mode: 0 }));
}
