use std::cell::Cell;
use tyto::display::{ModeInfo, PixelFormat};
use tyto::framebuffer::{Color, FramebufferDisplay};
use tyto::late_init::LateInit;
use tyto::once::Once;
use tyto::once_cell::OnceCell;

fn nothing() {}

#[test]
fn once_runs_its_initialiser() {
    let runs = Cell::new(0);
    let bump = || runs.set(runs.get() + 1);
    let mut once = Once::new(bump);
    assert!(!once.is_completed());
    once.call_once(bump);
    assert!(once.is_completed());
    assert_eq!(runs.get(), 1);
    let mut plain = Once::new(nothing as fn());
    plain.call_once(nothing as fn());
    assert!(plain.is_completed());
}

#[test]
fn a_cell_keeps_its_first_value() {
    let mut cell = OnceCell::new();
    assert_eq!(cell.get(), None);
    assert_eq!(cell.get_mut(), None);
    assert_eq!(cell.set(92), Ok(()));
    assert_eq!(cell.get(), Some(&92));
    assert_eq!(cell.set(17), Err(17));
    assert_eq!(cell.get(), Some(&92));
    assert_eq!(cell.get_unchecked(), &92);
}

#[test]
fn the_holder_of_a_cell_may_change_its_value() {
    let mut cell = OnceCell::new();
    assert_eq!(cell.set(String::from("a")), Ok(()));
    cell.get_mut().expect("the cell is set").push('b');
    assert_eq!(cell.get().map(|value| value.as_str()), Some("ab"));
    cell.get_unchecked_mut().push('c');
    assert_eq!(cell.get_unchecked(), "abc");
}

fn display(width: usize) -> FramebufferDisplay {
    let mode = ModeInfo { width, height: 2, stride: width, format: PixelFormat::Bgr };
    FramebufferDisplay::new(mode).expect("the display is small")
}

#[test]
fn a_place_is_initialised_once() {
    let mut place = LateInit::new();
    assert!(!place.is_initialized());
    place.init(|| display(3));
    assert!(place.is_initialized());
    assert_eq!(place.deref().pixels(), &vec![0u32; 6]);
    place.init(|| display(5));
    assert_eq!(place.deref().mode().width, 3);
    place.deref_mut().write(1, Color::white());
    assert_eq!(place.deref().pixels()[1], 0x00ff_ffff);
    let inner = place.into_inner().expect("the place was initialised");
    assert_eq!(inner.pixels(), &vec![0, 0x00ff_ffff, 0, 0, 0, 0]);
    assert!(LateInit::new().into_inner().is_none());
}
