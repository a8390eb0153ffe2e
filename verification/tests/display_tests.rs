use std::cell::RefCell;
use std::iter;
use std::rc::Rc;

use embedded_graphics::geometry::Point;
use embedded_graphics::pixelcolor::BinaryColor;
use embedded_graphics::primitives::{Primitive, PrimitiveStyle, Triangle};
use embedded_graphics::Pixel;
use flipdot::{Page, PageFlipStyle};
use flipdot_core::State;
use flipdot_graphics::{shared_bus, Address, FlipdotDisplay, SignBusType, SignType};
use flipdot_testing::{VirtualSign, VirtualSignBus};

fn manual_bus() -> Rc<RefCell<VirtualSignBus<'static>>> {
    Rc::new(RefCell::new(VirtualSignBus::new(iter::once(VirtualSign::new(
        Address(3),
        PageFlipStyle::Manual,
    )))))
}

#[test]
fn out_of_bounds_pixels() {
    let bus = manual_bus();
    let mut display =
        FlipdotDisplay::new_with_bus(shared_bus(bus.clone()), Address(3), SignType::Max3000Side90x7);

    // Writing out of bounds shouldn't fail or panic
    display.draw_iter(&vec![(-1, 0, true)]);
    display.draw_iter(&vec![(0, -1, true)]);
    display.draw_iter(&vec![(90, 0, true)]);
    display.draw_iter(&vec![(0, 7, true)]);
    display.flush().unwrap();

    // And should result in an empty page
    let bus = bus.borrow();
    let page = &bus.sign(0).pages()[0];
    assert_eq!(*page, Page::new(page.id(), page.width(), page.height()));
}

#[test]
fn draw() {
    let bus = manual_bus();
    let mut display =
        FlipdotDisplay::new_with_bus(shared_bus(bus.clone()), Address(3), SignType::Max3000Side90x7);

    let styled = Triangle::new(Point::new(0, 0), Point::new(45, 6), Point::new(89, 0))
        .into_styled(PrimitiveStyle::with_fill(BinaryColor::On));
    let pixels: Vec<(i32, i32, bool)> = styled
        .pixels()
        .map(|Pixel(point, color)| (point.x, point.y, color.is_on()))
        .collect();
    display.draw_iter(&pixels);

    display.flush().unwrap();

    let actual = format!("{}", bus.borrow().sign(0).pages()[0]);
    let expected = "\
        +------------------------------------------------------------------------------------------+\n\
        |@@@@@@@@@@@@@@@@@@@@@@@@@@@@@@@@@@@@@@@@@@@@@@@@@@@@@@@@@@@@@@@@@@@@@@@@@@@@@@@@@@@@@@@@@@|\n\
        |    @@@@@@@@@@@@@@@@@@@@@@@@@@@@@@@@@@@@@@@@@@@@@@@@@@@@@@@@@@@@@@@@@@@@@@@@@@@@@@@@@@    |\n\
        |            @@@@@@@@@@@@@@@@@@@@@@@@@@@@@@@@@@@@@@@@@@@@@@@@@@@@@@@@@@@@@@@@@@            |\n\
        |                   @@@@@@@@@@@@@@@@@@@@@@@@@@@@@@@@@@@@@@@@@@@@@@@@@@@@                   |\n\
        |                           @@@@@@@@@@@@@@@@@@@@@@@@@@@@@@@@@@@@@                          |\n\
        |                                  @@@@@@@@@@@@@@@@@@@@@@                                  |\n\
        |                                          @@@@@@@                                         |\n\
        +------------------------------------------------------------------------------------------+";

    assert_eq!(actual, expected);
}

#[test]
fn from_port_virtual_marker() {
    assert!(matches!(SignBusType::from_port("virtual"), SignBusType::Virtual));
    assert!(matches!(SignBusType::from_port("VIRTUAL"), SignBusType::Virtual));
    assert!(matches!(SignBusType::from_port("VirtuaL"), SignBusType::Virtual));
}

#[test]
fn from_port_serial_fallback() {
    assert!(matches!(
        SignBusType::from_port("/dev/ttyUSB0"),
        SignBusType::Serial("/dev/ttyUSB0")
    ));
    assert!(matches!(SignBusType::from_port("COM3"), SignBusType::Serial("COM3")));
    assert!(matches!(SignBusType::from_port("virtua"), SignBusType::Serial("virtua")));
    assert!(matches!(SignBusType::from_port("virtual2"), SignBusType::Serial("virtual2")));
}

#[test]
fn try_new_virtual_always_succeeds() {
    let display = FlipdotDisplay::try_new(SignBusType::Virtual, Address(4), SignType::HorizonDash40x12)
        .unwrap();
    assert_eq!(40, display.width());
    assert_eq!(12, display.height());
}

#[test]
fn try_new_bad_serial_port_fails() {
    let result = FlipdotDisplay::try_new(
        SignBusType::Serial("/this/port/does/not/exist"),
        Address(3),
        SignType::Max3000Side90x7,
    );
    assert!(result.is_err());
}

#[test]
fn dimensions_match_sign_type() {
    let display =
        FlipdotDisplay::try_new(SignBusType::Virtual, Address(3), SignType::Max3000Side90x7).unwrap();
    assert_eq!(90, display.width());
    assert_eq!(7, display.height());
}

#[test]
fn draw_then_read_pixels() {
    let mut display =
        FlipdotDisplay::try_new(SignBusType::Virtual, Address(3), SignType::Max3000Side90x7).unwrap();
    assert_eq!(false, display.pixel(5, 5));
    display.draw_iter(&vec![(5, 5, true), (0, 0, true), (89, 6, true)]);
    assert_eq!(true, display.pixel(5, 5));
    assert_eq!(true, display.pixel(0, 0));
    assert_eq!(true, display.pixel(89, 6));
    assert_eq!(false, display.pixel(1, 1));
    display.draw_iter(&vec![(5, 5, false)]);
    assert_eq!(false, display.pixel(5, 5));
}

#[test]
fn clear_rewrites_every_pixel() {
    let mut display =
        FlipdotDisplay::try_new(SignBusType::Virtual, Address(3), SignType::Max3000Side90x7).unwrap();
    display.draw_iter(&vec![(7, 2, true)]);
    display.clear(true);
    for x in 0..90 {
        for y in 0..7 {
            assert_eq!(true, display.pixel(x, y));
        }
    }
    display.clear(false);
    for x in 0..90 {
        for y in 0..7 {
            assert_eq!(false, display.pixel(x, y));
        }
    }
}

#[test]
fn clear_twice_equals_clear_once() {
    let mut once =
        FlipdotDisplay::try_new(SignBusType::Virtual, Address(3), SignType::Max3000Side90x7).unwrap();
    let mut twice =
        FlipdotDisplay::try_new(SignBusType::Virtual, Address(3), SignType::Max3000Side90x7).unwrap();
    once.draw_iter(&vec![(1, 1, true), (88, 3, true)]);
    twice.draw_iter(&vec![(44, 5, true)]);
    once.clear(true);
    twice.clear(true);
    twice.clear(true);
    for x in 0..90 {
        for y in 0..7 {
            assert_eq!(once.pixel(x, y), twice.pixel(x, y));
        }
    }
}

#[test]
fn show_required_only_for_manual() {
    assert_eq!(true, FlipdotDisplay::show_required(PageFlipStyle::Manual));
    assert_eq!(false, FlipdotDisplay::show_required(PageFlipStyle::Automatic));
}

#[test]
fn manual_style_flush_shows_page() {
    let bus = manual_bus();
    let mut display =
        FlipdotDisplay::new_with_bus(shared_bus(bus.clone()), Address(3), SignType::Max3000Side90x7);
    display.draw_iter(&vec![(0, 0, true)]);
    display.flush().unwrap();

    let bus = bus.borrow();
    // The sign was explicitly told to show the transmitted page.
    assert_eq!(State::PageShown, bus.sign(0).state());
    assert_eq!(1, bus.sign(0).pages().len());
    assert_eq!(true, bus.sign(0).pages()[0].get_pixel(0, 0));
}

#[test]
fn automatic_style_flush_skips_show() {
    let bus = Rc::new(RefCell::new(VirtualSignBus::new(iter::once(VirtualSign::new(
        Address(3),
        PageFlipStyle::Automatic,
    )))));
    let mut display =
        FlipdotDisplay::new_with_bus(shared_bus(bus.clone()), Address(3), SignType::Max3000Side90x7);
    display.draw_iter(&vec![(2, 2, true)]);
    display.flush().unwrap();

    let bus = bus.borrow();
    // The sign shows pages by itself; the adapter issued no show command.
    assert_eq!(State::ShowingPages, bus.sign(0).state());
    assert_eq!(1, bus.sign(0).pages().len());
}

#[test]
fn failed_flush_preserves_buffer() {
    // A bus with no sign at the address makes every flush step fail.
    let bus: Rc<RefCell<VirtualSignBus<'static>>> =
        Rc::new(RefCell::new(VirtualSignBus::new(iter::empty())));
    let mut display =
        FlipdotDisplay::new_with_bus(shared_bus(bus.clone()), Address(3), SignType::Max3000Side90x7);
    display.draw_iter(&vec![(10, 4, true), (20, 1, true)]);

    assert!(display.flush().is_err());

    // The page buffer is exactly as it was before the failed flush.
    assert_eq!(true, display.pixel(10, 4));
    assert_eq!(true, display.pixel(20, 1));
    for x in 0..90 {
        for y in 0..7 {
            let expected = (x, y) == (10, 4) || (x, y) == (20, 1);
            assert_eq!(expected, display.pixel(x, y));
        }
    }
}

#[test]
fn repeated_flush_keeps_editing_same_page() {
    let bus = manual_bus();
    let mut display =
        FlipdotDisplay::new_with_bus(shared_bus(bus.clone()), Address(3), SignType::Max3000Side90x7);
    display.draw_iter(&vec![(0, 0, true)]);
    display.flush().unwrap();
    display.draw_iter(&vec![(1, 1, true)]);
    display.flush().unwrap();

    let bus = bus.borrow();
    let page = &bus.sign(0).pages()[0];
    assert_eq!(true, page.get_pixel(0, 0));
    assert_eq!(true, page.get_pixel(1, 1));
}
