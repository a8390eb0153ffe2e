//! Trusted boundary to the sign hardware crates.
//!
//! The page buffer, the sign binding and the bus all come from the `flipdot`
//! family of crates; serial ports come from `serial`. Verus sees those values
//! opaquely: the contents and dimensions of a page are given names
//! ([`page_pixels`], [`page_width`], [`page_height`]) and each method the
//! adapter calls is wrapped in a function whose contract states, over those
//! names, what the crate's source shows.

use std::cell::RefCell;
use std::iter;
use std::rc::Rc;

use flipdot::{Address, Page, PageFlipStyle, PageId, SerialSignBus, Sign, SignBus, SignError, SignType};
use flipdot_testing::{VirtualSign, VirtualSignBus};
use vstd::prelude::*;

use crate::pixel_grid::grid_map;

verus! {

#[verifier::external_type_specification]
#[verifier::external_body]
pub struct ExPage<'a>(Page<'a>);

#[verifier::external_type_specification]
#[verifier::external_body]
pub struct ExSign(Sign);

#[verifier::external_type_specification]
#[verifier::external_body]
pub struct ExSignError(SignError);

#[verifier::external_type_specification]
#[verifier::external_body]
pub struct ExSerialError(serial::Error);

#[verifier::external_type_specification]
#[verifier::external_body]
pub struct ExSignType(SignType);

#[verifier::external_type_specification]
#[verifier::external_body]
pub struct ExAddress(Address);

#[verifier::external_type_specification]
pub struct ExPageFlipStyle(PageFlipStyle);

#[verifier::external_type_specification]
#[verifier::external_body]
#[verifier::reject_recursive_types(T)]
pub struct ExRefCell<T: ?Sized>(RefCell<T>);

/// The pixel states a page holds, keyed by in-bounds `(x, y)` coordinates.
pub uninterp spec fn page_pixels(p: Page<'static>) -> Map<(int, int), bool>;

/// The width a page was created with.
pub uninterp spec fn page_width(p: Page<'static>) -> u32;

/// The height a page was created with.
pub uninterp spec fn page_height(p: Page<'static>) -> u32;

/// The width entry of a sign type's fixed geometry table.
pub uninterp spec fn sign_type_width(t: SignType) -> u32;

/// The height entry of a sign type's fixed geometry table.
pub uninterp spec fn sign_type_height(t: SignType) -> u32;

/// The display width of the sign a binding addresses.
pub uninterp spec fn sign_width(s: Sign) -> u32;

/// The display height of the sign a binding addresses.
pub uninterp spec fn sign_height(s: Sign) -> u32;

/// A shared handle to one sign bus.
///
/// Several adapters may address different signs on the same bus, so the bus
/// sits behind a reference-counted cell with an exclusive-borrow discipline;
/// only the trait object inside is opaque to Verus, and every operation on it
/// goes through the wrappers below.
#[verifier::external_body]
pub struct BusHandle {
    bus: Rc<RefCell<dyn SignBus>>,
}

/// Wraps a caller-built bus for shared use, keeping the caller's own handle
/// valid. Only converts `Rc<RefCell<B>>` to the trait-object form.
#[verifier::external_body]
pub fn shared_bus<B: SignBus + 'static>(bus: Rc<RefCell<B>>) -> (r: BusHandle) {
    BusHandle { bus }
}

/// Relies on `flipdot_testing`'s `VirtualSignBus::new` and `VirtualSign::new`:
/// builds a simulated bus holding one manual-flip sign at `address`; this
/// construction cannot fail.
#[verifier::external_body]
pub(crate) fn virtual_bus(address: Address) -> (r: BusHandle) {
    let bus = VirtualSignBus::new(iter::once(VirtualSign::new(address, PageFlipStyle::Manual)));
    BusHandle { bus: Rc::new(RefCell::new(bus)) }
}

/// Relies on `serial::open` and `flipdot`'s `SerialSignBus::try_new`: opens
/// and configures the named serial port, surfacing their error if either
/// step fails; no outcome is promised, since it depends on the machine.
#[verifier::external_body]
pub(crate) fn serial_bus(port: &str) -> (r: Result<BusHandle, serial::Error>) {
    let port = serial::open(port)?;
    let bus = SerialSignBus::try_new(port)?;
    Ok(BusHandle { bus: Rc::new(RefCell::new(bus)) })
}

/// Relies on `flipdot`'s `Sign::new`: only stores the bus, address and sign
/// type; it performs no bus traffic and cannot fail. The sign's dimensions
/// are the stored type's fixed geometry-table entries, which `Sign::width`
/// and `Sign::height` read back.
#[verifier::external_body]
pub(crate) fn sign_new(bus: &BusHandle, address: Address, sign_type: SignType) -> (s: Sign)
    ensures
        sign_width(s) == sign_type_width(sign_type),
        sign_height(s) == sign_type_height(sign_type),
{
    Sign::new(Rc::clone(&bus.bus), address, sign_type)
}

/// Relies on `flipdot`'s `Sign::create_page`: returns a blank page (every
/// pixel off) sized to the sign's dimensions.
#[verifier::external_body]
pub(crate) fn sign_create_page(sign: &Sign) -> (p: Page<'static>)
    ensures
        page_width(p) == sign_width(*sign),
        page_height(p) == sign_height(*sign),
        page_pixels(p) == grid_map(page_width(p) as int, page_height(p) as int, false),
{
    sign.create_page(PageId(0))
}

/// Relies on `flipdot`'s `Page::width`.
#[verifier::external_body]
pub(crate) fn page_w(p: &Page<'static>) -> (r: u32)
    ensures
        r == page_width(*p),
{
    p.width()
}

/// Relies on `flipdot`'s `Page::height`.
#[verifier::external_body]
pub(crate) fn page_h(p: &Page<'static>) -> (r: u32)
    ensures
        r == page_height(*p),
{
    p.height()
}

/// Relies on `flipdot`'s `Page::set_pixel`: rewrites the one addressed pixel
/// and nothing else. It panics on an out-of-bounds coordinate, so bounds are
/// required here.
#[verifier::external_body]
pub(crate) fn page_set_pixel(p: &mut Page<'static>, x: u32, y: u32, on: bool)
    requires
        x < page_width(*old(p)),
        y < page_height(*old(p)),
    ensures
        page_width(*final(p)) == page_width(*old(p)),
        page_height(*final(p)) == page_height(*old(p)),
        page_pixels(*final(p)) == page_pixels(*old(p)).insert((x as int, y as int), on),
{
    p.set_pixel(x, y, on);
}

/// Relies on `flipdot`'s `Page::get_pixel`: reads the one addressed pixel. It
/// panics on an out-of-bounds coordinate, so bounds are required here.
#[verifier::external_body]
pub(crate) fn page_get_pixel(p: &Page<'static>, x: u32, y: u32) -> (r: bool)
    requires
        x < page_width(*p),
        y < page_height(*p),
    ensures
        r == page_pixels(*p)[(x as int, y as int)],
{
    p.get_pixel(x, y)
}

/// Relies on `flipdot`'s `Page::set_all_pixels`: rewrites every pixel of the
/// page to `on`; it cannot fail.
#[verifier::external_body]
pub(crate) fn page_set_all_pixels(p: &mut Page<'static>, on: bool)
    ensures
        page_width(*final(p)) == page_width(*old(p)),
        page_height(*final(p)) == page_height(*old(p)),
        page_pixels(*final(p)) == grid_map(
            page_width(*old(p)) as int,
            page_height(*old(p)) as int,
            on,
        ),
{
    p.set_all_pixels(on);
}

/// Relies on `flipdot`'s `Sign::configure_if_needed`: sends configuration
/// over the bus unless the sign already has it. Success depends on the bus
/// and the sign, so no outcome is promised. The bus must not be borrowed
/// elsewhere while this runs.
#[verifier::external_body]
pub(crate) fn sign_configure_if_needed(sign: &Sign) -> (r: Result<(), SignError>) {
    sign.configure_if_needed()
}

/// Relies on `flipdot`'s `Sign::send_pages`, called with this one page:
/// transmits the page's pixel data and reports the sign's page-flip style as
/// observed during transmission. Success and style depend on the sign, so no
/// outcome is promised. The bus must not be borrowed elsewhere while this
/// runs.
#[verifier::external_body]
pub(crate) fn sign_send_page(sign: &Sign, page: &Page<'static>) -> (r: Result<
    PageFlipStyle,
    SignError,
>) {
    sign.send_pages(iter::once(page))
}

/// Relies on `flipdot`'s `Sign::show_loaded_page`: commands the sign to make
/// the transmitted page visible. Success depends on the sign, so no outcome
/// is promised. The bus must not be borrowed elsewhere while this runs.
#[verifier::external_body]
pub(crate) fn sign_show_loaded_page(sign: &Sign) -> (r: Result<(), SignError>) {
    sign.show_loaded_page()
}

} // verus!
