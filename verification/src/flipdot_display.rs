//! The display adapter: one page buffer bound to one sign on a shared bus.

use flipdot::{Address, Page, PageFlipStyle, Sign, SignError, SignType};
use vstd::prelude::*;

use crate::pixel_grid::{clear_pixels, grid_dom, grid_map, lemma_grid_map_dom, write_pixel, write_pixels};
use crate::transport::{
    page_get_pixel, page_h, page_height, page_pixels, page_set_all_pixels, page_set_pixel,
    page_w, page_width, serial_bus, sign_configure_if_needed, sign_create_page, sign_new,
    sign_send_page, sign_show_loaded_page, sign_type_height, sign_type_width, virtual_bus,
    BusHandle,
};

verus! {

/// The kind of sign bus to create.
pub enum SignBusType<'a> {
    /// Communicate with a real sign over the named serial port.
    Serial(&'a str),
    /// Drive a simulated sign for testing.
    Virtual,
}

/// Whether `s` spells the marker word for the simulated bus, compared
/// letter by letter ignoring ASCII case.
pub open spec fn is_virtual_token(s: Seq<char>) -> bool {
    s.len() == 7 && (s[0] == 'v' || s[0] == 'V') && (s[1] == 'i' || s[1] == 'I') && (s[2] == 'r'
        || s[2] == 'R') && (s[3] == 't' || s[3] == 'T') && (s[4] == 'u' || s[4] == 'U') && (s[5]
        == 'a' || s[5] == 'A') && (s[6] == 'l' || s[6] == 'L')
}

impl<'a> SignBusType<'a> {
    /// Resolves a configuration value: the marker word for the simulated
    /// bus, matched ignoring ASCII case, selects `Virtual`; anything else is
    /// taken literally as a serial port name.
    pub fn from_port(port: &'a str) -> (r: SignBusType<'a>)
        ensures
            is_virtual_token(port@) ==> (r is Virtual),
            !is_virtual_token(port@) ==> (r matches SignBusType::Serial(p) && p@ == port@),
    {
        if Self::is_virtual_port(port) {
            SignBusType::Virtual
        } else {
            SignBusType::Serial(port)
        }
    }

    /// Whether `port` names the simulated bus, ignoring ASCII case.
    pub fn is_virtual_port(port: &str) -> (r: bool)
        ensures
            r == is_virtual_token(port@),
    {
        let n = port.unicode_len();
        if n != 7 {
            return false;
        }
        let c0 = port.get_char(0);
        let c1 = port.get_char(1);
        let c2 = port.get_char(2);
        let c3 = port.get_char(3);
        let c4 = port.get_char(4);
        let c5 = port.get_char(5);
        let c6 = port.get_char(6);
        (c0 == 'v' || c0 == 'V') && (c1 == 'i' || c1 == 'I') && (c2 == 'r' || c2 == 'R') && (c3
            == 't' || c3 == 'T') && (c4 == 'u' || c4 == 'U') && (c5 == 'a' || c5 == 'A') && (c6
            == 'l' || c6 == 'L')
    }
}

/// A drawing surface for one sign.
///
/// The adapter owns a page buffer sized to the sign's dimensions. Pixel
/// writes and clears mutate only that buffer and cannot fail; [`flush`]
/// transmits the buffer over the bus and, when the sign reports the manual
/// page-flip style, commands it to show the page.
///
/// [`flush`]: FlipdotDisplay::flush
pub struct FlipdotDisplay {
    page: Page<'static>,
    sign: Sign,
    width: u32,
    height: u32,
}

impl View for FlipdotDisplay {
    type V = Map<(int, int), bool>;

    /// The pixel states of the owned page buffer.
    closed spec fn view(&self) -> Map<(int, int), bool> {
        page_pixels(self.page)
    }
}

impl FlipdotDisplay {
    /// The width the adapter was constructed with.
    pub closed spec fn spec_width(&self) -> u32 {
        self.width
    }

    /// The height the adapter was constructed with.
    pub closed spec fn spec_height(&self) -> u32 {
        self.height
    }

    /// The cached dimensions agree with the owned page, and the buffer holds
    /// exactly the in-bounds coordinates.
    pub closed spec fn wf(&self) -> bool {
        &&& page_width(self.page) == self.width
        &&& page_height(self.page) == self.height
        &&& self@.dom() == grid_dom(self.width as int, self.height as int)
    }

    /// Creates a display for the sign at `address` of type `sign_type`,
    /// building the bus described by `bus_type` first.
    ///
    /// The simulated bus always succeeds; a serial bus fails with the
    /// underlying error when the port cannot be opened or configured, and no
    /// display is returned then.
    pub fn try_new(bus_type: SignBusType<'_>, address: Address, sign_type: SignType) -> (r:
        Result<FlipdotDisplay, serial::Error>)
        ensures
            (bus_type is Virtual) ==> (r is Ok),
            (r is Err) ==> (bus_type is Serial),
            r matches Ok(d) ==> d.wf() && d.spec_width() == sign_type_width(sign_type)
                && d.spec_height() == sign_type_height(sign_type) && d@ == grid_map(
                d.spec_width() as int,
                d.spec_height() as int,
                false,
            ),
    {
        let bus = match bus_type {
            SignBusType::Virtual => virtual_bus(address),
            SignBusType::Serial(port) => {
                match serial_bus(port) {
                    Ok(bus) => bus,
                    Err(e) => {
                        return Err(e);
                    },
                }
            },
        };
        Ok(Self::new_with_bus(bus, address, sign_type))
    }

    /// Creates a display for the sign at `address` of type `sign_type` on an
    /// already-built shared bus. The buffer starts with every pixel off.
    pub fn new_with_bus(bus: BusHandle, address: Address, sign_type: SignType) -> (r:
        FlipdotDisplay)
        ensures
            r.wf(),
            r.spec_width() == sign_type_width(sign_type),
            r.spec_height() == sign_type_height(sign_type),
            r@ == grid_map(r.spec_width() as int, r.spec_height() as int, false),
    {
        let sign = sign_new(&bus, address, sign_type);
        let page = sign_create_page(&sign);
        let width = page_w(&page);
        let height = page_h(&page);
        proof {
            lemma_grid_map_dom(width as int, height as int, false);
        }
        FlipdotDisplay { page, sign, width, height }
    }

    /// The width in pixels of the sign's display area.
    pub fn width(&self) -> (r: u32)
        ensures
            r == self.spec_width(),
    {
        self.width
    }

    /// The height in pixels of the sign's display area.
    pub fn height(&self) -> (r: u32)
        ensures
            r == self.spec_height(),
    {
        self.height
    }

    /// Writes a batch of pixels, given as `(x, y, on)` triples in a signed
    /// coordinate system. Each in-bounds pixel is written in order; each
    /// coordinate that is negative or beyond the sign's dimensions is
    /// dropped, mutating nothing and never failing, so rasterizers may draw
    /// shapes that cross the edges of the display.
    pub fn draw_iter(&mut self, pixels: &Vec<(i32, i32, bool)>)
        requires
            old(self).wf(),
        ensures
            final(self).wf(),
            final(self).spec_width() == old(self).spec_width(),
            final(self).spec_height() == old(self).spec_height(),
            final(self)@ == write_pixels(
                old(self)@,
                old(self).spec_width() as int,
                old(self).spec_height() as int,
                pixels@,
            ),
    {
        let ghost m0 = self@;
        let ghost w = self.width as int;
        let ghost h = self.height as int;
        for i in 0..pixels.len()
            invariant
                self.wf(),
                self.width as int == w,
                self.height as int == h,
                self.sign == old(self).sign,
                self@ == write_pixels(m0, w, h, pixels@.take(i as int)),
        {
            let (x, y, on) = pixels[i];
            let ghost before = self@;
            if x >= 0 && y >= 0 && (x as u32) < self.width && (y as u32) < self.height {
                page_set_pixel(&mut self.page, x as u32, y as u32, on);
                proof {
                    assert(self@.dom() =~= grid_dom(w, h));
                }
            }
            proof {
                assert(pixels@.take(i + 1).drop_last() =~= pixels@.take(i as int));
                assert(pixels@.take(i + 1).last() == pixels@[i as int]);
                assert(self@ == write_pixel(before, w, h, x as int, y as int, on));
            }
        }
        proof {
            assert(pixels@.take(pixels@.len() as int) =~= pixels@);
        }
    }

    /// Sets every pixel of the buffer to `on` in one call; this always
    /// succeeds and leaves the buffer independent of its earlier contents.
    pub fn clear(&mut self, on: bool)
        requires
            old(self).wf(),
        ensures
            final(self).wf(),
            final(self).spec_width() == old(self).spec_width(),
            final(self).spec_height() == old(self).spec_height(),
            final(self)@ == clear_pixels(
                old(self)@,
                old(self).spec_width() as int,
                old(self).spec_height() as int,
                on,
            ),
    {
        page_set_all_pixels(&mut self.page, on);
        proof {
            lemma_grid_map_dom(self.width as int, self.height as int, on);
        }
    }

    /// Reads one in-bounds pixel of the buffer.
    pub fn pixel(&self, x: u32, y: u32) -> (r: bool)
        requires
            self.wf(),
            x < self.spec_width(),
            y < self.spec_height(),
        ensures
            r == self@[(x as int, y as int)],
    {
        page_get_pixel(&self.page, x, y)
    }

    /// Whether a sign reporting `style` needs an explicit command to show
    /// the page it was sent: exactly the manual page-flip style does, and
    /// the automatic style must not receive one.
    pub fn show_required(style: PageFlipStyle) -> (r: bool)
        ensures
            r == (style == PageFlipStyle::Manual),
    {
        match style {
            PageFlipStyle::Manual => true,
            PageFlipStyle::Automatic => false,
        }
    }

    /// Sends the buffer to the sign and makes it visible.
    ///
    /// The sign is first asked to configure itself if the bus has not done
    /// so yet; the page is then transmitted, and when the sign reports the
    /// manual page-flip style it is told to show the loaded page. The first
    /// failing step aborts the flush and surfaces the transport's error.
    ///
    /// The display is only borrowed: the buffer is never changed by a flush,
    /// failed or not, so the caller may flush again, or keep editing the
    /// same page, without redrawing. When the show step fails the sign has
    /// already received the new pixel data without activating it; that
    /// two-step hazard of the manual style is inherent to the protocol.
    pub fn flush(&self) -> (r: Result<(), SignError>) {
        match sign_configure_if_needed(&self.sign) {
            Ok(_) => {},
            Err(e) => {
                return Err(e);
            },
        }
        let style = match sign_send_page(&self.sign, &self.page) {
            Ok(style) => style,
            Err(e) => {
                return Err(e);
            },
        };
        if Self::show_required(style) {
            match sign_show_loaded_page(&self.sign) {
                Ok(_) => {},
                Err(e) => {
                    return Err(e);
                },
            }
        }
        Ok(())
    }
}

} // verus!
