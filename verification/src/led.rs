//! The status LED: a single WS2812 pixel driven through the ESP32 RMT
//! peripheral, and the colours the firmware shows on it.
use vstd::prelude::*;
use ws2812_esp32_rmt_driver::driver::color::{LedPixelColor, LedPixelColorGrb24};
use ws2812_esp32_rmt_driver::Ws2812Esp32RmtDriverError;
use crate::pixel::PixelDriver;
use crate::api::WifiConnectionType;

verus! {

/// `LedPixelColorGrb24::new_with_rgb(r, g, b).as_ref()`: the three bytes of a
/// 24-bit GRB pixel, green first, then red, then blue.
#[verifier::external_body]
fn grb24_bytes(r: u8, g: u8, b: u8) -> (bytes: Vec<u8>)
    ensures
        bytes@ == seq![g, r, b],
{
    LedPixelColorGrb24::new_with_rgb(r, g, b).as_ref().to_vec()
}

/// The bytes of one GRB pixel showing (`r`, `g`, `b`): green, red, blue.
pub fn grb_pixel(r: u8, g: u8, b: u8) -> (bytes: Vec<u8>)
    ensures
        bytes@ == seq![g, r, b],
{
    grb24_bytes(r, g, b)
}

/// A colour as red, green and blue intensities.
#[derive(Clone, Copy, Debug, PartialEq, Eq, Structural)]
pub struct Rgb {
    pub r: u8,
    pub g: u8,
    pub b: u8,
}

/// The single status LED.
pub struct LedDriver {
    pixel: PixelDriver,
}

impl LedDriver {
    /// The pixel driver behind the LED, with its record of use.
    pub closed spec fn pixel(&self) -> PixelDriver {
        self.pixel
    }

    /// The LED driven through `installed`, the outcome of installing the
    /// pixel driver: the LED when the installation succeeded; the
    /// installation's error otherwise.
    pub fn from_install(installed: Result<PixelDriver, Ws2812Esp32RmtDriverError>) -> (r: Result<
        Self,
        Ws2812Esp32RmtDriverError,
    >)
        ensures
            r is Ok <==> installed is Ok,
            r matches Ok(d) ==> installed == Ok::<PixelDriver, Ws2812Esp32RmtDriverError>(d.pixel()),
            r matches Err(e) ==> installed == Err::<PixelDriver, Ws2812Esp32RmtDriverError>(e),
    {
        match installed {
            Ok(pixel) => Ok(LedDriver { pixel }),
            Err(e) => Err(e),
        }
    }

    /// Installs the pixel driver for the LED on pin `led_pin`, on RMT channel
    /// `rmt_channel`. Whether the installation succeeds is up to the
    /// hardware; the result is the installation's outcome, passed on by
    /// [`LedDriver::from_install`].
    pub fn new(led_pin: u32, rmt_channel: u8) -> (r: Result<Self, Ws2812Esp32RmtDriverError>)
        ensures
            r matches Ok(d) ==> {
                &&& d.pixel().channel() == rmt_channel
                &&& d.pixel().gpio() == led_pin
                &&& d.pixel().frames() == Seq::<Seq<u8>>::empty()
            },
    {
        Self::from_install(PixelDriver::install(rmt_channel, led_pin))
    }

    /// Shows the colour (`r`, `g`, `b`): exactly one frame, the pixel as
    /// green, red, blue, is written, and its result is returned.
    pub fn set_rgb(&mut self, r: u8, g: u8, b: u8) -> (res: Result<(), Ws2812Esp32RmtDriverError>)
        ensures
            final(self).pixel().frames() == old(self).pixel().frames().push(seq![g, r, b]),
            final(self).pixel().last_result() == Some(res),
            final(self).pixel().channel() == old(self).pixel().channel(),
            final(self).pixel().gpio() == old(self).pixel().gpio(),
    {
        let bytes = grb_pixel(r, g, b);
        self.pixel.write(bytes.as_slice())
    }

    /// Switches the LED off: exactly one frame with every channel at zero is
    /// written, and its result is returned.
    pub fn off(&mut self) -> (res: Result<(), Ws2812Esp32RmtDriverError>)
        ensures
            final(self).pixel().frames() == old(self).pixel().frames().push(seq![0u8, 0u8, 0u8]),
            final(self).pixel().last_result() == Some(res),
            final(self).pixel().channel() == old(self).pixel().channel(),
            final(self).pixel().gpio() == old(self).pixel().gpio(),
    {
        let bytes = grb_pixel(0, 0, 0);
        self.pixel.write(bytes.as_slice())
    }
}

/// The colour shown while the firmware starts up: dim red.
pub fn boot_color() -> (c: Rgb)
    ensures
        c == (Rgb { r: 20, g: 0, b: 0 }),
{
    Rgb { r: 20, g: 0, b: 0 }
}

/// The colour shown once the radio is up: green when joined to a network,
/// yellow when running as an access point.
pub open spec fn wifi_status_color_spec(t: WifiConnectionType) -> Rgb {
    match t {
        WifiConnectionType::ConnectToExternal => Rgb { r: 0, g: 20, b: 0 },
        WifiConnectionType::StartAccessPoint => Rgb { r: 10, g: 10, b: 0 },
    }
}

/// The colour shown once the radio is up (see [`wifi_status_color_spec`]).
pub fn wifi_status_color(t: WifiConnectionType) -> (c: Rgb)
    ensures
        c == wifi_status_color_spec(t),
{
    match t {
        WifiConnectionType::ConnectToExternal => Rgb { r: 0, g: 20, b: 0 },
        _ => Rgb { r: 10, g: 10, b: 0 },
    }
}

} // verus!
