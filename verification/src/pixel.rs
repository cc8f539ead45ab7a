//! The WS2812 pixel driver of `ws2812-esp32-rmt-driver`, together with a
//! record of what was asked of it: the RMT channel and pin it was installed
//! for, every frame of bytes handed to it, and the outcome of the last write.
//! Only the two trusted calls below change that record.
use vstd::prelude::*;
use ws2812_esp32_rmt_driver::{Ws2812Esp32RmtDriver, Ws2812Esp32RmtDriverError};

verus! {

#[verifier::external_type_specification]
#[verifier::external_body]
pub struct ExWs2812Esp32RmtDriver(Ws2812Esp32RmtDriver);

#[verifier::external_type_specification]
#[verifier::external_body]
pub struct ExWs2812Esp32RmtDriverError(Ws2812Esp32RmtDriverError);

/// An installed pixel driver and the record of its use.
pub struct PixelDriver {
    driver: Ws2812Esp32RmtDriver,
    channel: Ghost<u8>,
    gpio: Ghost<u32>,
    frames: Ghost<Seq<Seq<u8>>>,
    last_result: Ghost<Option<Result<(), Ws2812Esp32RmtDriverError>>>,
}

impl PixelDriver {
    /// The RMT channel the driver was installed on.
    pub closed spec fn channel(&self) -> u8 {
        self.channel@
    }

    /// The GPIO pin the driver was installed for.
    pub closed spec fn gpio(&self) -> u32 {
        self.gpio@
    }

    /// Every frame handed to the driver, oldest first.
    pub closed spec fn frames(&self) -> Seq<Seq<u8>> {
        self.frames@
    }

    /// What the last write returned, if there was one.
    pub closed spec fn last_result(&self) -> Option<Result<(), Ws2812Esp32RmtDriverError>> {
        self.last_result@
    }

    /// `Ws2812Esp32RmtDriver::new(channel_num, gpio_num)`: configures RMT
    /// channel `channel_num` to drive `gpio_num` and installs its driver.
    /// Whether that succeeds is up to the hardware, so nothing is promised of
    /// it; a driver it returns is the one installed on that channel for that
    /// pin, with nothing written yet.
    #[verifier::external_body]
    pub(crate) fn install(channel_num: u8, gpio_num: u32) -> (r: Result<PixelDriver, Ws2812Esp32RmtDriverError>)
        ensures
            r matches Ok(d) ==> {
                &&& d.channel() == channel_num
                &&& d.gpio() == gpio_num
                &&& d.frames() == Seq::<Seq<u8>>::empty()
                &&& d.last_result() is None
            },
    {
        Ws2812Esp32RmtDriver::new(channel_num, gpio_num).map(|driver| PixelDriver {
            driver,
            channel: Ghost(channel_num),
            gpio: Ghost(gpio_num),
            frames: Ghost(Seq::empty()),
            last_result: Ghost(None),
        })
    }

    /// `Ws2812Esp32RmtDriver::write(pixel_data)`: sends the bytes out on the
    /// pin, once. Whether that succeeds is up to the hardware, so nothing is
    /// promised of the result; the frame is recorded as handed to the driver,
    /// and the result as the last write's.
    #[verifier::external_body]
    pub(crate) fn write(&mut self, pixel_data: &[u8]) -> (r: Result<(), Ws2812Esp32RmtDriverError>)
        ensures
            final(self).frames() == old(self).frames().push(pixel_data@),
            final(self).last_result() == Some(r),
            final(self).channel() == old(self).channel(),
            final(self).gpio() == old(self).gpio(),
    {
        let r = self.driver.write(pixel_data);
        proof {
            self.frames@ = self.frames@.push(pixel_data@);
            self.last_result@ = Some(r);
        }
        r
    }
}

} // verus!
