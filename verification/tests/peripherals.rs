use rrr::pixel::PixelDriver;
use ws2812_esp32_rmt_driver::Ws2812Esp32RmtDriverError;
use rrr::api::WifiConnectionType;
use rrr::led::{boot_color, grb_pixel, wifi_status_color, LedDriver, Rgb};
use rrr::ota::{begin_ota, OtaCall, OtaError, OtaStep, OTA_CHUNK_SIZE};

#[test]
fn grb_pixel_puts_green_first() {
    assert_eq!(grb_pixel(1, 2, 3), vec![2, 1, 3]);
    assert_eq!(grb_pixel(20, 0, 0), vec![0, 20, 0]);
}

#[test]
fn led_driver_writes_on_host() {
    let mut led = LedDriver::new(9, 0).unwrap_or_else(|_| panic!("driver"));
    assert!(led.set_rgb(20, 0, 0).is_ok());
    assert!(led.off().is_ok());
}

#[test]
fn status_colors() {
    assert_eq!(boot_color(), Rgb { r: 20, g: 0, b: 0 });
    assert_eq!(wifi_status_color(WifiConnectionType::ConnectToExternal), Rgb { r: 0, g: 20, b: 0 });
    assert_eq!(wifi_status_color(WifiConnectionType::StartAccessPoint), Rgb { r: 10, g: 10, b: 0 });
}

#[test]
fn ota_error_messages() {
    assert_eq!(OtaError::UrlUnavailable.message(), "Url is unavailable");
    assert_eq!(OtaError::ConnectionInterrupted.message(), "Firmware download was interrupted");
    assert_eq!(OtaError::EspBackendFailure.message(), "ESP-IDF stack error");
    assert_eq!(OtaError::FileTooBig.message(), "Firmware does not fit the partition");
}

#[test]
fn ota_failures_map_to_errors() {
    assert_eq!(OtaError::for_failed(OtaCall::InitiateUpdate), OtaError::EspBackendFailure);
    assert_eq!(OtaError::for_failed(OtaCall::OpenConnection), OtaError::EspBackendFailure);
    assert_eq!(OtaError::for_failed(OtaCall::Request), OtaError::UrlUnavailable);
    assert_eq!(OtaError::for_failed(OtaCall::Submit), OtaError::UrlUnavailable);
    assert_eq!(OtaError::for_failed(OtaCall::Complete), OtaError::EspBackendFailure);
}

/// Runs an update whose calls all succeed except `failing`, reading chunks of
/// the given sizes; returns the calls made, the writes and the result.
fn run_update(failing: Option<OtaCall>, chunks: &[usize]) -> (Vec<OtaCall>, Vec<usize>, Result<usize, OtaError>) {
    let mut calls = Vec::new();
    let mut writes = Vec::new();
    let mut chunks = chunks.iter();
    let mut step = begin_ota();
    loop {
        step = match step {
            OtaStep::Call { next } => {
                let call = next.call();
                calls.push(call);
                next.resume(Some(call) != failing)
            }
            OtaStep::Read { next } => next.resume(*chunks.next().expect("no more chunks")),
            OtaStep::Write { len, next } => {
                writes.push(len);
                next.resume()
            }
            OtaStep::Finished(r) => return (calls, writes, r),
        }
    }
}

#[test]
fn ota_update_counts_bytes_and_stops_on_short_chunk() {
    let (calls, writes, result) = run_update(None, &[OTA_CHUNK_SIZE, 100, 42]);
    assert_eq!(
        calls,
        vec![OtaCall::InitiateUpdate, OtaCall::OpenConnection, OtaCall::Request, OtaCall::Submit, OtaCall::Complete]
    );
    assert_eq!(writes, vec![100, 100, 42]);
    assert_eq!(result.unwrap(), 242);
}

#[test]
fn ota_update_of_empty_image() {
    let (_, writes, result) = run_update(None, &[0]);
    assert_eq!(writes, vec![0]);
    assert_eq!(result.unwrap(), 0);
}

#[test]
fn ota_update_failures() {
    let (calls, _, result) = run_update(Some(OtaCall::InitiateUpdate), &[]);
    assert_eq!(calls, vec![OtaCall::InitiateUpdate]);
    assert_eq!(result.unwrap_err(), OtaError::EspBackendFailure);
    let (_, _, result) = run_update(Some(OtaCall::Submit), &[]);
    assert_eq!(result.unwrap_err(), OtaError::UrlUnavailable);
    let (_, writes, result) = run_update(Some(OtaCall::Complete), &[100, 7]);
    assert_eq!(writes, vec![100, 7]);
    assert_eq!(result.unwrap_err(), OtaError::EspBackendFailure);
}

#[test]
fn from_install_passes_on_the_error() {
    let failed: Result<PixelDriver, Ws2812Esp32RmtDriverError> = Err(Ws2812Esp32RmtDriverError);
    assert!(LedDriver::from_install(failed).is_err());
}

/// Runs an update whose calls succeed, reading full chunks `full` times, then
/// failing the next read, or the next write when `write_fails` is given.
fn run_broken_update(full: usize, write_fails: Option<bool>) -> (Vec<OtaCall>, Result<usize, OtaError>) {
    let mut calls = Vec::new();
    let mut reads = 0;
    let mut step = begin_ota();
    loop {
        step = match step {
            OtaStep::Call { next } => {
                calls.push(next.call());
                next.resume(true)
            }
            OtaStep::Read { next } => {
                reads += 1;
                if reads <= full {
                    next.resume(OTA_CHUNK_SIZE)
                } else if write_fails.is_some() {
                    next.resume(10)
                } else {
                    next.interrupted()
                }
            }
            OtaStep::Write { next, .. } => match write_fails {
                Some(exceeds) if reads > full => next.failed(exceeds),
                _ => next.resume(),
            },
            OtaStep::Finished(r) => return (calls, r),
        }
    }
}

#[test]
fn ota_interrupted_download() {
    let (calls, result) = run_broken_update(3, None);
    assert!(!calls.contains(&OtaCall::Complete));
    assert_eq!(result.unwrap_err(), OtaError::ConnectionInterrupted);
}

#[test]
fn ota_image_too_big() {
    let (calls, result) = run_broken_update(2, Some(true));
    assert!(!calls.contains(&OtaCall::Complete));
    assert_eq!(result.unwrap_err(), OtaError::FileTooBig);
    let (_, result) = run_broken_update(0, Some(false));
    assert_eq!(result.unwrap_err(), OtaError::EspBackendFailure);
}

#[test]
fn ota_failed_call_stops_the_update() {
    let (calls, _, result) = run_update(Some(OtaCall::OpenConnection), &[]);
    assert_eq!(calls, vec![OtaCall::InitiateUpdate, OtaCall::OpenConnection]);
    assert_eq!(result.unwrap_err(), OtaError::EspBackendFailure);
    let (calls, _, result) = run_update(Some(OtaCall::Request), &[]);
    assert_eq!(calls.len(), 3);
    assert_eq!(result.unwrap_err(), OtaError::UrlUnavailable);
}
