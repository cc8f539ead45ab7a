//! Verified core of the RRR rocket flight computer: the Wi-Fi settings and
//! their storage layout, the start-up and fallback decisions of the radio,
//! firmware download bookkeeping, status LED colours, the web server's
//! routing decisions and the cone mesh topology used by the 3D view.
#![allow(unused_imports)]

pub mod api;
pub mod nvs;
pub mod wifi;
pub mod ota;
pub mod pixel;
pub mod led;
pub mod server;
pub mod cone;
pub mod ui;
