//! Host-side driver logic for Nintendo Switch Joy-Con and Pro Controllers.
//!
//! The library speaks the controllers' binary protocol over a byte-stream
//! HID transport that the caller owns: it frames output reports and keeps the
//! packet number, decides the sub-command acknowledgement exchange, plans the
//! setup of each input report mode, decodes reports, calibration and colors,
//! packs rumble, and classifies the devices a scan finds. The caller performs
//! the reads and writes that these decisions ask for.
pub mod bytes;
pub mod calibration;
pub mod color;
pub mod command;
pub mod device;
pub mod driver;
pub mod features;
pub mod lights;
pub mod manager;
pub mod mode;
pub mod report;
pub mod result;
pub mod rumble;
pub mod subcommand;
