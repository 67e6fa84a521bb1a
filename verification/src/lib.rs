//! Builds Wi-Fi connection descriptor strings, encodes them as QR code
//! module matrices, and renders such matrices as printable text blocks.

pub mod descriptor;
pub mod error;
pub mod qr;
pub mod render;
