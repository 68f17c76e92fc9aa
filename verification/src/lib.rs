//! Conversion of a standard optical-disc image into an XDVDFS ("XISO") image.
//!
//! The library holds the verified core of the converter: a path model, the
//! conversion state machine that decides every step of a conversion run, and
//! the logic that turns an outcome into a status code and a bounded,
//! nul-terminated error buffer. A thin unverified shim performs the actual
//! file I/O and codec calls, strictly as directed by the state machine.

pub mod convert;
pub mod laws;
pub mod paths;
pub mod report;
