//! Conversion core for subtitle documents: charset resolution and sniffing,
//! replace-trapped decode and re-encode with byte-order marks, and a per-block
//! line-selection and Chinese-script transform.

pub mod charset;
pub mod pipeline;
pub mod textlines;
pub mod transform;
