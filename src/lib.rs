//! A daemon core that drives one phonetic input-method session from requests
//! arriving on four local channels: key symbols are translated to engine key
//! codes, candidate indices are parsed, and the resulting composition is
//! encoded as a JSON object for the waiting output connection.
pub mod daemon;
pub mod index;
pub mod keymap;
pub mod response;
pub mod socket;
