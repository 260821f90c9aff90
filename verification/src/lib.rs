//! Amplitude-envelope tapers for sample buffers.
//!
//! A taper multiplies the leading and/or trailing samples of a signal by the
//! weights of a symmetric window curve, so that the signal rises smoothly from
//! silence and falls smoothly back into it.  This crate holds the discrete
//! core of that operation: clamping the requested taper length, laying out
//! which sample is scaled by which curve position, the exact weight model of
//! the linear window, and the boundary parser for window-family tags.
//!
//! The floating-point evaluation of the curve weights and the in-place
//! multiplication of the samples sit outside this crate, driven entirely by
//! the plans produced here.

use vstd::prelude::*;

pub mod parse;
pub mod taper;
pub mod window;

pub use parse::parse_window_type;
pub use taper::TaperStep;
pub use taper::effective_taper_size;
pub use taper::is_taper_length_zero;
pub use taper::taper_plan;
pub use window::linear_curve_numerators;
pub use window::linear_weight_num;

verus! {

/// Which edge (or edges) of the buffer a taper is applied to.
#[derive(Clone, Copy, PartialEq, Eq, Structural, Debug)]
pub enum FadeType {
    /// Scale the leading samples by the rising half of the curve.
    FadeIn,
    /// Scale the trailing samples by the falling half of the curve.
    FadeOut,
    /// Apply the fade-in and then the fade-out, with the same length.
    Both,
}

/// The closed set of window shapes a taper can use.
#[derive(Clone, Copy, PartialEq, Eq, Structural, Debug)]
pub enum WindowType {
    Linear,
    Hann,
    Cosine,
    Blackman,
}

/// Specifies the shape and length of the taper to be applied.
#[derive(Clone, Copy, PartialEq, Eq, Structural, Debug)]
pub struct TaperSpec {
    /// The window family whose weights shape the taper.
    pub taper_type: WindowType,
    /// The requested taper length in samples; advisory, clamped by the engine
    /// to half the buffer.
    pub taper_length: usize,
}

/// The failures the taper boundary can report.
#[derive(Clone, Copy, PartialEq, Eq, Structural, Debug)]
pub enum TaperError {
    /// A window-family tag did not name any of the recognized families.
    UnknownWindowFamily,
}

} // verus!
