//! Color scheme selection for the graph. The gradient arithmetic itself is
//! display work and lives with the renderer; the engine only carries which
//! scheme is active and the scale ceiling the gradient is stretched to.

use vstd::prelude::*;
use vstd::string::StringExecFns;

verus! {

/// Available color schemes, cycled through in a fixed order.
#[derive(Clone, Copy, Debug, PartialEq, Eq, Structural)]
pub enum ColorScheme {
    /// Classic green-yellow-red gradient.
    Classic,
    /// Dark theme: low pings nearly invisible, spikes stand out.
    Dark,
    /// Ocean blue theme.
    Ocean,
    /// Fire theme.
    Fire,
    /// Neon theme.
    Neon,
    /// Grayscale.
    Grayscale,
    /// Matrix theme.
    Matrix,
    /// Plasma theme.
    Plasma,
    /// Ice theme.
    Ice,
    /// Thermal camera style.
    Thermal,
}

/// The scheme after `s` in the cycle.
pub open spec fn next_scheme(s: ColorScheme) -> ColorScheme {
    match s {
        ColorScheme::Classic => ColorScheme::Dark,
        ColorScheme::Dark => ColorScheme::Ocean,
        ColorScheme::Ocean => ColorScheme::Fire,
        ColorScheme::Fire => ColorScheme::Neon,
        ColorScheme::Neon => ColorScheme::Grayscale,
        ColorScheme::Grayscale => ColorScheme::Matrix,
        ColorScheme::Matrix => ColorScheme::Plasma,
        ColorScheme::Plasma => ColorScheme::Ice,
        ColorScheme::Ice => ColorScheme::Thermal,
        ColorScheme::Thermal => ColorScheme::Classic,
    }
}

/// The scheme before `s` in the cycle.
pub open spec fn prev_scheme(s: ColorScheme) -> ColorScheme {
    match s {
        ColorScheme::Classic => ColorScheme::Thermal,
        ColorScheme::Dark => ColorScheme::Classic,
        ColorScheme::Ocean => ColorScheme::Dark,
        ColorScheme::Fire => ColorScheme::Ocean,
        ColorScheme::Neon => ColorScheme::Fire,
        ColorScheme::Grayscale => ColorScheme::Neon,
        ColorScheme::Matrix => ColorScheme::Grayscale,
        ColorScheme::Plasma => ColorScheme::Matrix,
        ColorScheme::Ice => ColorScheme::Plasma,
        ColorScheme::Thermal => ColorScheme::Ice,
    }
}

/// The display name of a scheme.
pub open spec fn scheme_label(s: ColorScheme) -> Seq<char> {
    match s {
        ColorScheme::Classic => "Classic"@,
        ColorScheme::Dark => "Dark"@,
        ColorScheme::Ocean => "Ocean"@,
        ColorScheme::Fire => "Fire"@,
        ColorScheme::Neon => "Neon"@,
        ColorScheme::Grayscale => "Grayscale"@,
        ColorScheme::Matrix => "Matrix"@,
        ColorScheme::Plasma => "Plasma"@,
        ColorScheme::Ice => "Ice"@,
        ColorScheme::Thermal => "Thermal"@,
    }
}

impl ColorScheme {
    /// The next scheme in the cycle.
    pub fn next(self) -> (r: Self)
        ensures
            r == next_scheme(self),
    {
        match self {
            ColorScheme::Classic => ColorScheme::Dark,
            ColorScheme::Dark => ColorScheme::Ocean,
            ColorScheme::Ocean => ColorScheme::Fire,
            ColorScheme::Fire => ColorScheme::Neon,
            ColorScheme::Neon => ColorScheme::Grayscale,
            ColorScheme::Grayscale => ColorScheme::Matrix,
            ColorScheme::Matrix => ColorScheme::Plasma,
            ColorScheme::Plasma => ColorScheme::Ice,
            ColorScheme::Ice => ColorScheme::Thermal,
            ColorScheme::Thermal => ColorScheme::Classic,
        }
    }

    /// The previous scheme in the cycle.
    pub fn prev(self) -> (r: Self)
        ensures
            r == prev_scheme(self),
    {
        match self {
            ColorScheme::Classic => ColorScheme::Thermal,
            ColorScheme::Dark => ColorScheme::Classic,
            ColorScheme::Ocean => ColorScheme::Dark,
            ColorScheme::Fire => ColorScheme::Ocean,
            ColorScheme::Neon => ColorScheme::Fire,
            ColorScheme::Grayscale => ColorScheme::Neon,
            ColorScheme::Matrix => ColorScheme::Grayscale,
            ColorScheme::Plasma => ColorScheme::Matrix,
            ColorScheme::Ice => ColorScheme::Plasma,
            ColorScheme::Thermal => ColorScheme::Ice,
        }
    }

    /// The display name of the scheme.
    pub fn label(&self) -> (r: String)
        ensures
            r@ == scheme_label(*self),
    {
        match self {
            ColorScheme::Classic => String::from_str("Classic"),
            ColorScheme::Dark => String::from_str("Dark"),
            ColorScheme::Ocean => String::from_str("Ocean"),
            ColorScheme::Fire => String::from_str("Fire"),
            ColorScheme::Neon => String::from_str("Neon"),
            ColorScheme::Grayscale => String::from_str("Grayscale"),
            ColorScheme::Matrix => String::from_str("Matrix"),
            ColorScheme::Plasma => String::from_str("Plasma"),
            ColorScheme::Ice => String::from_str("Ice"),
            ColorScheme::Thermal => String::from_str("Thermal"),
        }
    }
}

impl Default for ColorScheme {
    /// The scheme the display starts with.
    fn default() -> (r: Self)
        ensures
            r == ColorScheme::Dark,
    {
        ColorScheme::Dark
    }
}

/// The two inputs of the RTT color gradient: the ceiling (in milliseconds)
/// that counts as "bad", and the active scheme.
#[derive(Clone, Copy, Debug)]
pub struct ColorScale {
    /// RTT in milliseconds mapped to the top of the gradient.
    pub max_rtt: u64,
    /// The active color scheme.
    pub scheme: ColorScheme,
}

impl ColorScale {
    /// A scale with the given ceiling and scheme.
    pub fn new(max_rtt: u64, scheme: ColorScheme) -> (r: Self)
        ensures
            r.max_rtt == max_rtt,
            r.scheme == scheme,
    {
        ColorScale { max_rtt, scheme }
    }
}

} // verus!
