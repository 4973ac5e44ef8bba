//! A composable animation engine for addressable RGB LED strips.
//!
//! The engine is built from small, independently specified pieces:
//! time-driven value curves ("envelopes"), buffer-producing "generators",
//! in-place buffer transforms ("modifiers"), and the parameter and builder
//! glue that assembles them into one composite effect. All arithmetic is
//! fixed point over unsigned integer value domains, with lookup tables in
//! place of runtime transcendental functions, so the engine runs in bounded
//! time on hardware without a floating-point unit.

pub mod math;
pub mod traits;
pub mod values;
pub mod pixel;
pub mod easing;
pub mod timing;
pub mod combinators;
pub mod utilities;
pub mod parameters;
pub mod hue;
pub mod generators;
pub mod modifiers;
pub mod builder;
pub mod rgb;
pub mod channel;
pub mod laws;

// Core traits and the color type.
pub use traits::{Easing, Envelope, EnvelopeValue, Generator, HueParameter, Modifier, Parameter};
pub use pixel::{hsv_to_rgb, Pixel};

// Envelopes: waveforms, combinators, and lifetime or utility wrappers.
pub use timing::{Constant, Fade, Sawtooth, Sine, Square, Triangle, ADSR};
pub use combinators::{Clamp, Invert, Max, Min, Product, Sum};
pub use utilities::{LoopCount, Pulse as EnvelopePulse, TimeLimited, VelocityIntegral};

// Easing curves.
pub use easing::{
    BounceIn,
    BounceInOut,
    BounceOut,
    EaseInCubic,
    EaseInOutCubic,
    EaseInOutQuad,
    EaseInOutQuart,
    EaseInQuad,
    EaseInQuart,
    EaseOutCubic,
    EaseOutQuad,
    EaseOutQuart,
    Linear,
};

// Parameters.
pub use parameters::{DynamicParam, StaticParam};
pub use hue::{HueOscillate, RotatingHue, StaticHue};

// Generators and modifiers.
pub use generators::{Chase, Gradient, Pulse, SolidColor, Stripes};
pub use modifiers::{
    Blur,
    Brightness,
    Decay,
    GammaCorrection,
    HueShift,
    Mirror,
    Reverse,
    Saturation,
    Shift,
    Sparkle,
    Trail,
};

// Composition.
pub use builder::{EffectBuilder, WithModifier};

// The hardware-facing frame buffer.
pub use rgb::{Rgb, RgbBuffer};
pub use channel::LedChannel;
