//! The effect selector, the error taxonomy of one processing call, and the
//! verified dispatch from a resolved effect to its transform.
//!
//! Processing one image is strictly linear: load, resolve the effect name,
//! transform, report completion, save. Loading, saving and the completion
//! callback are input/output at the caller's edge; everything the pipeline
//! computes on pixel data — except the three fixed convolutions, which take
//! floating-point parameters — is dispatched here and verified.

use crate::raster::LumaRaster;
use crate::raster::Raster;
use crate::transform::apply_grayscale;
use crate::transform::apply_invert;
use crate::transform::apply_sepia;
use crate::transform::inverted_bytes;
use crate::transform::luma_bytes;
use crate::transform::sepia_bytes;
use vstd::prelude::*;
use vstd::string::StringExecFns;

verus! {

/// Relies on `str`'s `PartialEq` implementation: equality of two string
/// slices holds exactly when their character sequences are equal.
pub assume_specification[ <str as PartialEq>::eq ](s: &str, other: &str) -> (r: bool)
    ensures
        r == (s@ == other@),
;

/// The closed set of effects. An unrecognized name resolves to none of
/// these; it is a terminal input error, never a default.
#[derive(Debug, Clone, Copy, PartialEq, Eq, Structural)]
pub enum ImageEffect {
    EdgeDetect,
    Blur,
    Sharpen,
    Grayscale,
    Sepia,
    Invert,
}

/// The variant a (case-sensitive, exact) effect name denotes, if any.
pub open spec fn effect_for_name(s: Seq<char>) -> Option<ImageEffect> {
    if s == "edge_detect"@ {
        Some(ImageEffect::EdgeDetect)
    } else if s == "blur"@ {
        Some(ImageEffect::Blur)
    } else if s == "sharpen"@ {
        Some(ImageEffect::Sharpen)
    } else if s == "grayscale"@ {
        Some(ImageEffect::Grayscale)
    } else if s == "sepia"@ {
        Some(ImageEffect::Sepia)
    } else if s == "invert"@ {
        Some(ImageEffect::Invert)
    } else {
        None
    }
}

impl ImageEffect {
    /// Maps an effect name to its variant; unrecognized names give `None`.
    pub fn from_str(s: &str) -> (r: Option<ImageEffect>)
        ensures
            r == effect_for_name(s@),
    {
        if <str as PartialEq>::eq(s, "edge_detect") {
            Some(ImageEffect::EdgeDetect)
        } else if <str as PartialEq>::eq(s, "blur") {
            Some(ImageEffect::Blur)
        } else if <str as PartialEq>::eq(s, "sharpen") {
            Some(ImageEffect::Sharpen)
        } else if <str as PartialEq>::eq(s, "grayscale") {
            Some(ImageEffect::Grayscale)
        } else if <str as PartialEq>::eq(s, "sepia") {
            Some(ImageEffect::Sepia)
        } else if <str as PartialEq>::eq(s, "invert") {
            Some(ImageEffect::Invert)
        } else {
            None
        }
    }
}

/// Why one processing call failed. Every failure is terminal for the call:
/// nothing is retried, and no partial output is promised.
#[derive(Debug, Clone, PartialEq, Eq)]
pub enum ProcessError {
    /// The input could not be read or decoded; carries the decoder's report.
    Load(String),
    /// The effect name matched no variant.
    UnknownEffect,
    /// The result could not be encoded or written; carries the encoder's
    /// report.
    Save(String),
    /// The caller's progress callback failed; carries its report.
    Callback(String),
}

impl ProcessError {
    /// The characters of this error's human-readable message.
    pub open spec fn message_view(&self) -> Seq<char> {
        match self {
            ProcessError::Load(cause) => "Failed to load image: "@ + cause@,
            ProcessError::UnknownEffect => "Unknown effect type"@,
            ProcessError::Save(cause) => "Failed to save image: "@ + cause@,
            ProcessError::Callback(cause) => cause@,
        }
    }

    /// Renders the error as a human-readable message, including the
    /// underlying cause where there is one.
    pub fn message(&self) -> (m: String)
        ensures
            m@ == self.message_view(),
    {
        match self {
            ProcessError::Load(cause) => String::from_str("Failed to load image: ").concat(
                cause.as_str(),
            ),
            ProcessError::UnknownEffect => String::from_str("Unknown effect type"),
            ProcessError::Save(cause) => String::from_str("Failed to save image: ").concat(
                cause.as_str(),
            ),
            ProcessError::Callback(cause) => cause.clone(),
        }
    }
}

/// Resolves a caller-supplied effect name; an unknown name is rejected with
/// `ProcessError::UnknownEffect`, so no output is ever produced for it.
pub fn resolve_effect(name: &str) -> (r: Result<ImageEffect, ProcessError>)
    ensures
        effect_for_name(name@) matches Some(e) ==> r == Ok::<ImageEffect, ProcessError>(e),
        effect_for_name(name@) is None ==> r == Err::<ImageEffect, ProcessError>(
            ProcessError::UnknownEffect,
        ),
{
    match ImageEffect::from_str(name) {
        Some(e) => Ok(e),
        None => Err(ProcessError::UnknownEffect),
    }
}

/// A finished transform: 3-channel RGB, or single-channel luma for the
/// grayscale effect.
#[derive(Debug, PartialEq, Eq)]
pub enum EffectOutput {
    Rgb(Raster),
    Gray(LumaRaster),
}

/// What dispatching an effect produced. The transforms the library can
/// compute arrive finished; the three convolutions with floating-point
/// parameters are handed back for the caller to run with the pipeline's
/// fixed settings.
#[derive(Debug, PartialEq, Eq)]
pub enum Applied {
    /// The transform is complete.
    Done(EffectOutput),
    /// The caller must apply the Gaussian blur (standard deviation 2) to the
    /// RGB pixels of the input raster.
    NeedsGaussianBlur,
    /// The caller must apply unsharp masking (amount 1, threshold 5) to the
    /// input image.
    NeedsUnsharpen,
    /// The caller must run Canny edge detection (thresholds 25 and 75) on
    /// this luma rendering of the input, then render the resulting edge map
    /// with `transform::edge_map_to_rgb`.
    NeedsCanny(LumaRaster),
}

/// Dispatches a resolved effect on a loaded raster: sepia, invert and
/// grayscale are computed here; edge detection is brought to the luma stage
/// its detector consumes; blur and sharpen are handed back whole.
pub fn apply_effect(effect: &ImageEffect, img: &Raster) -> (r: Applied)
    requires
        img.wf(),
    ensures
        match *effect {
            ImageEffect::Sepia => r matches Applied::Done(EffectOutput::Rgb(o)) && o.wf()
                && o.width == img.width && o.height == img.height && sepia_bytes(
                img.pixels@,
                o.pixels@,
            ),
            ImageEffect::Invert => r matches Applied::Done(EffectOutput::Rgb(o)) && o.wf()
                && o.width == img.width && o.height == img.height && inverted_bytes(
                img.pixels@,
                o.pixels@,
            ),
            ImageEffect::Grayscale => r matches Applied::Done(EffectOutput::Gray(l)) && l.wf()
                && l.width == img.width && l.height == img.height && luma_bytes(
                img.pixels@,
                l.pixels@,
            ),
            ImageEffect::EdgeDetect => r matches Applied::NeedsCanny(l) && l.wf() && l.width
                == img.width && l.height == img.height && luma_bytes(img.pixels@, l.pixels@),
            ImageEffect::Blur => r matches Applied::NeedsGaussianBlur,
            ImageEffect::Sharpen => r matches Applied::NeedsUnsharpen,
        },
{
    match effect {
        ImageEffect::EdgeDetect => Applied::NeedsCanny(apply_grayscale(img)),
        ImageEffect::Blur => Applied::NeedsGaussianBlur,
        ImageEffect::Sharpen => Applied::NeedsUnsharpen,
        ImageEffect::Grayscale => Applied::Done(EffectOutput::Gray(apply_grayscale(img))),
        ImageEffect::Sepia => Applied::Done(EffectOutput::Rgb(apply_sepia(img))),
        ImageEffect::Invert => Applied::Done(EffectOutput::Rgb(apply_invert(img))),
    }
}

} // verus!
