//! Choosing the colour format of the Vulkan swapchain: the first format the
//! surface offers that the drawing library can target, BGRA before RGBA.
use vstd::prelude::*;

verus! {

/// A surface's pixel format, as far as the choice cares.
#[derive(Clone, Copy, PartialEq, Eq, Structural, Debug)]
pub enum ColorFormat {
    /// The surface takes any format.
    Undefined,
    /// Blue, green, red, alpha; eight bits each, unsigned normalised.
    Bgra8Unorm,
    /// Red, green, blue, alpha; eight bits each, unsigned normalised.
    Rgba8Unorm,
    /// Any other format, by its Vulkan code.
    Other(i32),
}

/// A format the surface offers, with its colour space code.
#[derive(Clone, Copy, PartialEq, Eq, Structural, Debug)]
pub struct SurfaceFormat {
    pub format: ColorFormat,
    pub color_space: i32,
}

/// The surface offers a single undefined format: any format will do.
pub open spec fn takes_any_format(formats: Seq<SurfaceFormat>) -> bool {
    formats.len() == 1 && formats[0].format == ColorFormat::Undefined
}

/// The surface offers `format` somewhere.
pub open spec fn offers(formats: Seq<SurfaceFormat>, format: ColorFormat) -> bool {
    exists|i: int| 0 <= i < formats.len() && #[trigger] formats[i].format == format
}

/// `chosen` is the first offer of `format`.
pub open spec fn first_offer(formats: Seq<SurfaceFormat>, format: ColorFormat, chosen: SurfaceFormat) -> bool {
    exists|i: int|
        0 <= i < formats.len() && formats[i] == chosen && chosen.format == format && forall|j: int|
            0 <= j < i ==> #[trigger] formats[j].format != format
}

/// The error when no offered format can be drawn to.
pub open spec fn no_format_message() -> Seq<char> {
    "Vulkan surface has no Skia-compatible color format"@
}

fn first_with(formats: &Vec<SurfaceFormat>, format: ColorFormat) -> (found: Option<SurfaceFormat>)
    ensures
        match found {
            Some(chosen) => first_offer(formats@, format, chosen),
            None => !offers(formats@, format),
        },
{
    let mut i: usize = 0;
    while i < formats.len()
        invariant
            i <= formats.len(),
            forall|j: int| 0 <= j < i ==> #[trigger] formats@[j].format != format,
        decreases formats.len() - i,
    {
        if formats[i].format == format {
            let chosen = formats[i];
            assert(formats@[i as int] == chosen);
            return Some(chosen);
        }
        i += 1;
    }
    None
}

/// Chooses the swapchain's format. A surface that takes any format gets
/// BGRA in its colour space; otherwise the first BGRA offer wins, then the
/// first RGBA offer, and a surface with neither is refused.
pub fn choose_surface_format(formats: &Vec<SurfaceFormat>) -> (chosen: Result<SurfaceFormat, String>)
    ensures
        takes_any_format(formats@) ==> chosen == Ok::<SurfaceFormat, String>(
            SurfaceFormat { format: ColorFormat::Bgra8Unorm, color_space: formats@[0].color_space },
        ),
        !takes_any_format(formats@) ==> match chosen {
            Ok(c) => first_offer(formats@, ColorFormat::Bgra8Unorm, c) || (!offers(
                formats@,
                ColorFormat::Bgra8Unorm,
            ) && first_offer(formats@, ColorFormat::Rgba8Unorm, c)),
            Err(message) => !offers(formats@, ColorFormat::Bgra8Unorm) && !offers(
                formats@,
                ColorFormat::Rgba8Unorm,
            ) && message@ == no_format_message(),
        },
{
    if formats.len() == 1 && formats[0].format == ColorFormat::Undefined {
        return Ok(SurfaceFormat { format: ColorFormat::Bgra8Unorm, color_space: formats[0].color_space });
    }
    match first_with(formats, ColorFormat::Bgra8Unorm) {
        Some(chosen) => Ok(chosen),
        None => match first_with(formats, ColorFormat::Rgba8Unorm) {
            Some(chosen) => Ok(chosen),
            None => {
                Err(String::from_str("Vulkan surface has no Skia-compatible color format"))
            },
        },
    }
}

/// The first BGRA offer is unique, so the formats a surface offers decide
/// the choice.
pub proof fn lemma_bgra_preferred(formats: Seq<SurfaceFormat>, a: SurfaceFormat, b: SurfaceFormat)
    requires
        first_offer(formats, ColorFormat::Bgra8Unorm, a),
        first_offer(formats, ColorFormat::Bgra8Unorm, b),
    ensures
        a == b,
        offers(formats, ColorFormat::Bgra8Unorm),
{
    let i = choose|i: int|
        0 <= i < formats.len() && formats[i] == a && a.format == ColorFormat::Bgra8Unorm && forall|
            j: int,
        | 0 <= j < i ==> #[trigger] formats[j].format != ColorFormat::Bgra8Unorm;
    let k = choose|k: int|
        0 <= k < formats.len() && formats[k] == b && b.format == ColorFormat::Bgra8Unorm && forall|
            j: int,
        | 0 <= j < k ==> #[trigger] formats[j].format != ColorFormat::Bgra8Unorm;
    if i < k {
        assert(formats[i].format != ColorFormat::Bgra8Unorm);
    } else if k < i {
        assert(formats[k].format != ColorFormat::Bgra8Unorm);
    }
    assert(formats[i].format == ColorFormat::Bgra8Unorm);
}

} // verus!
