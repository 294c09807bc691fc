//! What a swapchain is built from: the surface's formats and capabilities,
//! and the format, extent and image count chosen out of them.

use vstd::prelude::*;

use crate::vulkan::{
    format_b8g8r8a8_unorm, format_r8g8b8a8_unorm, present_mode_fifo, FORMAT_B8G8R8A8_UNORM,
    FORMAT_R8G8B8A8_UNORM, PRESENT_MODE_FIFO, UNDEFINED_EXTENT,
};

verus! {

/// A pixel format and colour space a surface can present, by Vulkan's numbers.
#[derive(Clone, Copy, Debug, PartialEq, Eq, Structural)]
pub struct SurfaceFormat {
    pub format: i32,
    pub color_space: i32,
}

/// A size in pixels.
#[derive(Clone, Copy, Debug, PartialEq, Eq, Structural)]
pub struct Extent {
    pub width: u32,
    pub height: u32,
}

/// The part of a surface's capabilities that the swapchain depends on.
#[derive(Clone, Copy, Debug, PartialEq, Eq, Structural)]
pub struct SurfaceCapabilities {
    pub min_image_count: u32,
    /// Zero when the surface sets no upper limit.
    pub max_image_count: u32,
    /// Width [`UNDEFINED_EXTENT`] when the surface leaves the size open.
    pub current_extent: Extent,
    pub min_image_extent: Extent,
    pub max_image_extent: Extent,
    /// Transform flags, handed through to the swapchain untouched.
    pub current_transform: u32,
}

/// Everything that is decided about a swapchain before it is created.
#[derive(Clone, Copy, Debug, PartialEq, Eq, Structural)]
pub struct SwapchainPlan {
    pub format: SurfaceFormat,
    pub extent: Extent,
    /// The number of images asked for; the device may hand out more.
    pub image_count: u32,
    pub present_mode: i32,
    pub pre_transform: u32,
}

/// Why no swapchain can be planned.
#[derive(Clone, Copy, Debug, PartialEq, Eq, Structural)]
pub enum PlanError {
    /// The surface lists no format at all.
    NoSurfaceFormat,
    /// The surface sets no upper limit and one more image than its minimum
    /// does not fit the count's type.
    ImageCountOverflow,
}

/// The two formats the renderer would rather have.
pub open spec fn is_preferred(format: SurfaceFormat) -> bool {
    format.format == FORMAT_B8G8R8A8_UNORM || format.format == FORMAT_R8G8B8A8_UNORM
}

/// Position of the first preferred format in `formats`, or the length of
/// `formats` when none is preferred.
pub open spec fn first_preferred(formats: Seq<SurfaceFormat>) -> nat
    decreases formats.len(),
{
    if formats.len() == 0 || is_preferred(formats[0]) {
        0
    } else {
        1 + first_preferred(formats.drop_first())
    }
}

/// The format chosen from `formats`: the first preferred one, else the first
/// one; none if the list is empty.
pub open spec fn selected_format(formats: Seq<SurfaceFormat>) -> Option<SurfaceFormat> {
    if formats.len() == 0 {
        None
    } else if first_preferred(formats) < formats.len() {
        Some(formats[first_preferred(formats) as int])
    } else {
        Some(formats[0])
    }
}

/// `requested` raised to `lower`, then lowered to `upper`.
pub open spec fn clamped(requested: u32, lower: u32, upper: u32) -> u32 {
    let raised = if requested < lower {
        lower
    } else {
        requested
    };
    if raised > upper {
        upper
    } else {
        raised
    }
}

/// The extent of a swapchain for a window of `width` by `height`: the
/// surface's own extent where it has one, else the window's size held within
/// the surface's bounds.
pub open spec fn selected_extent(caps: SurfaceCapabilities, width: u32, height: u32) -> Extent {
    if caps.current_extent.width != UNDEFINED_EXTENT {
        caps.current_extent
    } else {
        Extent {
            width: clamped(width, caps.min_image_extent.width, caps.max_image_extent.width),
            height: clamped(height, caps.min_image_extent.height, caps.max_image_extent.height),
        }
    }
}

/// One image more than the surface's minimum, held to its maximum if it has
/// one.
pub open spec fn selected_image_count(caps: SurfaceCapabilities) -> int {
    let wanted = caps.min_image_count + 1;
    if caps.max_image_count != 0 && wanted > caps.max_image_count {
        caps.max_image_count as int
    } else {
        wanted
    }
}

/// The swapchain planned for a surface with `formats` and `caps` under a
/// window of `width` by `height`. Presentation is always first-in, first-out.
pub open spec fn planned_swapchain(
    formats: Seq<SurfaceFormat>,
    caps: SurfaceCapabilities,
    width: u32,
    height: u32,
) -> Result<SwapchainPlan, PlanError> {
    match selected_format(formats) {
        None => Err(PlanError::NoSurfaceFormat),
        Some(format) => if selected_image_count(caps) > u32::MAX {
            Err(PlanError::ImageCountOverflow)
        } else {
            Ok(
                SwapchainPlan {
                    format,
                    extent: selected_extent(caps, width, height),
                    image_count: selected_image_count(caps) as u32,
                    present_mode: PRESENT_MODE_FIFO,
                    pre_transform: caps.current_transform,
                },
            )
        },
    }
}

/// `first_preferred` is the least position of a preferred format.
pub proof fn lemma_first_preferred(formats: Seq<SurfaceFormat>)
    ensures
        first_preferred(formats) <= formats.len(),
        first_preferred(formats) < formats.len() ==> is_preferred(
            formats[first_preferred(formats) as int],
        ),
        forall|j: int| 0 <= j < first_preferred(formats) ==> !is_preferred(#[trigger] formats[j]),
    decreases formats.len(),
{
    if formats.len() == 0 || is_preferred(formats[0]) {
    } else {
        let rest = formats.drop_first();
        lemma_first_preferred(rest);
        assert forall|j: int| 0 <= j < first_preferred(formats) implies !is_preferred(
            #[trigger] formats[j],
        ) by {
            if j > 0 {
                assert(formats[j] == rest[j - 1]);
            }
        }
    }
}

/// The selection depends on the list alone, takes a format from the list,
/// prefers the earliest preferred format, and falls back to the head only
/// when no format is preferred.
pub proof fn lemma_selected_format(formats: Seq<SurfaceFormat>)
    ensures
        selected_format(formats) is None <==> formats.len() == 0,
        selected_format(formats) matches Some(chosen) ==> {
            ||| exists|k: int|
                0 <= k < formats.len() && chosen == #[trigger] formats[k] && is_preferred(chosen)
                    && forall|j: int| 0 <= j < k ==> !is_preferred(#[trigger] formats[j])
            ||| chosen == formats[0] && forall|j: int|
                0 <= j < formats.len() ==> !is_preferred(#[trigger] formats[j])
        },
{
    lemma_first_preferred(formats);
    if formats.len() > 0 && first_preferred(formats) < formats.len() {
        let k = first_preferred(formats) as int;
        assert(0 <= k < formats.len() && selected_format(formats) == Some(formats[k]));
    }
}

/// Whether `format` is one of the two preferred formats.
pub fn prefers(format: &SurfaceFormat) -> (yes: bool)
    ensures
        yes == is_preferred(*format),
{
    format.format == format_b8g8r8a8_unorm() || format.format == format_r8g8b8a8_unorm()
}

/// Chooses the surface format: the first entry of `formats` that is
/// B8G8R8A8 or R8G8B8A8 unorm, else the first entry.
pub fn select_surface_format(formats: &Vec<SurfaceFormat>) -> (chosen: Option<SurfaceFormat>)
    ensures
        chosen == selected_format(formats@),
        chosen is None <==> formats@.len() == 0,
        chosen matches Some(f) ==> {
            ||| exists|k: int|
                0 <= k < formats@.len() && f == #[trigger] formats@[k] && is_preferred(f)
                    && forall|j: int| 0 <= j < k ==> !is_preferred(#[trigger] formats@[j])
            ||| f == formats@[0] && forall|j: int|
                0 <= j < formats@.len() ==> !is_preferred(#[trigger] formats@[j])
        },
{
    proof {
        lemma_selected_format(formats@);
    }
    if formats.len() == 0 {
        return None;
    }
    let mut i: usize = 0;
    while i < formats.len()
        invariant
            i <= formats.len(),
            forall|j: int| 0 <= j < i ==> !is_preferred(#[trigger] formats@[j]),
        decreases formats.len() - i,
    {
        let candidate = formats[i];
        if prefers(&candidate) {
            proof {
                // No earlier entry is preferred and this one is, so this is
                // the least preferred position.
                lemma_first_preferred(formats@);
                let k = first_preferred(formats@) as int;
                if k < i {
                    assert(is_preferred(formats@[k]));
                }
                if k > i {
                    assert(!is_preferred(formats@[i as int]));
                }
            }
            return Some(candidate);
        }
        i += 1;
    }
    proof {
        lemma_first_preferred(formats@);
        let k = first_preferred(formats@) as int;
        if k < formats@.len() {
            assert(is_preferred(formats@[k]));
        }
    }
    Some(formats[0])
}

/// `requested` held within `lower..=upper`; where the bounds cross, `upper`
/// wins.
pub fn clamp_dimension(requested: u32, lower: u32, upper: u32) -> (held: u32)
    ensures
        held == clamped(requested, lower, upper),
        lower <= upper ==> lower <= held <= upper,
        lower <= requested <= upper ==> held == requested,
{
    let raised = if requested < lower {
        lower
    } else {
        requested
    };
    if raised > upper {
        upper
    } else {
        raised
    }
}

/// Chooses the swapchain extent for a window of `width` by `height`.
pub fn select_extent(caps: &SurfaceCapabilities, width: u32, height: u32) -> (extent: Extent)
    ensures
        extent == selected_extent(*caps, width, height),
{
    if caps.current_extent.width != UNDEFINED_EXTENT {
        caps.current_extent
    } else {
        Extent {
            width: clamp_dimension(width, caps.min_image_extent.width, caps.max_image_extent.width),
            height: clamp_dimension(
                height,
                caps.min_image_extent.height,
                caps.max_image_extent.height,
            ),
        }
    }
}

/// Chooses how many images to ask for: one more than the minimum, at most
/// the maximum where the surface has one. `None` exactly when that number
/// does not fit in a `u32`.
pub fn select_image_count(caps: &SurfaceCapabilities) -> (count: Option<u32>)
    ensures
        count matches Some(n) ==> n == selected_image_count(*caps),
        count is None <==> selected_image_count(*caps) > u32::MAX,
        count is None <==> caps.max_image_count == 0 && caps.min_image_count == u32::MAX,
{
    if caps.max_image_count != 0 && caps.min_image_count >= caps.max_image_count {
        Some(caps.max_image_count)
    } else if caps.min_image_count == u32::MAX {
        None
    } else {
        Some(caps.min_image_count + 1)
    }
}

/// Plans the swapchain for a surface: format, extent, image count, and
/// first-in-first-out presentation.
pub fn plan_swapchain(
    formats: &Vec<SurfaceFormat>,
    caps: &SurfaceCapabilities,
    width: u32,
    height: u32,
) -> (plan: Result<SwapchainPlan, PlanError>)
    ensures
        plan == planned_swapchain(formats@, *caps, width, height),
        plan == Err::<SwapchainPlan, PlanError>(PlanError::NoSurfaceFormat) <==> formats@.len()
            == 0,
        plan == Err::<SwapchainPlan, PlanError>(PlanError::ImageCountOverflow) <==> formats@.len()
            > 0 && caps.max_image_count == 0 && caps.min_image_count == u32::MAX,
{
    let format = match select_surface_format(formats) {
        Some(format) => format,
        None => {
            return Err(PlanError::NoSurfaceFormat);
        },
    };
    let image_count = match select_image_count(caps) {
        Some(count) => count,
        None => {
            return Err(PlanError::ImageCountOverflow);
        },
    };
    Ok(
        SwapchainPlan {
            format,
            extent: select_extent(caps, width, height),
            image_count,
            present_mode: present_mode_fifo(),
            pre_transform: caps.current_transform,
        },
    )
}

} // verus!
