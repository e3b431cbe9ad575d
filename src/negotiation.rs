//! Capability negotiation: from what a surface offers and what the program
//! prefers, the format, present mode, extent and image count of a swapchain.
//!
//! Each choice walks the program's preferences in order and takes the first
//! one the surface offers. When no preference is offered the choice fails with
//! an error that names it; nothing the surface lists is taken unchecked.
use vstd::prelude::*;
use crate::extent::{Extent2D, clamp_extent_spec, is_undefined_spec};

verus! {

/// `VK_FORMAT_B8G8R8A8_UNORM`.
pub const FORMAT_B8G8R8A8_UNORM: i32 = 44;

/// `VK_FORMAT_B8G8R8A8_SRGB`.
pub const FORMAT_B8G8R8A8_SRGB: i32 = 50;

/// `VK_COLOR_SPACE_SRGB_NONLINEAR_KHR`.
pub const COLOR_SPACE_SRGB_NONLINEAR: i32 = 0;

/// `VK_COLOR_SPACE_EXTENDED_SRGB_NONLINEAR_EXT`.
pub const COLOR_SPACE_EXTENDED_SRGB_NONLINEAR: i32 = 1_000_104_014;

/// `VK_PRESENT_MODE_IMMEDIATE_KHR`.
pub const PRESENT_MODE_IMMEDIATE: i32 = 0;

/// `VK_PRESENT_MODE_MAILBOX_KHR`.
pub const PRESENT_MODE_MAILBOX: i32 = 1;

/// `VK_PRESENT_MODE_FIFO_KHR`, the one mode every surface supports.
pub const PRESENT_MODE_FIFO: i32 = 2;

/// `VK_IMAGE_USAGE_COLOR_ATTACHMENT_BIT`.
pub const IMAGE_USAGE_COLOR_ATTACHMENT: u32 = 0x10;

/// A pixel format together with the color space it is presented in.
#[derive(Clone, Copy, Debug, PartialEq, Eq, Structural)]
pub struct SurfaceFormat {
    pub format: i32,
    pub color_space: i32,
}

/// What a surface reports about the swapchains it accepts.
#[derive(Clone, Copy, Debug, PartialEq, Eq, Structural)]
pub struct SurfaceCapabilities {
    pub min_image_count: u32,
    pub max_image_count: u32,
    pub current_extent: Extent2D,
    pub min_image_extent: Extent2D,
    pub max_image_extent: Extent2D,
    pub current_transform: u32,
}

/// The program's preferences, most wanted first.
#[derive(Debug)]
pub struct SwapchainPolicy {
    pub preferred_formats: Vec<SurfaceFormat>,
    pub preferred_present_modes: Vec<i32>,
    pub image_usage: u32,
}

/// Why no swapchain could be configured.
#[derive(Clone, Copy, Debug, PartialEq, Eq, Structural)]
pub enum NegotiationError {
    /// The surface offers none of the preferred (format, color space) pairs.
    NoAcceptableSurfaceFormat,
    /// The surface offers none of the preferred present modes.
    NoAcceptablePresentMode,
}

/// Everything needed to create a swapchain.
#[derive(Clone, Copy, Debug, PartialEq, Eq, Structural)]
pub struct SwapchainConfig {
    pub format: SurfaceFormat,
    pub present_mode: i32,
    pub extent: Extent2D,
    pub image_usage: u32,
    pub min_image_count: u32,
    pub pre_transform: u32,
}

/// The first entry of `prefs` that `offered` contains, if any.
pub open spec fn preferred_choice<T>(prefs: Seq<T>, offered: Seq<T>) -> Option<T>
    decreases prefs.len(),
{
    if prefs.len() == 0 {
        None
    } else if offered.contains(prefs[0]) {
        Some(prefs[0])
    } else {
        preferred_choice(prefs.drop_first(), offered)
    }
}

/// The extent of the images: the surface's own extent, or, where the surface
/// leaves it to the swapchain, the requested size clamped into its limits.
pub open spec fn extent_choice(caps: SurfaceCapabilities, requested: Extent2D) -> Extent2D {
    if is_undefined_spec(caps.current_extent) {
        clamp_extent_spec(requested, caps.min_image_extent, caps.max_image_extent)
    } else {
        caps.current_extent
    }
}

/// The configuration `policy` gives on a surface with these capabilities,
/// formats and present modes, for a window of size `requested`.
pub open spec fn negotiation_result(
    policy_formats: Seq<SurfaceFormat>,
    policy_modes: Seq<i32>,
    image_usage: u32,
    caps: SurfaceCapabilities,
    formats: Seq<SurfaceFormat>,
    modes: Seq<i32>,
    requested: Extent2D,
) -> Result<SwapchainConfig, NegotiationError> {
    match preferred_choice(policy_formats, formats) {
        None => Err(NegotiationError::NoAcceptableSurfaceFormat),
        Some(format) => match preferred_choice(policy_modes, modes) {
            None => Err(NegotiationError::NoAcceptablePresentMode),
            Some(present_mode) => Ok(
                SwapchainConfig {
                    format,
                    present_mode,
                    extent: extent_choice(caps, requested),
                    image_usage,
                    min_image_count: caps.min_image_count,
                    pre_transform: caps.current_transform,
                },
            ),
        },
    }
}

/// A choice is always an entry of the preferences that the surface offers, and
/// every preference before it is one the surface does not offer.
pub proof fn lemma_choice_is_first_offered<T>(prefs: Seq<T>, offered: Seq<T>)
    ensures
        preferred_choice(prefs, offered) matches Some(c) ==> exists|i: int|
            0 <= i < prefs.len() && prefs[i] == c && offered.contains(c) && forall|j: int|
                0 <= j < i ==> !offered.contains(#[trigger] prefs[j]),
        preferred_choice(prefs, offered) is None <==> forall|i: int|
            0 <= i < prefs.len() ==> !offered.contains(#[trigger] prefs[i]),
    decreases prefs.len(),
{
    if prefs.len() > 0 && !offered.contains(prefs[0]) {
        let rest = prefs.drop_first();
        lemma_choice_is_first_offered(rest, offered);
        if let Some(c) = preferred_choice(prefs, offered) {
            let k = choose|k: int|
                0 <= k < rest.len() && rest[k] == c && offered.contains(c) && forall|j: int|
                    0 <= j < k ==> !offered.contains(#[trigger] rest[j]);
            assert(prefs[k + 1] == c);
            assert forall|j: int| 0 <= j < k + 1 implies !offered.contains(#[trigger] prefs[j]) by {
                if j > 0 {
                    assert(prefs[j] == rest[j - 1]);
                }
            }
        } else {
            assert forall|i: int| 0 <= i < prefs.len() implies !offered.contains(
                #[trigger] prefs[i],
            ) by {
                if i > 0 {
                    assert(prefs[i] == rest[i - 1]);
                }
            }
        }
    } else if prefs.len() > 0 {
        assert(prefs[0] == prefs[0]);
    }
}

/// Where the surface offers none of the preferred (format, color space)
/// pairs, negotiation fails with the error that says so, whatever else the
/// surface offers.
pub proof fn lemma_unlisted_formats_refused(
    policy_formats: Seq<SurfaceFormat>,
    policy_modes: Seq<i32>,
    image_usage: u32,
    caps: SurfaceCapabilities,
    formats: Seq<SurfaceFormat>,
    modes: Seq<i32>,
    requested: Extent2D,
)
    requires
        forall|i: int| 0 <= i < formats.len() ==> !policy_formats.contains(#[trigger] formats[i]),
    ensures
        negotiation_result(policy_formats, policy_modes, image_usage, caps, formats, modes, requested)
            == Err::<SwapchainConfig, NegotiationError>(NegotiationError::NoAcceptableSurfaceFormat),
{
    lemma_choice_is_first_offered(policy_formats, formats);
    assert forall|i: int| 0 <= i < policy_formats.len() implies !formats.contains(
        #[trigger] policy_formats[i],
    ) by {
        if formats.contains(policy_formats[i]) {
            let k = choose|k: int| 0 <= k < formats.len() && formats[k] == policy_formats[i];
            assert(policy_formats.contains(formats[k]));
        }
    }
}

fn offers_format(offered: &Vec<SurfaceFormat>, f: SurfaceFormat) -> (r: bool)
    ensures
        r == offered@.contains(f),
{
    let mut i: usize = 0;
    while i < offered.len()
        invariant
            0 <= i <= offered@.len(),
            forall|j: int| 0 <= j < i ==> offered@[j] != f,
        decreases offered@.len() - i,
    {
        if offered[i] == f {
            return true;
        }
        i = i + 1;
    }
    false
}

fn offers_mode(offered: &Vec<i32>, m: i32) -> (r: bool)
    ensures
        r == offered@.contains(m),
{
    let mut i: usize = 0;
    while i < offered.len()
        invariant
            0 <= i <= offered@.len(),
            forall|j: int| 0 <= j < i ==> offered@[j] != m,
        decreases offered@.len() - i,
    {
        if offered[i] == m {
            return true;
        }
        i = i + 1;
    }
    false
}

proof fn lemma_choice_step<T>(prefs: Seq<T>, offered: Seq<T>, i: int)
    requires
        0 <= i < prefs.len(),
    ensures
        preferred_choice(prefs.subrange(i, prefs.len() as int), offered) == if offered.contains(
            prefs[i],
        ) {
            Some(prefs[i])
        } else {
            preferred_choice(prefs.subrange(i + 1, prefs.len() as int), offered)
        },
{
    let s = prefs.subrange(i, prefs.len() as int);
    assert(s.drop_first() =~= prefs.subrange(i + 1, prefs.len() as int));
    assert(s[0] == prefs[i]);
}

impl SwapchainPolicy {
    /// The policy used unless the program brings its own: 8-bit BGRA in the
    /// sRGB format, in the standard sRGB color space or else the extended one;
    /// mailbox presentation, or else FIFO, which every surface supports.
    pub fn default_policy() -> (r: SwapchainPolicy)
        ensures
            r.preferred_formats@ == seq![
                SurfaceFormat { format: FORMAT_B8G8R8A8_SRGB, color_space: COLOR_SPACE_SRGB_NONLINEAR },
                SurfaceFormat {
                    format: FORMAT_B8G8R8A8_SRGB,
                    color_space: COLOR_SPACE_EXTENDED_SRGB_NONLINEAR,
                },
            ],
            r.preferred_present_modes@ == seq![PRESENT_MODE_MAILBOX, PRESENT_MODE_FIFO],
            r.image_usage == IMAGE_USAGE_COLOR_ATTACHMENT,
    {
        SwapchainPolicy {
            preferred_formats: vec![
                SurfaceFormat { format: FORMAT_B8G8R8A8_SRGB, color_space: COLOR_SPACE_SRGB_NONLINEAR },
                SurfaceFormat {
                    format: FORMAT_B8G8R8A8_SRGB,
                    color_space: COLOR_SPACE_EXTENDED_SRGB_NONLINEAR,
                },
            ],
            preferred_present_modes: vec![PRESENT_MODE_MAILBOX, PRESENT_MODE_FIFO],
            image_usage: IMAGE_USAGE_COLOR_ATTACHMENT,
        }
    }

    /// The first preferred (format, color space) pair that `offered` contains.
    pub fn choose_format(&self, offered: &Vec<SurfaceFormat>) -> (r: Result<
        SurfaceFormat,
        NegotiationError,
    >)
        ensures
            r == (match preferred_choice(self.preferred_formats@, offered@) {
                Some(f) => Ok(f),
                None => Err(NegotiationError::NoAcceptableSurfaceFormat),
            }),
    {
        let prefs: &Vec<SurfaceFormat> = &self.preferred_formats;
        let mut i: usize = 0;
        assert(prefs@.subrange(0, prefs@.len() as int) =~= prefs@);
        while i < prefs.len()
            invariant
                0 <= i <= prefs@.len(),
                prefs@ == self.preferred_formats@,
                preferred_choice(prefs@, offered@) == preferred_choice(
                    prefs@.subrange(i as int, prefs@.len() as int),
                    offered@,
                ),
            decreases prefs@.len() - i,
        {
            proof {
                lemma_choice_step(prefs@, offered@, i as int);
            }
            let candidate = prefs[i];
            if offers_format(offered, candidate) {
                return Ok(candidate);
            }
            i = i + 1;
        }
        Err(NegotiationError::NoAcceptableSurfaceFormat)
    }

    /// The first preferred present mode that `offered` contains.
    pub fn choose_present_mode(&self, offered: &Vec<i32>) -> (r: Result<i32, NegotiationError>)
        ensures
            r == (match preferred_choice(self.preferred_present_modes@, offered@) {
                Some(m) => Ok(m),
                None => Err(NegotiationError::NoAcceptablePresentMode),
            }),
    {
        let prefs: &Vec<i32> = &self.preferred_present_modes;
        let mut i: usize = 0;
        assert(prefs@.subrange(0, prefs@.len() as int) =~= prefs@);
        while i < prefs.len()
            invariant
                0 <= i <= prefs@.len(),
                prefs@ == self.preferred_present_modes@,
                preferred_choice(prefs@, offered@) == preferred_choice(
                    prefs@.subrange(i as int, prefs@.len() as int),
                    offered@,
                ),
            decreases prefs@.len() - i,
        {
            proof {
                lemma_choice_step(prefs@, offered@, i as int);
            }
            let candidate = prefs[i];
            if offers_mode(offered, candidate) {
                return Ok(candidate);
            }
            i = i + 1;
        }
        Err(NegotiationError::NoAcceptablePresentMode)
    }

    /// The extent of the images for a window of size `requested`.
    pub fn choose_extent(&self, caps: &SurfaceCapabilities, requested: Extent2D) -> (r: Extent2D)
        ensures
            r == extent_choice(*caps, requested),
    {
        if caps.current_extent.is_undefined() {
            requested.clamped(caps.min_image_extent, caps.max_image_extent)
        } else {
            caps.current_extent
        }
    }

    /// The whole configuration of a swapchain. The image count is the
    /// surface's minimum; the transform is the surface's current one.
    pub fn negotiate(
        &self,
        caps: &SurfaceCapabilities,
        formats: &Vec<SurfaceFormat>,
        modes: &Vec<i32>,
        requested: Extent2D,
    ) -> (r: Result<SwapchainConfig, NegotiationError>)
        ensures
            r == negotiation_result(
                self.preferred_formats@,
                self.preferred_present_modes@,
                self.image_usage,
                *caps,
                formats@,
                modes@,
                requested,
            ),
    {
        let format = match self.choose_format(formats) {
            Ok(f) => f,
            Err(e) => return Err(e),
        };
        let present_mode = match self.choose_present_mode(modes) {
            Ok(m) => m,
            Err(e) => return Err(e),
        };
        Ok(
            SwapchainConfig {
                format,
                present_mode,
                extent: self.choose_extent(caps, requested),
                image_usage: self.image_usage,
                min_image_count: caps.min_image_count,
                pre_transform: caps.current_transform,
            },
        )
    }
}

} // verus!
