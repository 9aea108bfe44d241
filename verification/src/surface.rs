use vstd::prelude::*;

verus! {

/// Code of the 8-bit BGRA pixel format with unsigned normalised components.
pub const FORMAT_B8G8R8A8_UNORM: u32 = 44;

/// Code of the sRGB colour space with a non-linear transfer function.
pub const COLOR_SPACE_SRGB_NONLINEAR: u32 = 0;

/// Width and height of an image, in pixels.
#[derive(Clone, Copy, Debug, PartialEq, Eq, Structural)]
pub struct Extent {
    pub width: u32,
    pub height: u32,
}

/// A pixel format together with the colour space it is shown in, both by
/// their numeric codes.
#[derive(Clone, Copy, Debug, PartialEq, Eq, Structural)]
pub struct SurfaceFormat {
    pub format: u32,
    pub color_space: u32,
}

/// How finished images are handed to the display.
#[derive(Clone, Copy, Debug, PartialEq, Eq, Structural)]
pub enum PresentMode {
    /// Shown at once; may tear.
    Immediate,
    /// A single waiting image that later images replace: low latency, no tearing.
    Mailbox,
    /// A queue that is popped at each vertical blank.
    Fifo,
    /// As `Fifo`, but shown at once when the queue ran empty.
    Relaxed,
}

/// The present modes that a surface supports.
#[derive(Clone, Copy, Debug, PartialEq, Eq, Structural)]
pub struct SupportedPresentModes {
    pub immediate: bool,
    pub mailbox: bool,
    pub fifo: bool,
    pub relaxed: bool,
}

/// What a surface reports about the image chains it can take.
#[derive(Clone, Debug)]
pub struct Capabilities {
    /// Fewest images a chain may have.
    pub min_image_count: u32,
    /// Most images a chain may have; `None` and `Some(0)` both mean no limit.
    pub max_image_count: Option<u32>,
    /// The surface's own size, where it has one; `None` where the chain decides.
    pub current_extent: Option<Extent>,
    pub min_image_extent: Extent,
    pub max_image_extent: Extent,
    pub supported_formats: Vec<SurfaceFormat>,
    pub present_modes: SupportedPresentModes,
}

/// The configuration chosen for one generation of the image chain.
#[derive(Clone, Copy, Debug, PartialEq, Eq, Structural)]
pub struct SurfaceConfiguration {
    pub format: SurfaceFormat,
    pub present_mode: PresentMode,
    pub extent: Extent,
    pub image_count: u32,
}

/// The format and colour space that are taken whenever the surface offers them.
pub open spec fn preferred_format() -> SurfaceFormat {
    SurfaceFormat { format: FORMAT_B8G8R8A8_UNORM, color_space: COLOR_SPACE_SRGB_NONLINEAR }
}

/// The preferred pair where it is offered, else the first pair offered.
pub open spec fn chosen_format(available: Seq<SurfaceFormat>) -> SurfaceFormat {
    if available.contains(preferred_format()) {
        preferred_format()
    } else {
        available[0]
    }
}

/// Mailbox before immediate before FIFO; FIFO is the fallback whatever is reported.
pub open spec fn chosen_present_mode(available: SupportedPresentModes) -> PresentMode {
    if available.mailbox {
        PresentMode::Mailbox
    } else if available.immediate {
        PresentMode::Immediate
    } else {
        PresentMode::Fifo
    }
}

/// `value` brought into `[low, high]`: held to `high` first, then raised to
/// `low`, so that `low` wins where the bounds cross.
pub open spec fn clamped(value: int, low: int, high: int) -> int {
    let capped = if value > high {
        high
    } else {
        value
    };
    if capped < low {
        low
    } else {
        capped
    }
}

impl Extent {
    /// No pixels: the width or the height is zero.
    pub open spec fn degenerate(self) -> bool {
        self.width == 0 || self.height == 0
    }

    /// Each component lies between the same component of `low` and of `high`.
    pub open spec fn within(self, low: Extent, high: Extent) -> bool {
        &&& low.width <= self.width <= high.width
        &&& low.height <= self.height <= high.height
    }

    /// Whether the extent has no pixels.
    pub fn is_degenerate(&self) -> (degenerate: bool)
        ensures
            degenerate == self.degenerate(),
    {
        self.width == 0 || self.height == 0
    }
}

impl Capabilities {
    /// The upper limit on the image count, where there is one.
    pub open spec fn image_count_limit(self) -> Option<u32> {
        match self.max_image_count {
            Some(limit) => if limit == 0 {
                None
            } else {
                Some(limit)
            },
            None => None,
        }
    }

    /// One image more than the minimum, held to the limit where there is one.
    pub open spec fn chosen_image_count(self) -> int {
        match self.image_count_limit() {
            Some(limit) => if self.min_image_count + 1 > limit {
                limit as int
            } else {
                self.min_image_count + 1
            },
            None => self.min_image_count + 1,
        }
    }

    /// The surface's own extent where it has one, else the drawable size
    /// clamped by component into the reported bounds.
    pub open spec fn chosen_extent(self, drawable: Extent) -> Extent {
        match self.current_extent {
            Some(current) => current,
            None => Extent {
                width: clamped(
                    drawable.width as int,
                    self.min_image_extent.width as int,
                    self.max_image_extent.width as int,
                ) as u32,
                height: clamped(
                    drawable.height as int,
                    self.min_image_extent.height as int,
                    self.max_image_extent.height as int,
                ) as u32,
            },
        }
    }

    /// A chain can be configured from these capabilities: some format is
    /// offered and the image count fits its type.
    pub open spec fn usable(self) -> bool {
        &&& self.supported_formats@.len() > 0
        &&& self.chosen_image_count() <= u32::MAX
    }

    /// The reported bounds do not contradict each other.
    pub open spec fn consistent(self) -> bool {
        &&& self.image_count_limit() matches Some(limit) ==> self.min_image_count <= limit
        &&& self.min_image_extent.width <= self.max_image_extent.width
        &&& self.min_image_extent.height <= self.max_image_extent.height
        &&& self.current_extent matches Some(current) ==> current.within(
            self.min_image_extent,
            self.max_image_extent,
        )
    }

    /// The configuration that negotiation yields for a drawable of the given size.
    pub open spec fn negotiated(self, drawable: Extent) -> SurfaceConfiguration {
        SurfaceConfiguration {
            format: chosen_format(self.supported_formats@),
            present_mode: chosen_present_mode(self.present_modes),
            extent: self.chosen_extent(drawable),
            image_count: self.chosen_image_count() as u32,
        }
    }

    /// Whether a chain can be configured from these capabilities.
    pub fn is_usable(&self) -> (usable: bool)
        ensures
            usable == self.usable(),
    {
        if self.supported_formats.len() == 0 {
            return false;
        }
        if self.min_image_count < u32::MAX {
            return true;
        }
        match self.max_image_count {
            Some(limit) => limit != 0,
            None => false,
        }
    }
}

/// Picks the surface format: the preferred pair if the surface offers it,
/// otherwise the first pair it offers.
pub fn choose_swap_surface_format(available_formats: &[SurfaceFormat]) -> (chosen: SurfaceFormat)
    requires
        available_formats@.len() > 0,
    ensures
        chosen == chosen_format(available_formats@),
        available_formats@.contains(chosen),
{
    let mut i: usize = 0;
    while i < available_formats.len()
        invariant
            i <= available_formats@.len(),
            forall|j: int| 0 <= j < i ==> available_formats@[j] != preferred_format(),
        decreases available_formats@.len() - i,
    {
        let candidate = available_formats[i];
        if candidate.format == FORMAT_B8G8R8A8_UNORM && candidate.color_space
            == COLOR_SPACE_SRGB_NONLINEAR {
            assert(available_formats@[i as int] == preferred_format());
            return candidate;
        }
        i += 1;
    }
    available_formats[0]
}

/// Picks the present mode: mailbox if supported, else immediate, else FIFO.
pub fn choose_swap_present_mode(available_present_modes: SupportedPresentModes) -> (chosen:
    PresentMode)
    ensures
        chosen == chosen_present_mode(available_present_modes),
{
    if available_present_modes.mailbox {
        PresentMode::Mailbox
    } else if available_present_modes.immediate {
        PresentMode::Immediate
    } else {
        PresentMode::Fifo
    }
}

/// Brings one component of an extent into its bounds.
fn clamp_component(value: u32, low: u32, high: u32) -> (result: u32)
    ensures
        result == clamped(value as int, low as int, high as int),
{
    let capped: u32 = if high < value {
        high
    } else {
        value
    };
    if low > capped {
        low
    } else {
        capped
    }
}

/// Picks the chain's extent: the surface's own where it reports one, else the
/// drawable size clamped into the reported bounds.
pub fn choose_swap_extent(capabilities: &Capabilities, drawable: Extent) -> (chosen: Extent)
    ensures
        chosen == capabilities.chosen_extent(drawable),
{
    match capabilities.current_extent {
        Some(current) => current,
        None => Extent {
            width: clamp_component(
                drawable.width,
                capabilities.min_image_extent.width,
                capabilities.max_image_extent.width,
            ),
            height: clamp_component(
                drawable.height,
                capabilities.min_image_extent.height,
                capabilities.max_image_extent.height,
            ),
        },
    }
}

/// Picks the number of images: one more than the minimum, held to the
/// maximum where the surface has one.
pub fn choose_image_count(capabilities: &Capabilities) -> (count: u32)
    requires
        capabilities.chosen_image_count() <= u32::MAX,
    ensures
        count == capabilities.chosen_image_count(),
{
    match capabilities.max_image_count {
        Some(limit) => {
            if limit != 0 && capabilities.min_image_count >= limit {
                limit
            } else {
                capabilities.min_image_count + 1
            }
        },
        None => capabilities.min_image_count + 1,
    }
}

/// Chooses the configuration of the next image chain from what the surface
/// reports and from the drawable size of the window.
pub fn negotiate(capabilities: &Capabilities, drawable: Extent) -> (configuration:
    SurfaceConfiguration)
    requires
        capabilities.usable(),
    ensures
        configuration == capabilities.negotiated(drawable),
{
    SurfaceConfiguration {
        format: choose_swap_surface_format(capabilities.supported_formats.as_slice()),
        present_mode: choose_swap_present_mode(capabilities.present_modes),
        extent: choose_swap_extent(capabilities, drawable),
        image_count: choose_image_count(capabilities),
    }
}

/// A negotiated image count lies between the reported minimum and the
/// reported maximum, where there is one, and a negotiated extent lies within
/// the reported extent bounds, whenever those bounds are consistent.
pub proof fn lemma_negotiated_within_bounds(capabilities: Capabilities, drawable: Extent)
    requires
        capabilities.usable(),
        capabilities.consistent(),
    ensures
        capabilities.min_image_count <= capabilities.negotiated(drawable).image_count,
        capabilities.image_count_limit() matches Some(limit) ==> capabilities.negotiated(
            drawable,
        ).image_count <= limit,
        capabilities.negotiated(drawable).extent.within(
            capabilities.min_image_extent,
            capabilities.max_image_extent,
        ),
{
}

/// Format, colour space and present mode depend only on the formats and
/// present modes that the surface reports: negotiating again while those are
/// unchanged gives them again, and with the extent inputs unchanged too the
/// whole configuration is the same.
pub proof fn lemma_negotiation_repeatable(
    first: Capabilities,
    second: Capabilities,
    first_drawable: Extent,
    second_drawable: Extent,
)
    requires
        first.supported_formats@ == second.supported_formats@,
        first.present_modes == second.present_modes,
    ensures
        first.negotiated(first_drawable).format == second.negotiated(second_drawable).format,
        first.negotiated(first_drawable).present_mode == second.negotiated(
            second_drawable,
        ).present_mode,
        (first.current_extent == second.current_extent && first.min_image_extent
            == second.min_image_extent && first.max_image_extent == second.max_image_extent
            && first_drawable == second_drawable) ==> first.negotiated(first_drawable).extent
            == second.negotiated(second_drawable).extent,
        (first.min_image_count == second.min_image_count && first.max_image_count
            == second.max_image_count) ==> first.negotiated(first_drawable).image_count
            == second.negotiated(second_drawable).image_count,
{
}

} // verus!
