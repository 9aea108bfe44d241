use vstd::prelude::*;
use vulkano::image::ImageDimensions as DeviceDimensions;

verus! {

/// The highest mip level that may be asked for: a level is reached by
/// shifting a 32-bit side length by the level's number.
pub const MAX_MIP_LEVEL: u32 = 31;

/// The size of an image in texels, by the number of its dimensions.
#[derive(Clone, Copy, Debug, PartialEq, Eq, Structural)]
pub enum ImageDimensions {
    Dim1d { width: u32, array_layers: u32 },
    Dim2d { width: u32, height: u32, array_layers: u32, cubemap_compatible: bool },
    Dim3d { width: u32, height: u32, depth: u32 },
}

/// Why a mip level cannot be blitted.
#[derive(Clone, Copy, Debug, PartialEq, Eq, Structural)]
pub enum MipError {
    /// The image has no mip level of this number.
    NoSuchLevel { level: u32 },
    /// The level is not a two-dimensional image.
    NotTwoDimensional,
}

/// One blit of a mip chain: the source level is scaled down into the next level.
#[derive(Clone, Copy, Debug, PartialEq, Eq)]
pub struct MipBlit {
    pub source_level: u32,
    /// Far corner of the source region: width, height, depth.
    pub source_extent: [i32; 3],
    pub destination_level: u32,
    /// Far corner of the destination region: width, height, depth.
    pub destination_extent: [i32; 3],
}

/// The dimensions of mip level `level` of an image of the given dimensions,
/// or `None` where the image has no such level.
pub uninterp spec fn mipmap_dimensions_at(dimensions: ImageDimensions, level: u32) -> Option<
    ImageDimensions,
>;

impl ImageDimensions {
    /// No side of the image is zero.
    pub open spec fn positive(self) -> bool {
        match self {
            ImageDimensions::Dim1d { width, .. } => width > 0,
            ImageDimensions::Dim2d { width, height, .. } => width > 0 && height > 0,
            ImageDimensions::Dim3d { width, height, depth } => width > 0 && height > 0 && depth > 0,
        }
    }

    /// Whether no side of the image is zero.
    pub fn is_positive(&self) -> (positive: bool)
        ensures
            positive == self.positive(),
    {
        match *self {
            ImageDimensions::Dim1d { width, .. } => width > 0,
            ImageDimensions::Dim2d { width, height, .. } => width > 0 && height > 0,
            ImageDimensions::Dim3d { width, height, depth } => width > 0 && height > 0 && depth > 0,
        }
    }
}

/// Calls `vulkano::image::ImageDimensions::mipmap_dimensions` on the same
/// dimensions and hands back what it returns, variant for variant. The
/// contract names that result and claims nothing else of it. Zero sides and
/// levels above 31 are kept out: on them the call can fail an assertion or
/// overflow a shift.
#[verifier::external_body]
fn mipmap_dimensions(dimensions: &ImageDimensions, level: u32) -> (mip: Option<ImageDimensions>)
    requires
        dimensions.positive(),
        level <= MAX_MIP_LEVEL,
    ensures
        mip == mipmap_dimensions_at(*dimensions, level),
{
    let device = match *dimensions {
        ImageDimensions::Dim1d { width, array_layers } => DeviceDimensions::Dim1d { width, array_layers },
        ImageDimensions::Dim2d { width, height, array_layers, cubemap_compatible } => DeviceDimensions::Dim2d { width, height, array_layers, cubemap_compatible },
        ImageDimensions::Dim3d { width, height, depth } => DeviceDimensions::Dim3d { width, height, depth },
    };
    match device.mipmap_dimensions(level) {
        Some(DeviceDimensions::Dim1d { width, array_layers }) => Some(ImageDimensions::Dim1d { width, array_layers }),
        Some(DeviceDimensions::Dim2d { width, height, array_layers, cubemap_compatible }) => Some(ImageDimensions::Dim2d { width, height, array_layers, cubemap_compatible }),
        Some(DeviceDimensions::Dim3d { width, height, depth }) => Some(ImageDimensions::Dim3d { width, height, depth }),
        None => None,
    }
}

/// The far corner of the blit region of a mip level, from the level's
/// dimensions: width and height of a two-dimensional level, and depth 1.
pub open spec fn mip_corner(level: u32, mip: Option<ImageDimensions>) -> Result<Seq<i32>, MipError> {
    match mip {
        Some(ImageDimensions::Dim2d { width, height, .. }) => Ok(
            seq![width as i32, height as i32, 1i32],
        ),
        Some(_) => Err(MipError::NotTwoDimensional),
        None => Err(MipError::NoSuchLevel { level }),
    }
}

/// The far corner of the blit region of level `level` of an image.
pub open spec fn mip_dim(level: u32, dimensions: ImageDimensions) -> Result<Seq<i32>, MipError> {
    mip_corner(level, mipmap_dimensions_at(dimensions, level))
}

/// What two results have in common: both fail alike, or both succeed with the same values.
pub open spec fn same_corner(result: Result<[i32; 3], MipError>, expected: Result<Seq<i32>, MipError>)
    -> bool {
    match result {
        Ok(corner) => expected == Ok::<Seq<i32>, MipError>(corner@),
        Err(error) => expected == Err::<Seq<i32>, MipError>(error),
    }
}

/// Turns the dimensions of a mip level into the far corner of its blit
/// region: a missing level and a level that is not two-dimensional are errors.
pub fn mip_extent(level: u32, mip: Option<ImageDimensions>) -> (corner: Result<[i32; 3], MipError>)
    ensures
        same_corner(corner, mip_corner(level, mip)),
{
    match mip {
        Some(ImageDimensions::Dim2d { width, height, .. }) => {
            let corner: [i32; 3] = [width as i32, height as i32, 1];
            assert(corner@ =~= seq![width as i32, height as i32, 1i32]);
            Ok(corner)
        },
        Some(_) => Err(MipError::NotTwoDimensional),
        None => Err(MipError::NoSuchLevel { level }),
    }
}

/// The far corner of the blit region of mip level `mip_idx` of an image.
pub fn get_mip_dim(mip_idx: u32, img_dimensions: ImageDimensions) -> (corner: Result<
    [i32; 3],
    MipError,
>)
    requires
        img_dimensions.positive(),
        mip_idx <= MAX_MIP_LEVEL,
    ensures
        same_corner(corner, mip_dim(mip_idx, img_dimensions)),
{
    mip_extent(mip_idx, mipmap_dimensions(&img_dimensions, mip_idx))
}

/// As [`get_mip_dim`], for any dimensions and any level: where a side is
/// zero or the level is above 31 nothing is asked, and the answer is `None`.
pub fn try_get_mip_dim(mip_idx: u32, img_dimensions: ImageDimensions) -> (corner: Option<
    Result<[i32; 3], MipError>,
>)
    ensures
        corner is Some <==> img_dimensions.positive() && mip_idx <= MAX_MIP_LEVEL,
        corner matches Some(found) ==> same_corner(found, mip_dim(mip_idx, img_dimensions)),
{
    if img_dimensions.is_positive() && mip_idx <= MAX_MIP_LEVEL {
        Some(get_mip_dim(mip_idx, img_dimensions))
    } else {
        None
    }
}

/// The two corners of the blit that fills level `level` from the level
/// before it, or the error of the first of the two levels that has none.
pub open spec fn blit_corners(dimensions: ImageDimensions, level: u32) -> Result<
    (Seq<i32>, Seq<i32>),
    MipError,
> {
    match mip_dim((level - 1) as u32, dimensions) {
        Err(error) => Err(error),
        Ok(source) => match mip_dim(level, dimensions) {
            Err(error) => Err(error),
            Ok(destination) => Ok((source, destination)),
        },
    }
}

impl MipBlit {
    /// The blit fills level `level` of the image from the level before it.
    pub open spec fn fills(self, dimensions: ImageDimensions, level: u32) -> bool {
        &&& self.source_level == level - 1
        &&& self.destination_level == level
        &&& blit_corners(dimensions, level) == Ok::<(Seq<i32>, Seq<i32>), MipError>(
            (self.source_extent@, self.destination_extent@),
        )
    }
}

/// Plans the blits that fill the mip levels of an image with `levels`
/// levels: one blit for each level from 1 on, in order, each from the level
/// before it. The first level that cannot be blitted ends the plan with its error.
pub fn mip_blit_chain(levels: u32, dimensions: ImageDimensions) -> (plan: Result<
    Vec<MipBlit>,
    MipError,
>)
    requires
        dimensions.positive(),
        levels <= MAX_MIP_LEVEL + 1,
    ensures
        match plan {
            Ok(blits) => {
                &&& blits@.len() == if levels == 0 {
                    0int
                } else {
                    levels - 1
                }
                &&& forall|i: int|
                    0 <= i < blits@.len() ==> (#[trigger] blits@[i]).fills(
                        dimensions,
                        (i + 1) as u32,
                    )
            },
            Err(error) => exists|level: u32|
                {
                    &&& 1 <= level < levels
                    &&& #[trigger] blit_corners(dimensions, level) == Err::<
                        (Seq<i32>, Seq<i32>),
                        MipError,
                    >(error)
                    &&& forall|earlier: u32|
                        1 <= earlier < level ==> (#[trigger] blit_corners(dimensions, earlier))
                            is Ok
                },
        },
{
    let mut blits: Vec<MipBlit> = Vec::new();
    let mut level: u32 = 1;
    while level < levels
        invariant
            dimensions.positive(),
            levels <= MAX_MIP_LEVEL + 1,
            1 <= level,
            level <= levels || level == 1,
            blits@.len() == level - 1,
            forall|i: int|
                0 <= i < blits@.len() ==> (#[trigger] blits@[i]).fills(dimensions, (i + 1) as u32),
            forall|earlier: u32|
                1 <= earlier < level ==> (#[trigger] blit_corners(dimensions, earlier)) is Ok,
        decreases levels - level,
    {
        let source = get_mip_dim(level - 1, dimensions);
        let source_extent = match source {
            Ok(corner) => corner,
            Err(error) => {
                assert(blit_corners(dimensions, level) == Err::<(Seq<i32>, Seq<i32>), MipError>(
                    error,
                ));
                return Err(error);
            },
        };
        let destination = get_mip_dim(level, dimensions);
        let destination_extent = match destination {
            Ok(corner) => corner,
            Err(error) => {
                assert(blit_corners(dimensions, level) == Err::<(Seq<i32>, Seq<i32>), MipError>(
                    error,
                ));
                return Err(error);
            },
        };
        blits.push(
            MipBlit {
                source_level: level - 1,
                source_extent,
                destination_level: level,
                destination_extent,
            },
        );
        level += 1;
    }
    Ok(blits)
}

} // verus!
