use frame_engine::mipmap::{
    get_mip_dim, mip_blit_chain, mip_extent, try_get_mip_dim, ImageDimensions, MipBlit, MipError,
};

fn two_dimensional(width: u32, height: u32) -> ImageDimensions {
    ImageDimensions::Dim2d { width, height, array_layers: 1, cubemap_compatible: false }
}

#[test]
fn level_zero_is_the_image_itself() {
    assert_eq!(get_mip_dim(0, two_dimensional(963, 256)), Ok([963, 256, 1]));
}

#[test]
fn levels_halve_and_round_up_to_a_power_of_two() {
    let dimensions = two_dimensional(963, 256);
    assert_eq!(get_mip_dim(1, dimensions), Ok([512, 128, 1]));
    assert_eq!(get_mip_dim(6, dimensions), Ok([16, 4, 1]));
    assert_eq!(get_mip_dim(9, dimensions), Ok([2, 1, 1]));
}

#[test]
fn level_past_the_last_is_an_error() {
    let dimensions = two_dimensional(963, 256);
    assert_eq!(get_mip_dim(11, dimensions), Err(MipError::NoSuchLevel { level: 11 }));
    assert_eq!(get_mip_dim(31, dimensions), Err(MipError::NoSuchLevel { level: 31 }));
}

#[test]
fn other_dimensions_are_not_blitted() {
    let line = ImageDimensions::Dim1d { width: 64, array_layers: 1 };
    assert_eq!(get_mip_dim(1, line), Err(MipError::NotTwoDimensional));
    let volume = ImageDimensions::Dim3d { width: 64, height: 64, depth: 64 };
    assert_eq!(get_mip_dim(0, volume), Err(MipError::NotTwoDimensional));
    assert_eq!(get_mip_dim(20, volume), Err(MipError::NoSuchLevel { level: 20 }));
}

#[test]
fn extent_of_a_level_is_width_height_and_one() {
    assert_eq!(mip_extent(3, Some(two_dimensional(40, 30))), Ok([40, 30, 1]));
    assert_eq!(mip_extent(3, None), Err(MipError::NoSuchLevel { level: 3 }));
    assert_eq!(
        mip_extent(3, Some(ImageDimensions::Dim1d { width: 40, array_layers: 2 })),
        Err(MipError::NotTwoDimensional)
    );
    assert_eq!(
        mip_extent(0, Some(two_dimensional(u32::MAX, 0x8000_0000))),
        Ok([-1, i32::MIN, 1])
    );
}

#[test]
fn nothing_is_asked_for_zero_sides_or_high_levels() {
    assert_eq!(try_get_mip_dim(1, two_dimensional(0, 256)), None);
    assert_eq!(try_get_mip_dim(1, two_dimensional(256, 0)), None);
    assert_eq!(try_get_mip_dim(32, two_dimensional(256, 256)), None);
    assert_eq!(try_get_mip_dim(1, two_dimensional(256, 256)), Some(Ok([128, 128, 1])));
    assert_eq!(
        try_get_mip_dim(9, two_dimensional(256, 256)),
        Some(Err(MipError::NoSuchLevel { level: 9 }))
    );
}

#[test]
fn blit_chain_goes_level_by_level() {
    let plan = mip_blit_chain(4, two_dimensional(16, 8));
    assert_eq!(
        plan,
        Ok(vec![
            MipBlit {
                source_level: 0,
                source_extent: [16, 8, 1],
                destination_level: 1,
                destination_extent: [8, 4, 1]
            },
            MipBlit {
                source_level: 1,
                source_extent: [8, 4, 1],
                destination_level: 2,
                destination_extent: [4, 2, 1]
            },
            MipBlit {
                source_level: 2,
                source_extent: [4, 2, 1],
                destination_level: 3,
                destination_extent: [2, 1, 1]
            },
        ])
    );
}

#[test]
fn blit_chain_of_one_level_is_empty() {
    assert_eq!(mip_blit_chain(1, two_dimensional(16, 8)), Ok(vec![]));
    assert_eq!(mip_blit_chain(0, two_dimensional(16, 8)), Ok(vec![]));
}

#[test]
fn blit_chain_ends_at_the_first_missing_level() {
    assert_eq!(
        mip_blit_chain(7, two_dimensional(16, 8)),
        Err(MipError::NoSuchLevel { level: 5 })
    );
    let volume = ImageDimensions::Dim3d { width: 4, height: 4, depth: 4 };
    assert_eq!(mip_blit_chain(2, volume), Err(MipError::NotTwoDimensional));
}
