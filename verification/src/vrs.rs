//! Variable-rate shading: the shading rates, the choice of a rate from the
//! frame time, and the layout of the shading-rate image.
//!
//! Performance factors are per mille, frame times are whole microseconds.

use vstd::prelude::*;

verus! {

/// The size of the block of pixels that one fragment shades.
#[derive(Debug, Clone, Copy, PartialEq, Eq, Hash, Structural)]
pub enum ShadingRateFragment {
    Rate1x1,
    Rate1x2,
    Rate2x1,
    Rate2x2,
    Rate2x4,
    Rate4x2,
    Rate4x4,
}

/// The number by which the graphics interface knows a rate: two bits for the
/// binary logarithm of the width, and below them two for that of the height.
pub open spec fn vk_rate_of(rate: ShadingRateFragment) -> u32 {
    match rate {
        ShadingRateFragment::Rate1x1 => 0,
        ShadingRateFragment::Rate1x2 => 1,
        ShadingRateFragment::Rate2x1 => 4,
        ShadingRateFragment::Rate2x2 => 5,
        ShadingRateFragment::Rate2x4 => 6,
        ShadingRateFragment::Rate4x2 => 9,
        ShadingRateFragment::Rate4x4 => 10,
    }
}

/// Width and height, in pixels, of the block that one fragment shades.
pub open spec fn texel_size_of(rate: ShadingRateFragment) -> (u32, u32) {
    match rate {
        ShadingRateFragment::Rate1x1 => (1, 1),
        ShadingRateFragment::Rate1x2 => (1, 2),
        ShadingRateFragment::Rate2x1 => (2, 1),
        ShadingRateFragment::Rate2x2 => (2, 2),
        ShadingRateFragment::Rate2x4 => (2, 4),
        ShadingRateFragment::Rate4x2 => (4, 2),
        ShadingRateFragment::Rate4x4 => (4, 4),
    }
}

/// The rate for a wanted gain in performance, in per mille: from 4.0 on
/// `4x4`, from 2.0 on `2x2`, from 1.5 on `1x2`, else `1x1`.
pub open spec fn rate_for_target(performance_factor: u32) -> ShadingRateFragment {
    if performance_factor >= 4000 {
        ShadingRateFragment::Rate4x4
    } else if performance_factor >= 2000 {
        ShadingRateFragment::Rate2x2
    } else if performance_factor >= 1500 {
        ShadingRateFragment::Rate1x2
    } else {
        ShadingRateFragment::Rate1x1
    }
}

impl ShadingRateFragment {
    /// The rate for a wanted gain in performance, in per mille.
    pub fn from_performance_target(performance_factor: u32) -> (r: ShadingRateFragment)
        ensures
            r == rate_for_target(performance_factor),
    {
        if performance_factor >= 4000 {
            ShadingRateFragment::Rate4x4
        } else if performance_factor >= 2000 {
            ShadingRateFragment::Rate2x2
        } else if performance_factor >= 1500 {
            ShadingRateFragment::Rate1x2
        } else {
            ShadingRateFragment::Rate1x1
        }
    }

    /// Width and height, in pixels, of the block that one fragment shades.
    pub fn texel_size(self) -> (r: (u32, u32))
        ensures
            r == texel_size_of(self),
    {
        match self {
            ShadingRateFragment::Rate1x1 => (1, 1),
            ShadingRateFragment::Rate1x2 => (1, 2),
            ShadingRateFragment::Rate2x1 => (2, 1),
            ShadingRateFragment::Rate2x2 => (2, 2),
            ShadingRateFragment::Rate2x4 => (2, 4),
            ShadingRateFragment::Rate4x2 => (4, 2),
            ShadingRateFragment::Rate4x4 => (4, 4),
        }
    }

    /// The number of pixels that one fragment shades.
    pub fn performance_gain(self) -> (r: u32)
        ensures
            r == texel_size_of(self).0 * texel_size_of(self).1,
    {
        let size = self.texel_size();
        size.0 * size.1
    }

    /// The number by which the graphics interface knows the rate.
    pub fn to_vk_rate(self) -> (r: u32)
        ensures
            r == vk_rate_of(self),
    {
        match self {
            ShadingRateFragment::Rate1x1 => 0,
            ShadingRateFragment::Rate1x2 => 1,
            ShadingRateFragment::Rate2x1 => 4,
            ShadingRateFragment::Rate2x2 => 5,
            ShadingRateFragment::Rate2x4 => 6,
            ShadingRateFragment::Rate4x2 => 9,
            ShadingRateFragment::Rate4x4 => 10,
        }
    }
}

/// Settings of variable-rate shading.
#[derive(Debug, Clone, Copy)]
pub struct VrsConfig {
    pub enabled: bool,
    pub adaptive: bool,
    pub base_rate: ShadingRateFragment,
    pub max_rate: ShadingRateFragment,
    /// The frame rate that is aimed at, in thousandths of a frame per second.
    pub performance_threshold: u32,
}

impl Default for VrsConfig {
    fn default() -> (r: VrsConfig)
        ensures
            !r.enabled,
            r.adaptive,
            r.base_rate == ShadingRateFragment::Rate1x1,
            r.max_rate == ShadingRateFragment::Rate2x2,
            r.performance_threshold == 60_000,
    {
        VrsConfig {
            enabled: false,
            adaptive: true,
            base_rate: ShadingRateFragment::Rate1x1,
            max_rate: ShadingRateFragment::Rate2x2,
            performance_threshold: 60_000,
        }
    }
}

/// The rate for a frame that took `frame_time` where `target_frame_time`
/// was aimed at: the coarsest rate when the frame took more than 1.2 times
/// the target, `2x1` when it took more than 1.1 times, else the base rate;
/// always the base rate when the rate is not adaptive.
pub open spec fn adaptive_rate(frame_time: int, target_frame_time: int, config: VrsConfig) -> ShadingRateFragment {
    if !config.adaptive {
        config.base_rate
    } else if 5 * frame_time > 6 * target_frame_time {
        config.max_rate
    } else if 10 * frame_time > 11 * target_frame_time {
        ShadingRateFragment::Rate2x1
    } else {
        config.base_rate
    }
}

/// The rate for a frame that took `frame_time_us` microseconds where
/// `target_frame_time_us` were aimed at.
pub fn calculate_adaptive_shading_rate(
    frame_time_us: u32,
    target_frame_time_us: u32,
    config: &VrsConfig,
) -> (r: ShadingRateFragment)
    ensures
        r == adaptive_rate(frame_time_us as int, target_frame_time_us as int, *config),
{
    if !config.adaptive {
        return config.base_rate;
    }
    let frame: u64 = frame_time_us as u64;
    let target: u64 = target_frame_time_us as u64;
    if 5 * frame > 6 * target {
        config.max_rate
    } else if 10 * frame > 11 * target {
        ShadingRateFragment::Rate2x1
    } else {
        config.base_rate
    }
}

/// The number of tiles that cover `extent` pixels: `extent / tile_size`,
/// rounded up.
pub open spec fn tiles_for(extent: u32, tile_size: u32) -> int {
    (extent + tile_size - 1) / (tile_size as int)
}

/// Width and height, in tiles, of the shading-rate image for a render
/// target of the given extent.
pub fn shading_rate_image_extent(extent: (u32, u32), tile_size: (u32, u32)) -> (r: (u32, u32))
    requires
        tile_size.0 > 0,
        tile_size.1 > 0,
    ensures
        r.0 == tiles_for(extent.0, tile_size.0),
        r.1 == tiles_for(extent.1, tile_size.1),
{
    let width: u64 = ((extent.0 as u64) + (tile_size.0 as u64) - 1) / (tile_size.0 as u64);
    let height: u64 = ((extent.1 as u64) + (tile_size.1 as u64) - 1) / (tile_size.1 as u64);
    assert(width <= u32::MAX) by (nonlinear_arith)
        requires
            width == (extent.0 + tile_size.0 - 1) / (tile_size.0 as int),
            0 <= extent.0 <= u32::MAX,
            1 <= tile_size.0,
    ;
    assert(height <= u32::MAX) by (nonlinear_arith)
        requires
            height == (extent.1 + tile_size.1 - 1) / (tile_size.1 as int),
            0 <= extent.1 <= u32::MAX,
            1 <= tile_size.1,
    ;
    (width as u32, height as u32)
}

/// The bytes of a shading-rate image of `tiles` tiles: the given rates by
/// their numbers, as far as they go and fit, and the rate `1x1` in the rest.
pub open spec fn rate_data_of(rates: Seq<ShadingRateFragment>, tiles: int) -> Seq<u8> {
    Seq::new(
        tiles as nat,
        |i: int|
            if i < rates.len() {
                vk_rate_of(rates[i]) as u8
            } else {
                0u8
            },
    )
}

/// The bytes of a shading-rate image of `tiles` tiles.
pub fn shading_rate_data(rates: &Vec<ShadingRateFragment>, tiles: usize) -> (r: Vec<u8>)
    ensures
        r@ == rate_data_of(rates@, tiles as int),
{
    let mut rate_data: Vec<u8> = Vec::new();
    let mut i: usize = 0;
    while i < tiles
        invariant
            i <= tiles,
            rate_data@ == rate_data_of(rates@, i as int),
        decreases tiles - i,
    {
        let byte: u8 = if i < rates.len() {
            rates[i].to_vk_rate() as u8
        } else {
            0
        };
        rate_data.push(byte);
        assert(rate_data@ =~= rate_data_of(rates@, i + 1));
        i += 1;
    }
    rate_data
}

/// The tile size that is taken where the device names none.
pub const DEFAULT_VRS_TILE_SIZE: u32 = 16;

/// The settings with which the world renderer uses variable-rate shading:
/// switched on and adaptive, the rest as by default.
pub fn get_vrs_config() -> (r: VrsConfig)
    ensures
        r.enabled,
        r.adaptive,
        r.base_rate == ShadingRateFragment::Rate1x1,
        r.max_rate == ShadingRateFragment::Rate2x2,
        r.performance_threshold == 60_000,
{
    VrsConfig {
        enabled: true,
        adaptive: true,
        base_rate: ShadingRateFragment::Rate1x1,
        max_rate: ShadingRateFragment::Rate2x2,
        performance_threshold: 60_000,
    }
}

/// The extent, in tiles, of the shading-rate image that the world renderer
/// makes for a render target: none where the device or the settings have
/// variable-rate shading switched off. The device's tile size counts where it
/// names one without a zero in it, else sixteen by sixteen.
pub fn create_vrs_shading_rate_image(
    device_vrs_enabled: bool,
    device_tile_size: Option<(u32, u32)>,
    render_extent: (u32, u32),
    config: &VrsConfig,
) -> (r: Option<(u32, u32)>)
    ensures
        r is Some <==> device_vrs_enabled && config.enabled,
        r matches Some(extent) ==> {
            let tile = match device_tile_size {
                Some(size) => if size.0 > 0 && size.1 > 0 {
                    size
                } else {
                    (DEFAULT_VRS_TILE_SIZE, DEFAULT_VRS_TILE_SIZE)
                },
                None => (DEFAULT_VRS_TILE_SIZE, DEFAULT_VRS_TILE_SIZE),
            };
            extent.0 == tiles_for(render_extent.0, tile.0) && extent.1 == tiles_for(
                render_extent.1,
                tile.1,
            )
        },
{
    if !device_vrs_enabled || !config.enabled {
        return None;
    }
    let tile_size = match device_tile_size {
        Some(size) => if size.0 > 0 && size.1 > 0 {
            size
        } else {
            (DEFAULT_VRS_TILE_SIZE, DEFAULT_VRS_TILE_SIZE)
        },
        None => (DEFAULT_VRS_TILE_SIZE, DEFAULT_VRS_TILE_SIZE),
    };
    Some(shading_rate_image_extent(render_extent, tile_size))
}

} // verus!
