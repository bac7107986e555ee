//! Temporal reprojection: the settings of each quality level and the
//! description of the history images.
//!
//! Blend factors and thresholds are per mille.

use vstd::prelude::*;

verus! {

/// Settings of temporal reprojection.
#[derive(Debug, Clone, Copy, PartialEq, Eq, Structural)]
pub struct TemporalReprojectionConfig {
    /// The weight of the history in the blend, in per mille.
    pub history_alpha: u16,
    pub max_temporal_samples: u32,
    /// The motion, in per mille, above which the history loses weight.
    pub motion_threshold: u16,
    pub enable_variance_guided: bool,
    pub enable_depth_validation: bool,
    pub enable_normal_validation: bool,
}

/// How much is spent on temporal reprojection.
#[derive(Debug, Clone, Copy, PartialEq, Eq, Structural)]
pub enum TemporalQuality {
    Basic,
    Enhanced,
    High,
    Ultra,
}

/// The settings of a quality level.
pub open spec fn config_of(quality: TemporalQuality) -> TemporalReprojectionConfig {
    match quality {
        TemporalQuality::Basic => TemporalReprojectionConfig {
            history_alpha: 850,
            max_temporal_samples: 16,
            motion_threshold: 20,
            enable_variance_guided: false,
            enable_depth_validation: true,
            enable_normal_validation: false,
        },
        TemporalQuality::Enhanced => TemporalReprojectionConfig {
            history_alpha: 900,
            max_temporal_samples: 32,
            motion_threshold: 15,
            enable_variance_guided: false,
            enable_depth_validation: true,
            enable_normal_validation: true,
        },
        TemporalQuality::High => TemporalReprojectionConfig {
            history_alpha: 950,
            max_temporal_samples: 64,
            motion_threshold: 10,
            enable_variance_guided: true,
            enable_depth_validation: true,
            enable_normal_validation: true,
        },
        TemporalQuality::Ultra => TemporalReprojectionConfig {
            history_alpha: 980,
            max_temporal_samples: 128,
            motion_threshold: 5,
            enable_variance_guided: true,
            enable_depth_validation: true,
            enable_normal_validation: true,
        },
    }
}

impl Default for TemporalReprojectionConfig {
    fn default() -> (r: TemporalReprojectionConfig)
        ensures
            r == config_of(TemporalQuality::High),
    {
        TemporalQuality::High.to_config()
    }
}

impl TemporalQuality {
    /// The settings of the quality level.
    pub fn to_config(self) -> (r: TemporalReprojectionConfig)
        ensures
            r == config_of(self),
    {
        match self {
            TemporalQuality::Basic => TemporalReprojectionConfig {
                history_alpha: 850,
                max_temporal_samples: 16,
                motion_threshold: 20,
                enable_variance_guided: false,
                enable_depth_validation: true,
                enable_normal_validation: false,
            },
            TemporalQuality::Enhanced => TemporalReprojectionConfig {
                history_alpha: 900,
                max_temporal_samples: 32,
                motion_threshold: 15,
                enable_variance_guided: false,
                enable_depth_validation: true,
                enable_normal_validation: true,
            },
            TemporalQuality::High => TemporalReprojectionConfig {
                history_alpha: 950,
                max_temporal_samples: 64,
                motion_threshold: 10,
                enable_variance_guided: true,
                enable_depth_validation: true,
                enable_normal_validation: true,
            },
            TemporalQuality::Ultra => TemporalReprojectionConfig {
                history_alpha: 980,
                max_temporal_samples: 128,
                motion_threshold: 5,
                enable_variance_guided: true,
                enable_depth_validation: true,
                enable_normal_validation: true,
            },
        }
    }
}

/// Holds the settings of temporal reprojection for a renderer.
#[derive(Debug, Clone, Copy)]
pub struct TemporalReprojectionRenderer {
    config: TemporalReprojectionConfig,
}

impl View for TemporalReprojectionRenderer {
    type V = TemporalReprojectionConfig;

    closed spec fn view(&self) -> TemporalReprojectionConfig {
        self.config
    }
}

impl TemporalReprojectionRenderer {
    /// A renderer with the given settings.
    pub fn new(config: TemporalReprojectionConfig) -> (r: TemporalReprojectionRenderer)
        ensures
            r@ == config,
    {
        TemporalReprojectionRenderer { config }
    }

    /// Replaces the settings.
    pub fn update_config(&mut self, config: TemporalReprojectionConfig)
        ensures
            final(self)@ == config,
    {
        self.config = config;
    }

    /// The settings in use.
    pub fn get_config(&self) -> (r: &TemporalReprojectionConfig)
        ensures
            *r == self@,
    {
        &self.config
    }
}

/// An image may be copied into.
pub const IMAGE_USAGE_TRANSFER_DST: u32 = 0x2;

/// An image may be sampled.
pub const IMAGE_USAGE_SAMPLED: u32 = 0x4;

/// An image may be written by shaders.
pub const IMAGE_USAGE_STORAGE: u32 = 0x8;

/// The uses of a history image: sampled, written by shaders, copied into.
pub const TEMPORAL_IMAGE_USAGE: u32 = 0xe;

/// The description of a two-dimensional image.
#[derive(Debug, Clone, Copy, PartialEq, Eq)]
pub struct TemporalImageDesc {
    /// Width and height in pixels.
    pub extent: [u32; 2],
    /// The pixel format, by its number in the graphics interface.
    pub format: i32,
    /// The uses of the image, one bit each.
    pub usage: u32,
}

/// The description of a history image of the given extent and format.
pub fn create_temporal_desc(extent: [u32; 2], format: i32) -> (r: TemporalImageDesc)
    ensures
        r.extent == extent,
        r.format == format,
        r.usage == TEMPORAL_IMAGE_USAGE,
        r.usage == IMAGE_USAGE_SAMPLED | IMAGE_USAGE_STORAGE | IMAGE_USAGE_TRANSFER_DST,
{
    assert(0xeu32 == 0x4u32 | 0x8u32 | 0x2u32) by (bit_vector);
    TemporalImageDesc { extent, format, usage: TEMPORAL_IMAGE_USAGE }
}

/// The part of the world renderer that holds temporal reprojection.
#[derive(Debug, Clone, Copy)]
pub struct WorldRenderer {
    temporal_reprojection: Option<TemporalReprojectionRenderer>,
}

impl View for WorldRenderer {
    type V = Option<TemporalReprojectionConfig>;

    closed spec fn view(&self) -> Option<TemporalReprojectionConfig> {
        match self.temporal_reprojection {
            Some(renderer) => Some(renderer@),
            None => None,
        }
    }
}

impl WorldRenderer {
    /// A renderer without temporal reprojection.
    pub fn new() -> (r: WorldRenderer)
        ensures
            r@ is None,
    {
        WorldRenderer { temporal_reprojection: None }
    }

    /// Sets temporal reprojection up at high quality.
    pub fn init_temporal_reprojection(&mut self)
        ensures
            final(self)@ == Some(config_of(TemporalQuality::High)),
    {
        self.temporal_reprojection = Some(
            TemporalReprojectionRenderer::new(TemporalQuality::High.to_config()),
        );
    }

    /// Changes the quality of temporal reprojection, if it was set up.
    pub fn set_temporal_quality(&mut self, quality: TemporalQuality)
        ensures
            final(self)@ == if old(self)@ is Some {
                Some(config_of(quality))
            } else {
                None
            },
    {
        match &mut self.temporal_reprojection {
            Some(temporal_reprojection) => {
                temporal_reprojection.update_config(quality.to_config());
            },
            None => {},
        }
    }

    /// The settings of temporal reprojection, if it was set up.
    pub fn get_temporal_config(&self) -> (r: Option<&TemporalReprojectionConfig>)
        ensures
            match r {
                Some(config) => self@ == Some(*config),
                None => self@ is None,
            },
    {
        match &self.temporal_reprojection {
            Some(temporal_reprojection) => Some(temporal_reprojection.get_config()),
            None => None,
        }
    }
}

} // verus!
