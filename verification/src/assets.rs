//! Where the game's assets are found.

use vstd::prelude::*;

verus! {

/// The paths of the assets, below the asset directory.
pub struct AssetPath;

impl AssetPath {
    pub const FONT_LIGHT: &'static str = "fonts/rajdhani/Rajdhani-Light.ttf";

    pub const FONT_REGULAR: &'static str = "fonts/rajdhani/Rajdhani-Regular.ttf";

    pub const FONT_MEDIUM: &'static str = "fonts/rajdhani/Rajdhani-Medium.ttf";

    pub const FONT_SEMIBOLD: &'static str = "fonts/rajdhani/Rajdhani-SemiBold.ttf";

    pub const FONT_BOLD: &'static str = "fonts/rajdhani/Rajdhani-Bold.ttf";

    pub const CURSOR: &'static str = "images/cursor.png";

    pub const ACID_SPRAYER: &'static str = "turrets/AcidSprayer.png";

    pub const PLASMA_RAY: &'static str = "turrets/PlasmaRay.png";

    pub const PULSE_BLASTER: &'static str = "turrets/PulseBlaster.png";

    pub const RAIL_GUN: &'static str = "turrets/RailGun.png";

    pub const CHEVRON_LEFT: &'static str = "images/chevron_left.png";

    pub const CHEVRON_RIGHT: &'static str = "images/chevron_right.png";
}

} // verus!
