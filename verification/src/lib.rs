//! Fixed-point combat simulation core of a tower-defense game: where turrets
//! aim, when they fire, how projectiles fly and end, and how the effects they
//! leave behind grow and fade.
//!
//! The functions here work on one entity at a time. Whoever owns the entities
//! walks them once per frame and hands each function the records it names,
//! the frame's delta in nanoseconds, and what only floating point can give:
//! the bearing of the target and the cosine and sine of a heading.

pub mod angle;
pub mod assets;
pub mod color;
pub mod components;
pub mod entropy;
pub mod math;
pub mod routes;
pub mod systems;
pub mod timer;
pub mod turret_bundles;
pub mod ui;
pub mod units;

use vstd::prelude::*;

verus! {

/// The kinds of turret a player can place.
#[derive(Clone, Copy, Debug, PartialEq, Eq, Structural)]
pub enum TurretType {
    PulseBlaster,
    IonCannon,
    SwarmTurret,
    PlasmaRay,
    RailGun,
    CryoGenerator,
    Tesla,
    SeekerLauncher,
    AcidSprayer,
    FireThrower,
    Sentinel,
}

impl Default for TurretType {
    fn default() -> (t: TurretType)
        ensures
            t == TurretType::PulseBlaster,
    {
        TurretType::PulseBlaster
    }
}

/// The turret the player has picked to place next, if any.
#[derive(Clone, Copy, Debug, PartialEq, Eq, Structural)]
pub struct SelectedWeapon(pub Option<TurretType>);

/// The size of the window in billionths of a world unit.
#[derive(Clone, Copy, Debug, PartialEq, Eq, Structural)]
pub struct WinSize {
    pub width: i64,
    pub height: i64,
}

/// The pages of the weapon picker.
#[derive(Clone, Copy, Debug, PartialEq, Eq, Structural)]
pub enum WeaponPage {
    StandardWeapons,
    SpecialWeapons,
    Building,
}

/// The page of the weapon picker that is shown.
#[derive(Clone, Copy, Debug, PartialEq, Eq, Structural)]
pub struct CurrentPage(pub WeaponPage);

/// A step through the pages of the weapon picker.
#[derive(Clone, Copy, Debug, PartialEq, Eq, Structural)]
pub enum PageNavigation {
    Next,
    Previous,
}

/// The page with the given index, counted from zero.
pub open spec fn page_at(val: int) -> Option<WeaponPage> {
    if val == 0 {
        Some(WeaponPage::StandardWeapons)
    } else if val == 1 {
        Some(WeaponPage::SpecialWeapons)
    } else if val == 2 {
        Some(WeaponPage::Building)
    } else {
        None
    }
}

impl WeaponPage {
    /// The page with index `val`; `None` past the last page.
    pub fn from_u8(val: u8) -> (page: Option<WeaponPage>)
        ensures
            page == page_at(val as int),
    {
        match val {
            0 => Some(WeaponPage::StandardWeapons),
            1 => Some(WeaponPage::SpecialWeapons),
            2 => Some(WeaponPage::Building),
            _ => None,
        }
    }
}

} // verus!
