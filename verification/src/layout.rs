use vstd::prelude::*;

verus! {

// Where SpaceEngine 0.990.45.1945 keeps what is read and written, as offsets
// from the base of its main module.

/// The code of the selected object.
pub const SELECTED_OBJECT_CODE: usize = 0x19a9e40;

/// Offset of the octree level within an object code.
pub const CODE_LEVEL: usize = 0x4;

/// Offset of the octree block within an object code.
pub const CODE_BLOCK: usize = 0x8;

/// Offset of the galaxy number within an object code.
pub const CODE_NUMBER: usize = 0x10;

/// Pointer to the parameters of the selected object.
pub const SELECTED_OBJECT_POINTER: usize = 0x19a9ec0;

/// Pointer to the parameters of the selected system.
pub const SELECTED_SYSTEM_POINTER: usize = 0x19a9ec8;

/// Number of systems the star browser has searched.
pub const STAR_BROWSER_SYSTEMS_SEARCHED: usize = 0x1024114;

/// Number of systems the star browser has found.
pub const STAR_BROWSER_SYSTEMS_FOUND: usize = 0x1024118;

/// Whether the star browser is searching.
pub const STAR_BROWSER_SEARCHING: usize = 0x104a181;

/// The star browser's search radius.
pub const STAR_BROWSER_SEARCH_RADIUS: usize = 0x1024100;

/// Length of the star browser's list.
pub const STAR_BROWSER_STAR_LIST_LEN: usize = 0x102410C;

/// The GUI scale.
pub const GUI_SCALE: usize = 0xe69434;

/// Layout position of the star browser's search button.
pub const STAR_BROWSER_SEARCH_BUTTON: usize = 0x1025a78;

/// Layout position of the star browser's clear button.
pub const STAR_BROWSER_CLEAR_BUTTON: usize = 0x1025d60;

/// Layout position of the star browser's filter toggle.
pub const STAR_BROWSER_FILTER_TOGGLE: usize = 0x1029de8;

/// Layout position of the star browser's filter sort button.
pub const STAR_BROWSER_FILTER_SORT: usize = 0x1027a70;

/// Offset of a layout position's vertical coordinate.
pub const POSITION_Y: usize = 0x4;

// Offsets within the parameters of an object.

/// Volatiles class.
pub const OBJECT_VOL_CLASS: usize = 0x34;

/// Bulk class.
pub const OBJECT_BULK_CLASS: usize = 0x3c;

/// Mass, in Earth masses.
pub const OBJECT_MASS: usize = 0x11f8;

/// Equatorial radius, in km.
pub const OBJECT_EQUAT_RADIUS: usize = 0x1ca4;

/// Average temperature, in K.
pub const OBJECT_AVG_TEMP: usize = 0x1248;

/// Oblateness.
pub const OBJECT_OBLATENESS: usize = 0x120c;

/// Raw life value.
pub const OBJECT_LIFE: usize = 0x11bc;

/// Atmospheric pressure.
pub const OBJECT_ATM_PRESSURE: usize = 0x17d8;

/// Maximum depth of the hydrosphere.
pub const OBJECT_HYDROSPHERE_DEPTH: usize = 0x15a0;

/// Share of oxygen in the hydrosphere.
pub const OBJECT_HYDROSPHERE_ELEMENT_O2: usize = 0x14dc;

/// Sum of the hydrosphere's elements.
pub const OBJECT_HYDROSPHERE_SUM_OF_ELEMENTS: usize = 0x1590;

/// Raw object flags.
pub const OBJECT_BITFLAGS: usize = 0x11C0;

/// Offset from an object's parameters to those of its binary companion.
pub const OBJECT_COMPANION: usize = 0x36D0;

/// Type of a galaxy.
pub const GALAXY_TYPE: usize = 0x8;

/// Size of a galaxy.
pub const GALAXY_SIZE: usize = 0x20;

/// Seed of a system.
pub const SYSTEM_SEED: usize = 0x170;

/// Number of planets of a system.
pub const SYSTEM_NUM_PLANETS: usize = 0xB4;

} // verus!
