//! Public entry types: the selector builder, the theme options, and the
//! terminal selection value handed back to the caller.

use vstd::prelude::*;
use crate::state::TargetDescriptor;

verus! {

/// Visual theme options accepted by the selector; cosmetic only, never read by
/// the core logic.
#[derive(Clone, Copy, PartialEq, Eq, Structural, Debug)]
pub enum WaySipTheme {
    Light,
    Dark,
    Dracula,
    Nord,
    SolarizedLight,
    SolarizedDark,
    GruvboxLight,
    GruvboxDark,
    CatppuccinLatte,
    CatppuccinFrappe,
    CatppuccinMacchiato,
    CatppuccinMocha,
    TokyoNight,
    TokyoNightStorm,
    TokyoNightLight,
    KanagawaWave,
    KanagawaDragon,
    KanagawaLotus,
    Moonfly,
    Oxocarbon,
    Ferra,
}

impl Default for WaySipTheme {
    fn default() -> (t: Self)
        ensures
            t == WaySipTheme::Dark,
    {
        WaySipTheme::Dark
    }
}

/// The user's selection made through interaction with the GUI area selector:
/// a window, an output, or nothing (cancelled or timed out).
#[derive(Clone, PartialEq, Eq, Debug)]
pub enum GUISelection {
    Toplevel(TargetDescriptor),
    Output(TargetDescriptor),
    Failed,
}

/// Configuration gathered before the selector is launched. The compositor
/// connection and the event loop live with the embedding front end; this side
/// keeps what the core itself is configured by.
pub struct AreaSelectorGUI {
    pub theme: WaySipTheme,
}

impl Default for AreaSelectorGUI {
    fn default() -> (s: Self)
        ensures
            s.theme == WaySipTheme::Dark,
    {
        AreaSelectorGUI { theme: WaySipTheme::Dark }
    }
}

impl AreaSelectorGUI {
    pub fn new() -> (s: Self)
        ensures
            s.theme == WaySipTheme::Dark,
    {
        Self::default()
    }

    pub fn with_theme(self, theme: WaySipTheme) -> (s: Self)
        ensures
            s.theme == theme,
    {
        AreaSelectorGUI { theme }
    }
}

} // verus!
