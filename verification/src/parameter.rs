//! Simulation settings and the alpha configurations sent to the simulator.
//!
//! The truncation of a simulation is a binary64 number on the wire; the
//! library carries it as its IEEE-754 bit pattern (`f64::to_bits`) and never
//! computes with it.
use vstd::prelude::*;

verus! {

/// Simulation settings of one alpha.
pub struct Settings {
    pub instrument_type: String,
    pub region: String,
    pub universe: String,
    pub delay: i32,
    pub decay: i32,
    pub neutralization: String,
    /// Bit pattern of the binary64 truncation.
    pub truncation_bits: u64,
    pub pasteurization: String,
    pub language: String,
    pub nan_handling: String,
    pub unit_handling: String,
    pub max_trade: String,
    pub visualization: bool,
    pub test_period: String,
    pub selection_handling: Option<String>,
    pub selection_limit: Option<i32>,
}

/// The mathematical value of [`Settings`].
pub struct SettingsView {
    pub instrument_type: Seq<char>,
    pub region: Seq<char>,
    pub universe: Seq<char>,
    pub delay: i32,
    pub decay: i32,
    pub neutralization: Seq<char>,
    pub truncation_bits: u64,
    pub pasteurization: Seq<char>,
    pub language: Seq<char>,
    pub nan_handling: Seq<char>,
    pub unit_handling: Seq<char>,
    pub max_trade: Seq<char>,
    pub visualization: bool,
    pub test_period: Seq<char>,
    pub selection_handling: Option<Seq<char>>,
    pub selection_limit: Option<i32>,
}

/// The view of an optional string.
pub open spec fn opt_text(o: Option<String>) -> Option<Seq<char>> {
    match o {
        Some(s) => Some(s@),
        None => None,
    }
}

/// The text of an optional string, empty when absent.
pub open spec fn text_or_empty(o: Option<String>) -> Seq<char> {
    match o {
        Some(s) => s@,
        None => Seq::empty(),
    }
}

impl View for Settings {
    type V = SettingsView;

    open spec fn view(&self) -> SettingsView {
        SettingsView {
            instrument_type: self.instrument_type@,
            region: self.region@,
            universe: self.universe@,
            delay: self.delay,
            decay: self.decay,
            neutralization: self.neutralization@,
            truncation_bits: self.truncation_bits,
            pasteurization: self.pasteurization@,
            language: self.language@,
            nan_handling: self.nan_handling@,
            unit_handling: self.unit_handling@,
            max_trade: self.max_trade@,
            visualization: self.visualization,
            test_period: self.test_period@,
            selection_handling: opt_text(self.selection_handling),
            selection_limit: self.selection_limit,
        }
    }
}

/// Bit pattern of the binary64 number closest to 0.1.
pub const DEFAULT_TRUNCATION_BITS: u64 = 0x3FB9_9999_9999_999A;

/// The settings that [`Settings::default`] gives.
pub open spec fn default_settings() -> SettingsView {
    SettingsView {
        instrument_type: "EQUITY"@,
        region: "USA"@,
        universe: "TOP3000"@,
        delay: 1,
        decay: 0,
        neutralization: "SUBINDUSTRY"@,
        truncation_bits: DEFAULT_TRUNCATION_BITS,
        pasteurization: "ON"@,
        language: "FASTEXPR"@,
        nan_handling: "OFF"@,
        unit_handling: "VERIFY"@,
        max_trade: "OFF"@,
        visualization: false,
        test_period: "P0Y0M0D"@,
        selection_handling: None,
        selection_limit: None,
    }
}

impl Default for Settings {
    /// EQUITY in USA TOP3000, delay 1, decay 0, SUBINDUSTRY neutralization,
    /// truncation 0.1, pasteurization ON, test period P0Y0M0D, VERIFY unit
    /// handling, NaN handling and max trade OFF, FASTEXPR, no visualization,
    /// no selection settings.
    fn default() -> (s: Self)
        ensures
            s@ == default_settings(),
    {
        Settings {
            instrument_type: String::from_str("EQUITY"),
            region: String::from_str("USA"),
            universe: String::from_str("TOP3000"),
            delay: 1,
            decay: 0,
            neutralization: String::from_str("SUBINDUSTRY"),
            truncation_bits: DEFAULT_TRUNCATION_BITS,
            pasteurization: String::from_str("ON"),
            language: String::from_str("FASTEXPR"),
            nan_handling: String::from_str("OFF"),
            unit_handling: String::from_str("VERIFY"),
            max_trade: String::from_str("OFF"),
            visualization: false,
            test_period: String::from_str("P0Y0M0D"),
            selection_handling: None,
            selection_limit: None,
        }
    }
}

fn clone_opt_string(o: &Option<String>) -> (r: Option<String>)
    ensures
        opt_text(r) == opt_text(*o),
{
    match o {
        Some(s) => Some(s.clone()),
        None => None,
    }
}

impl Clone for Settings {
    fn clone(&self) -> (r: Self)
        ensures
            r@ == self@,
    {
        Settings {
            instrument_type: self.instrument_type.clone(),
            region: self.region.clone(),
            universe: self.universe.clone(),
            delay: self.delay,
            decay: self.decay,
            neutralization: self.neutralization.clone(),
            truncation_bits: self.truncation_bits,
            pasteurization: self.pasteurization.clone(),
            language: self.language.clone(),
            nan_handling: self.nan_handling.clone(),
            unit_handling: self.unit_handling.clone(),
            max_trade: self.max_trade.clone(),
            visualization: self.visualization,
            test_period: self.test_period.clone(),
            selection_handling: clone_opt_string(&self.selection_handling),
            selection_limit: self.selection_limit,
        }
    }
}

/// One alpha to simulate: a regular alpha (a FASTEXPR expression) or a super
/// alpha (a combination and a selection).
pub enum AlphaConfig {
    Regular { settings: Settings, regular: String },
    Super { settings: Settings, combo: String, selection: String },
}

/// The mathematical value of [`AlphaConfig`].
pub enum AlphaConfigView {
    Regular { settings: SettingsView, regular: Seq<char> },
    Super { settings: SettingsView, combo: Seq<char>, selection: Seq<char> },
}

impl View for AlphaConfig {
    type V = AlphaConfigView;

    open spec fn view(&self) -> AlphaConfigView {
        match self {
            AlphaConfig::Regular { settings, regular } => AlphaConfigView::Regular {
                settings: settings@,
                regular: regular@,
            },
            AlphaConfig::Super { settings, combo, selection } => AlphaConfigView::Super {
                settings: settings@,
                combo: combo@,
                selection: selection@,
            },
        }
    }
}

impl AlphaConfigView {
    /// The settings of either kind of alpha.
    pub open spec fn settings(self) -> SettingsView {
        match self {
            AlphaConfigView::Regular { settings, .. } => settings,
            AlphaConfigView::Super { settings, .. } => settings,
        }
    }
}

impl Clone for AlphaConfig {
    fn clone(&self) -> (r: Self)
        ensures
            r@ == self@,
    {
        match self {
            AlphaConfig::Regular { settings, regular } => AlphaConfig::Regular {
                settings: settings.clone(),
                regular: regular.clone(),
            },
            AlphaConfig::Super { settings, combo, selection } => AlphaConfig::Super {
                settings: settings.clone(),
                combo: combo.clone(),
                selection: selection.clone(),
            },
        }
    }
}

} // verus!
