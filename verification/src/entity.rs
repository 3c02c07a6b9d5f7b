//! The database record of a simulated alpha, and how an alpha configuration
//! becomes one.
use crate::parameter::{AlphaConfig, AlphaConfigView, SettingsView};
use crate::response::SimulationResult;
use jiff::civil::DateTime;
use vstd::prelude::*;

verus! {

/// A civil date and time of `jiff`, carried through unchanged.
#[verifier::external_type_specification]
#[verifier::external_body]
pub struct ExCivilDateTime(jiff::civil::DateTime);

/// A simulated alpha as the database records it. The truncation is the bit
/// pattern of its binary64 value.
pub struct AlphaEntity {
    pub id: String,
    pub crete_time: DateTime,
    pub regular: String,
    pub instrument_type: String,
    pub region: String,
    pub universe: String,
    pub delay: i32,
    pub decay: i32,
    pub neutralization: String,
    pub truncation_bits: u64,
    pub pasteurization: String,
    pub test_period: String,
    pub unit_handling: String,
    pub nan_handling: String,
    pub max_trade: String,
    pub language: String,
    pub visualization: bool,
    pub selection_handling: String,
    pub selection_limit: i32,
    pub combo: String,
    pub selection: String,
    pub dataset: String,
}

/// The mathematical value of [`AlphaEntity`].
pub struct AlphaEntityView {
    pub id: Seq<char>,
    pub crete_time: DateTime,
    pub regular: Seq<char>,
    pub instrument_type: Seq<char>,
    pub region: Seq<char>,
    pub universe: Seq<char>,
    pub delay: i32,
    pub decay: i32,
    pub neutralization: Seq<char>,
    pub truncation_bits: u64,
    pub pasteurization: Seq<char>,
    pub test_period: Seq<char>,
    pub unit_handling: Seq<char>,
    pub nan_handling: Seq<char>,
    pub max_trade: Seq<char>,
    pub language: Seq<char>,
    pub visualization: bool,
    pub selection_handling: Seq<char>,
    pub selection_limit: i32,
    pub combo: Seq<char>,
    pub selection: Seq<char>,
    pub dataset: Seq<char>,
}

impl View for AlphaEntity {
    type V = AlphaEntityView;

    open spec fn view(&self) -> AlphaEntityView {
        AlphaEntityView {
            id: self.id@,
            crete_time: self.crete_time,
            regular: self.regular@,
            instrument_type: self.instrument_type@,
            region: self.region@,
            universe: self.universe@,
            delay: self.delay,
            decay: self.decay,
            neutralization: self.neutralization@,
            truncation_bits: self.truncation_bits,
            pasteurization: self.pasteurization@,
            test_period: self.test_period@,
            unit_handling: self.unit_handling@,
            nan_handling: self.nan_handling@,
            max_trade: self.max_trade@,
            language: self.language@,
            visualization: self.visualization,
            selection_handling: self.selection_handling@,
            selection_limit: self.selection_limit,
            combo: self.combo@,
            selection: self.selection@,
            dataset: self.dataset@,
        }
    }
}

/// The record of an alpha configuration: its settings, its expression
/// (regular, or combination and selection, the others empty), the
/// selection handling and limit of its settings (empty and 0 when unset),
/// and the given id, data set and creation time.
pub open spec fn entity_of(
    config: AlphaConfigView,
    id: Seq<char>,
    dataset: Seq<char>,
    crete_time: DateTime,
) -> AlphaEntityView {
    let s: SettingsView = config.settings();
    AlphaEntityView {
        id,
        crete_time,
        regular: match config {
            AlphaConfigView::Regular { regular, .. } => regular,
            AlphaConfigView::Super { .. } => Seq::empty(),
        },
        instrument_type: s.instrument_type,
        region: s.region,
        universe: s.universe,
        delay: s.delay,
        decay: s.decay,
        neutralization: s.neutralization,
        truncation_bits: s.truncation_bits,
        pasteurization: s.pasteurization,
        test_period: s.test_period,
        unit_handling: s.unit_handling,
        nan_handling: s.nan_handling,
        max_trade: s.max_trade,
        language: s.language,
        visualization: s.visualization,
        selection_handling: match s.selection_handling {
            Some(h) => h,
            None => Seq::empty(),
        },
        selection_limit: match s.selection_limit {
            Some(l) => l,
            None => 0,
        },
        combo: match config {
            AlphaConfigView::Super { combo, .. } => combo,
            AlphaConfigView::Regular { .. } => Seq::empty(),
        },
        selection: match config {
            AlphaConfigView::Super { selection, .. } => selection,
            AlphaConfigView::Regular { .. } => Seq::empty(),
        },
        dataset,
    }
}

/// A record keeps its configuration: every simulation setting of the
/// record is the same setting of the configuration (an unset selection
/// handling is empty, an unset selection limit 0); a regular alpha keeps
/// its expression with an empty combination and selection, a super alpha
/// its combination and selection with an empty expression; and the id,
/// data set and creation time are the ones given.
pub proof fn lemma_entity_keeps_the_configuration(
    config: AlphaConfigView,
    id: Seq<char>,
    dataset: Seq<char>,
    crete_time: DateTime,
)
    ensures
        ({
            let e = entity_of(config, id, dataset, crete_time);
            let s = match config {
                AlphaConfigView::Regular { settings, .. } => settings,
                AlphaConfigView::Super { settings, .. } => settings,
            };
            &&& e.instrument_type == s.instrument_type
            &&& e.region == s.region
            &&& e.universe == s.universe
            &&& e.delay == s.delay
            &&& e.decay == s.decay
            &&& e.neutralization == s.neutralization
            &&& e.truncation_bits == s.truncation_bits
            &&& e.pasteurization == s.pasteurization
            &&& e.test_period == s.test_period
            &&& e.unit_handling == s.unit_handling
            &&& e.nan_handling == s.nan_handling
            &&& e.max_trade == s.max_trade
            &&& e.language == s.language
            &&& e.visualization == s.visualization
            &&& (s.selection_handling matches Some(h) ==> e.selection_handling == h)
            &&& (s.selection_handling is None ==> e.selection_handling == Seq::<char>::empty())
            &&& (s.selection_limit matches Some(l) ==> e.selection_limit == l)
            &&& (s.selection_limit is None ==> e.selection_limit == 0)
            &&& (config matches AlphaConfigView::Regular { regular, .. } ==> e.regular == regular
                && e.combo == Seq::<char>::empty() && e.selection == Seq::<char>::empty())
            &&& (config matches AlphaConfigView::Super { combo, selection, .. } ==> e.regular
                == Seq::<char>::empty() && e.combo == combo && e.selection == selection)
            &&& e.id == id
            &&& e.dataset == dataset
            &&& e.crete_time == crete_time
        }),
{
}

fn clone_or_empty(o: &Option<String>) -> (r: String)
    ensures
        r@ == match *o {
            Some(s) => s@,
            None => Seq::empty(),
        },
{
    match o {
        Some(s) => s.clone(),
        None => String::new(),
    }
}

fn text_of(o: Option<String>) -> (r: String)
    ensures
        r@ == match o {
            Some(s) => s@,
            None => Seq::<char>::empty(),
        },
{
    match o {
        Some(s) => s,
        None => String::new(),
    }
}

/// The record of `alpha_config`, with the given id and data set (empty
/// when absent) created at `crete_time`.
pub fn alpha_config_to_entity(
    alpha_config: &AlphaConfig,
    alpha_id: Option<String>,
    dataset: Option<String>,
    crete_time: DateTime,
) -> (r: AlphaEntity)
    ensures
        r@ == entity_of(
            alpha_config@,
            match alpha_id {
                Some(s) => s@,
                None => Seq::empty(),
            },
            match dataset {
                Some(s) => s@,
                None => Seq::empty(),
            },
            crete_time,
        ),
{
    let (settings, regular, combo, selection) = match alpha_config {
        AlphaConfig::Regular { settings, regular } => (
            settings,
            regular.clone(),
            String::new(),
            String::new(),
        ),
        AlphaConfig::Super { settings, combo, selection } => (
            settings,
            String::new(),
            combo.clone(),
            selection.clone(),
        ),
    };
    let selection_limit = match settings.selection_limit {
        Some(l) => l,
        None => 0,
    };
    let r = AlphaEntity {
        id: text_of(alpha_id),
        crete_time,
        regular,
        instrument_type: settings.instrument_type.clone(),
        region: settings.region.clone(),
        universe: settings.universe.clone(),
        delay: settings.delay,
        decay: settings.decay,
        neutralization: settings.neutralization.clone(),
        truncation_bits: settings.truncation_bits,
        pasteurization: settings.pasteurization.clone(),
        test_period: settings.test_period.clone(),
        unit_handling: settings.unit_handling.clone(),
        nan_handling: settings.nan_handling.clone(),
        max_trade: settings.max_trade.clone(),
        language: settings.language.clone(),
        visualization: settings.visualization,
        selection_handling: clone_or_empty(&settings.selection_handling),
        selection_limit,
        combo,
        selection,
        dataset: text_of(dataset),
    };
    assert(r@ == entity_of(
        alpha_config@,
        match alpha_id {
            Some(s) => s@,
            None => Seq::empty(),
        },
        match dataset {
            Some(s) => s@,
            None => Seq::empty(),
        },
        crete_time,
    ));
    r
}

/// The record of a finished simulation: a regular alpha of `settings` with
/// the simulated expression, the alpha id the platform gave, and the data
/// set it was made for, created at `crete_time`.
pub fn result_entity(
    settings: &crate::parameter::Settings,
    result: &SimulationResult,
    dataset: &str,
    crete_time: DateTime,
) -> (r: AlphaEntity)
    ensures
        r@ == entity_of(
            AlphaConfigView::Regular { settings: settings@, regular: result.regular@ },
            result.alpha_id@,
            dataset@,
            crete_time,
        ),
{
    let config = AlphaConfig::Regular { settings: settings.clone(), regular: result.regular.clone() };
    alpha_config_to_entity(
        &config,
        Some(result.alpha_id.clone()),
        Some(dataset.to_owned()),
        crete_time,
    )
}

/// The fields by which the database tells whether an alpha was already
/// simulated.
pub struct AlphaKey {
    pub regular: String,
    pub instrument_type: String,
    pub region: String,
    pub universe: String,
    pub delay: i32,
    pub decay: i32,
    pub neutralization: String,
    pub truncation_bits: u64,
    pub pasteurization: String,
    pub unit_handling: String,
    pub nan_handling: String,
    pub max_trade: String,
    pub language: String,
    pub test_period: String,
    pub visualization: bool,
}

/// The mathematical value of [`AlphaKey`].
pub struct AlphaKeyView {
    pub regular: Seq<char>,
    pub instrument_type: Seq<char>,
    pub region: Seq<char>,
    pub universe: Seq<char>,
    pub delay: i32,
    pub decay: i32,
    pub neutralization: Seq<char>,
    pub truncation_bits: u64,
    pub pasteurization: Seq<char>,
    pub unit_handling: Seq<char>,
    pub nan_handling: Seq<char>,
    pub max_trade: Seq<char>,
    pub language: Seq<char>,
    pub test_period: Seq<char>,
    pub visualization: bool,
}

impl View for AlphaKey {
    type V = AlphaKeyView;

    open spec fn view(&self) -> AlphaKeyView {
        AlphaKeyView {
            regular: self.regular@,
            instrument_type: self.instrument_type@,
            region: self.region@,
            universe: self.universe@,
            delay: self.delay,
            decay: self.decay,
            neutralization: self.neutralization@,
            truncation_bits: self.truncation_bits,
            pasteurization: self.pasteurization@,
            unit_handling: self.unit_handling@,
            nan_handling: self.nan_handling@,
            max_trade: self.max_trade@,
            language: self.language@,
            test_period: self.test_period@,
            visualization: self.visualization,
        }
    }
}

/// The expression and the simulation settings of a record, without the
/// selection settings, the combination, the id, the data set and the time.
pub open spec fn key_of(e: AlphaEntityView) -> AlphaKeyView {
    AlphaKeyView {
        regular: e.regular,
        instrument_type: e.instrument_type,
        region: e.region,
        universe: e.universe,
        delay: e.delay,
        decay: e.decay,
        neutralization: e.neutralization,
        truncation_bits: e.truncation_bits,
        pasteurization: e.pasteurization,
        unit_handling: e.unit_handling,
        nan_handling: e.nan_handling,
        max_trade: e.max_trade,
        language: e.language,
        test_period: e.test_period,
        visualization: e.visualization,
    }
}

impl AlphaEntity {
    /// The fields of this record that the existence check compares.
    pub fn lookup_key(&self) -> (r: AlphaKey)
        ensures
            r@ == key_of(self@),
    {
        AlphaKey {
            regular: self.regular.clone(),
            instrument_type: self.instrument_type.clone(),
            region: self.region.clone(),
            universe: self.universe.clone(),
            delay: self.delay,
            decay: self.decay,
            neutralization: self.neutralization.clone(),
            truncation_bits: self.truncation_bits,
            pasteurization: self.pasteurization.clone(),
            unit_handling: self.unit_handling.clone(),
            nan_handling: self.nan_handling.clone(),
            max_trade: self.max_trade.clone(),
            language: self.language.clone(),
            test_period: self.test_period.clone(),
            visualization: self.visualization,
        }
    }
}

/// The existence key of an alpha does not depend on the id, data set or
/// time its record is made with: the record checked before a simulation
/// and the one written after it have the same key.
pub proof fn lemma_key_ignores_identity(
    config: AlphaConfigView,
    id1: Seq<char>,
    dataset1: Seq<char>,
    time1: DateTime,
    id2: Seq<char>,
    dataset2: Seq<char>,
    time2: DateTime,
)
    ensures
        key_of(entity_of(config, id1, dataset1, time1)) == key_of(
            entity_of(config, id2, dataset2, time2),
        ),
{
}

} // verus!
