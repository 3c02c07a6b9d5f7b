//! Requests of the BRAIN platform client: endpoint addresses, query
//! parameters, alpha generation and the callback holder.
use crate::parameter::{opt_text, text_or_empty, AlphaConfig, AlphaConfigView, Settings, SettingsView};
use crate::text::{bool_string, bool_text, i32_string, int_text, str_eq};
use vstd::prelude::*;

verus! {

/// Base address of the BRAIN REST API.
pub const BRAIN_API_URL: &'static str = "https://api.worldquantbrain.com";

/// Address of an endpoint of the API.
pub open spec fn endpoint(path: Seq<char>) -> Seq<char> {
    BRAIN_API_URL@ + path
}

fn endpoint_url(path: &str) -> (r: String)
    ensures
        r@ == endpoint(path@),
{
    let mut url = String::from_str(BRAIN_API_URL);
    url.append(path);
    url
}

/// Where credentials are posted to open a session.
pub fn authentication_url() -> (r: String)
    ensures
        r@ == endpoint("/authentication"@),
{
    endpoint_url("/authentication")
}

/// Where data sets are listed.
pub fn datasets_url() -> (r: String)
    ensures
        r@ == endpoint("/data-sets"@),
{
    endpoint_url("/data-sets")
}

/// Where data fields are listed.
pub fn datafields_url() -> (r: String)
    ensures
        r@ == endpoint("/data-fields"@),
{
    endpoint_url("/data-fields")
}

/// Where operators are listed.
pub fn operators_url() -> (r: String)
    ensures
        r@ == endpoint("/operators"@),
{
    endpoint_url("/operators")
}

/// Where simulations are started.
pub fn simulations_url() -> (r: String)
    ensures
        r@ == endpoint("/simulations"@),
{
    endpoint_url("/simulations")
}

/// Where the progress of the simulation `sim_id` is read.
pub fn simulation_url(sim_id: &str) -> (r: String)
    ensures
        r@ == endpoint("/simulations/"@) + sim_id@,
{
    let mut url = endpoint_url("/simulations/");
    url.append(sim_id);
    url
}

/// Query parameters shared by the data-set and data-field listings.
pub open spec fn universe_query(
    instrument_type: Seq<char>,
    region: Seq<char>,
    delay: i32,
    universe: Seq<char>,
) -> Seq<(Seq<char>, Seq<char>)> {
    seq![
        ("instrumentType"@, instrument_type),
        ("region"@, region),
        ("delay"@, int_text(delay as int)),
        ("universe"@, universe),
    ]
}

/// Query of the data-set listing: the universe, then the theme when one is given.
pub open spec fn datasets_query_spec(
    instrument_type: Seq<char>,
    region: Seq<char>,
    delay: i32,
    universe: Seq<char>,
    theme: Option<bool>,
) -> Seq<(Seq<char>, Seq<char>)> {
    universe_query(instrument_type, region, delay, universe) + match theme {
        Some(t) => seq![("theme"@, bool_text(t))],
        None => Seq::empty(),
    }
}

/// Query of the data-field listing: the universe, then, for a search, the
/// search text with a limit of 50 from offset 0.
pub open spec fn datafields_query_spec(
    instrument_type: Seq<char>,
    region: Seq<char>,
    delay: i32,
    universe: Seq<char>,
    search: Option<Seq<char>>,
) -> Seq<(Seq<char>, Seq<char>)> {
    universe_query(instrument_type, region, delay, universe) + match search {
        Some(s) => seq![("search"@, s), ("limit"@, "50"@), ("offset"@, "0"@)],
        None => Seq::empty(),
    }
}

/// Both listings start with the universe of their own arguments, in the
/// order instrument type, region, delay (in decimal), universe; the data-set
/// listing adds the theme when one is given, the data-field listing the
/// search with a limit of 50 from offset 0 when one is given, and nothing
/// else.
pub proof fn lemma_listing_queries(
    instrument_type: Seq<char>,
    region: Seq<char>,
    delay: i32,
    universe: Seq<char>,
    theme: Option<bool>,
    search: Option<Seq<char>>,
)
    ensures
        ({
            let q = datafields_query_spec(instrument_type, region, delay, universe, search);
            &&& q.len() == if search is Some { 7int } else { 4int }
            &&& q[0] == ("instrumentType"@, instrument_type)
            &&& q[1] == ("region"@, region)
            &&& q[2] == ("delay"@, int_text(delay as int))
            &&& q[3] == ("universe"@, universe)
            &&& search matches Some(t) ==> {
                &&& q[4] == ("search"@, t)
                &&& q[5] == ("limit"@, "50"@)
                &&& q[6] == ("offset"@, "0"@)
            }
        }),
        ({
            let q = datasets_query_spec(instrument_type, region, delay, universe, theme);
            &&& q.len() == if theme is Some { 5int } else { 4int }
            &&& q[0] == ("instrumentType"@, instrument_type)
            &&& q[1] == ("region"@, region)
            &&& q[2] == ("delay"@, int_text(delay as int))
            &&& q[3] == ("universe"@, universe)
            &&& theme matches Some(t) ==> q[4] == ("theme"@, bool_text(t))
        }),
{
}

fn param(key: &str, value: String) -> (r: (String, String))
    ensures
        r.0@ == key@,
        r.1@ == value@,
{
    (String::from_str(key), value)
}

fn universe_params(instrument_type: &str, region: &str, delay: i32, universe: &str) -> (r: Vec<
    (String, String),
>)
    ensures
        r.deep_view() == universe_query(instrument_type@, region@, delay, universe@),
{
    let mut params: Vec<(String, String)> = Vec::new();
    params.push(param("instrumentType", instrument_type.to_owned()));
    params.push(param("region", region.to_owned()));
    params.push(param("delay", i32_string(delay)));
    params.push(param("universe", universe.to_owned()));
    assert(params.deep_view() =~= universe_query(instrument_type@, region@, delay, universe@));
    params
}

/// Query parameters of the data-set listing.
pub fn datasets_query(
    instrument_type: &str,
    region: &str,
    delay: i32,
    universe: &str,
    theme: Option<bool>,
) -> (r: Vec<(String, String)>)
    ensures
        r.deep_view() == datasets_query_spec(instrument_type@, region@, delay, universe@, theme),
{
    let mut params = universe_params(instrument_type, region, delay, universe);
    if let Some(t) = theme {
        params.push(param("theme", bool_string(t)));
    }
    assert(params.deep_view() =~= datasets_query_spec(
        instrument_type@,
        region@,
        delay,
        universe@,
        theme,
    ));
    params
}

/// Query parameters of the data-field listing.
pub fn datafields_query(
    instrument_type: &str,
    region: &str,
    delay: i32,
    universe: &str,
    search: Option<String>,
) -> (r: Vec<(String, String)>)
    ensures
        r.deep_view() == datafields_query_spec(
            instrument_type@,
            region@,
            delay,
            universe@,
            opt_text(search),
        ),
{
    let ghost search_text = opt_text(search);
    let mut params = universe_params(instrument_type, region, delay, universe);
    if let Some(s) = search {
        params.push(param("search", s));
        params.push(param("limit", String::from_str("50")));
        params.push(param("offset", String::from_str("0")));
    }
    assert(params.deep_view() =~= datafields_query_spec(
        instrument_type@,
        region@,
        delay,
        universe@,
        search_text,
    ));
    params
}

/// Settings of an alpha made by [`generate_alpha`]: EQUITY and FASTEXPR,
/// the given values, no selection settings.
pub open spec fn generated_settings(
    region: Seq<char>,
    universe: Seq<char>,
    delay: i32,
    decay: i32,
    neutralization: Seq<char>,
    truncation_bits: u64,
    pasteurization: Seq<char>,
    test_period: Seq<char>,
    unit_handling: Seq<char>,
    nan_handling: Seq<char>,
    max_trade: Seq<char>,
    visualization: bool,
) -> SettingsView {
    SettingsView {
        instrument_type: "EQUITY"@,
        region,
        universe,
        delay,
        decay,
        neutralization,
        truncation_bits,
        pasteurization,
        language: "FASTEXPR"@,
        nan_handling,
        unit_handling,
        max_trade,
        visualization,
        test_period,
        selection_handling: None,
        selection_limit: None,
    }
}

fn string_or_empty(o: Option<String>) -> (r: String)
    ensures
        r@ == text_or_empty(o),
{
    match o {
        Some(s) => s,
        None => String::new(),
    }
}

/// Builds the configuration of one alpha.
///
/// `alpha_type` "REGULAR" gives a regular alpha of the expression `regular`;
/// "SUPER" gives a super alpha of `combo` and `selection` whose settings also
/// carry the selection handling and limit; any other type gives `None`.
/// Absent expressions are empty.
pub fn generate_alpha(
    regular: Option<String>,
    selection: Option<String>,
    combo: Option<String>,
    alpha_type: &str,
    region: &str,
    universe: &str,
    delay: i32,
    decay: i32,
    neutralization: &str,
    truncation_bits: u64,
    pasteurization: &str,
    test_period: &str,
    unit_handling: &str,
    nan_handling: &str,
    max_trade: &str,
    selection_handling: &str,
    selection_limit: i32,
    visualization: bool,
) -> (r: Option<AlphaConfig>)
    ensures
        ({
            let base = generated_settings(
                region@,
                universe@,
                delay,
                decay,
                neutralization@,
                truncation_bits,
                pasteurization@,
                test_period@,
                unit_handling@,
                nan_handling@,
                max_trade@,
                visualization,
            );
            if alpha_type@ == "REGULAR"@ {
                r matches Some(c) && c@ == (AlphaConfigView::Regular {
                    settings: base,
                    regular: text_or_empty(regular),
                })
            } else if alpha_type@ == "SUPER"@ {
                r matches Some(c) && c@ == (AlphaConfigView::Super {
                    settings: SettingsView {
                        selection_handling: Some(selection_handling@),
                        selection_limit: Some(selection_limit),
                        ..base
                    },
                    combo: text_or_empty(combo),
                    selection: text_or_empty(selection),
                })
            } else {
                r is None
            }
        }),
{
    let mut settings = Settings {
        instrument_type: String::from_str("EQUITY"),
        region: region.to_owned(),
        universe: universe.to_owned(),
        delay,
        decay,
        neutralization: neutralization.to_owned(),
        truncation_bits,
        pasteurization: pasteurization.to_owned(),
        language: String::from_str("FASTEXPR"),
        nan_handling: nan_handling.to_owned(),
        unit_handling: unit_handling.to_owned(),
        max_trade: max_trade.to_owned(),
        visualization,
        test_period: test_period.to_owned(),
        selection_handling: None,
        selection_limit: None,
    };
    if str_eq(alpha_type, "REGULAR") {
        Some(AlphaConfig::Regular { settings, regular: string_or_empty(regular) })
    } else if str_eq(alpha_type, "SUPER") {
        settings.selection_handling = Some(selection_handling.to_owned());
        settings.selection_limit = Some(selection_limit);
        Some(
            AlphaConfig::Super {
                settings,
                combo: string_or_empty(combo),
                selection: string_or_empty(selection),
            },
        )
    } else {
        None
    }
}

/// The simulation client. It holds the callback that is run on every
/// result of a multi-simulation, in the order the results are collected.
pub struct BrainApi<C> {
    callback: C,
}

impl<C> BrainApi<C> {
    /// The callback this client runs on every collected result.
    pub closed spec fn handler(&self) -> C {
        self.callback
    }

    /// A client that runs `callback` on every collected result.
    pub fn new(callback: C) -> (r: Self)
        ensures
            r.handler() == callback,
    {
        BrainApi { callback }
    }

    /// The callback given to [`BrainApi::new`].
    pub fn callback(&self) -> (r: &C)
        ensures
            *r == self.handler(),
    {
        &self.callback
    }
}

} // verus!
