use brain_api::batch::{
    chunk, flatten_results, has_super_alpha, normalized_concurrency, normalized_multi_limit,
    plan_simulations, simulates_alone,
};
use brain_api::brain_api::{
    authentication_url, datafields_query, datafields_url, datasets_query, datasets_url,
    generate_alpha, operators_url, simulation_url, simulations_url, BrainApi, BRAIN_API_URL,
};
use brain_api::parameter::{AlphaConfig, Settings};
use brain_api::response::SimulationResult;
use brain_api::text::{bool_string, i32_string, str_eq, u64_string};

fn pairs(v: &[(&str, &str)]) -> Vec<(String, String)> {
    v.iter().map(|(k, x)| (k.to_string(), x.to_string())).collect()
}

fn regular(expr: &str) -> AlphaConfig {
    AlphaConfig::Regular { settings: Settings::default(), regular: expr.to_string() }
}

fn expr_of(a: &AlphaConfig) -> String {
    match a {
        AlphaConfig::Regular { regular, .. } => regular.clone(),
        AlphaConfig::Super { combo, .. } => combo.clone(),
    }
}

#[test]
fn renders_integers_like_to_string() {
    for n in [0i32, 7, 10, 12345, -1, -90, i32::MAX, i32::MIN] {
        assert_eq!(i32_string(n), n.to_string());
    }
    for n in [0u64, 9, 100, 65535, u64::MAX] {
        assert_eq!(u64_string(n), n.to_string());
    }
    assert_eq!(bool_string(true), "true");
    assert_eq!(bool_string(false), "false");
    assert!(str_eq("SUPER", "SUPER"));
    assert!(!str_eq("SUPER", "SUPE"));
}

#[test]
fn endpoint_addresses() {
    assert_eq!(BRAIN_API_URL, "https://api.worldquantbrain.com");
    assert_eq!(authentication_url(), "https://api.worldquantbrain.com/authentication");
    assert_eq!(datasets_url(), "https://api.worldquantbrain.com/data-sets");
    assert_eq!(datafields_url(), "https://api.worldquantbrain.com/data-fields");
    assert_eq!(operators_url(), "https://api.worldquantbrain.com/operators");
    assert_eq!(simulations_url(), "https://api.worldquantbrain.com/simulations");
    assert_eq!(simulation_url("abc123"), "https://api.worldquantbrain.com/simulations/abc123");
}

#[test]
fn datasets_query_with_and_without_theme() {
    let q = datasets_query("EQUITY", "USA", 1, "TOP3000", None);
    assert_eq!(
        q,
        pairs(&[("instrumentType", "EQUITY"), ("region", "USA"), ("delay", "1"), ("universe", "TOP3000")])
    );
    let q = datasets_query("EQUITY", "CHN", -3, "TOP2000U", Some(false));
    assert_eq!(
        q,
        pairs(&[
            ("instrumentType", "EQUITY"),
            ("region", "CHN"),
            ("delay", "-3"),
            ("universe", "TOP2000U"),
            ("theme", "false"),
        ])
    );
}

#[test]
fn datafields_query_with_search_adds_paging() {
    let q = datafields_query("EQUITY", "USA", 0, "TOP3000", Some("Earnings forecasts".to_string()));
    assert_eq!(
        q,
        pairs(&[
            ("instrumentType", "EQUITY"),
            ("region", "USA"),
            ("delay", "0"),
            ("universe", "TOP3000"),
            ("search", "Earnings forecasts"),
            ("limit", "50"),
            ("offset", "0"),
        ])
    );
    let q = datafields_query("EQUITY", "USA", 1, "TOP3000", None);
    assert_eq!(q.len(), 4);
}

#[allow(clippy::too_many_arguments)]
fn gen(kind: &str, regular: Option<&str>, combo: Option<&str>, selection: Option<&str>) -> Option<AlphaConfig> {
    generate_alpha(
        regular.map(|s| s.to_string()),
        selection.map(|s| s.to_string()),
        combo.map(|s| s.to_string()),
        kind,
        "USA",
        "TOP3000",
        1,
        4,
        "INDUSTRY",
        0.08f64.to_bits(),
        "ON",
        "P1Y0M0D",
        "VERIFY",
        "ON",
        "OFF",
        "POSITIVE",
        100,
        true,
    )
}

#[test]
fn generate_regular_alpha() {
    match gen("REGULAR", Some("rank(close)"), Some("ignored"), None) {
        Some(AlphaConfig::Regular { settings, regular }) => {
            assert_eq!(regular, "rank(close)");
            assert_eq!(settings.instrument_type, "EQUITY");
            assert_eq!(settings.language, "FASTEXPR");
            assert_eq!(settings.region, "USA");
            assert_eq!(settings.universe, "TOP3000");
            assert_eq!(settings.delay, 1);
            assert_eq!(settings.decay, 4);
            assert_eq!(settings.neutralization, "INDUSTRY");
            assert_eq!(f64::from_bits(settings.truncation_bits), 0.08);
            assert_eq!(settings.pasteurization, "ON");
            assert_eq!(settings.test_period, "P1Y0M0D");
            assert_eq!(settings.unit_handling, "VERIFY");
            assert_eq!(settings.nan_handling, "ON");
            assert_eq!(settings.max_trade, "OFF");
            assert!(settings.visualization);
            assert_eq!(settings.selection_handling, None);
            assert_eq!(settings.selection_limit, None);
        }
        _ => panic!("expected a regular alpha"),
    }
    match gen("REGULAR", None, None, None) {
        Some(AlphaConfig::Regular { regular, .. }) => assert_eq!(regular, ""),
        _ => panic!("expected a regular alpha"),
    }
}

#[test]
fn generate_super_alpha() {
    match gen("SUPER", Some("ignored"), Some("combo_a"), Some("sel_b")) {
        Some(AlphaConfig::Super { settings, combo, selection }) => {
            assert_eq!(combo, "combo_a");
            assert_eq!(selection, "sel_b");
            assert_eq!(settings.selection_handling.as_deref(), Some("POSITIVE"));
            assert_eq!(settings.selection_limit, Some(100));
        }
        _ => panic!("expected a super alpha"),
    }
    match gen("SUPER", None, None, None) {
        Some(AlphaConfig::Super { combo, selection, .. }) => {
            assert_eq!(combo, "");
            assert_eq!(selection, "");
        }
        _ => panic!("expected a super alpha"),
    }
}

#[test]
fn generate_unknown_type_gives_none() {
    assert!(gen("regular", Some("x"), None, None).is_none());
    assert!(gen("", Some("x"), None, None).is_none());
    assert!(gen("SUPERB", Some("x"), None, None).is_none());
}

#[test]
fn default_settings_values() {
    let s = Settings::default();
    assert_eq!(s.instrument_type, "EQUITY");
    assert_eq!(s.region, "USA");
    assert_eq!(s.universe, "TOP3000");
    assert_eq!(s.delay, 1);
    assert_eq!(s.decay, 0);
    assert_eq!(s.neutralization, "SUBINDUSTRY");
    assert_eq!(s.truncation_bits, 0.1f64.to_bits());
    assert_eq!(s.pasteurization, "ON");
    assert_eq!(s.test_period, "P0Y0M0D");
    assert_eq!(s.unit_handling, "VERIFY");
    assert_eq!(s.nan_handling, "OFF");
    assert_eq!(s.max_trade, "OFF");
    assert_eq!(s.language, "FASTEXPR");
    assert!(!s.visualization);
    assert!(s.selection_handling.is_none());
    assert!(s.selection_limit.is_none());
    let c = s.clone();
    assert_eq!(c.neutralization, s.neutralization);
}

#[test]
fn brain_api_keeps_its_callback() {
    let api = BrainApi::new(|r: &SimulationResult| r.alpha_id.len());
    let res = SimulationResult { alpha_id: "abcd".to_string(), regular: "x".to_string() };
    assert_eq!((api.callback())(&res), 4);
}

#[test]
fn limits_are_normalized() {
    assert_eq!(normalized_multi_limit(0), 10);
    assert_eq!(normalized_multi_limit(1), 10);
    assert_eq!(normalized_multi_limit(2), 2);
    assert_eq!(normalized_multi_limit(3), 3);
    assert_eq!(normalized_multi_limit(10), 10);
    assert_eq!(normalized_multi_limit(11), 10);
    assert_eq!(normalized_concurrency(0), 3);
    assert_eq!(normalized_concurrency(1), 1);
    assert_eq!(normalized_concurrency(8), 8);
    assert_eq!(normalized_concurrency(9), 3);
}

#[test]
fn chunking_keeps_order_and_sizes() {
    let chunks = chunk((1..=7).collect::<Vec<u32>>(), 3);
    assert_eq!(chunks, vec![vec![1, 2, 3], vec![4, 5, 6], vec![7]]);
    let chunks = chunk((1..=6).collect::<Vec<u32>>(), 3);
    assert_eq!(chunks, vec![vec![1, 2, 3], vec![4, 5, 6]]);
    let chunks = chunk(Vec::<u32>::new(), 3);
    assert!(chunks.is_empty());
    let chunks = chunk(vec![5u32], 10);
    assert_eq!(chunks, vec![vec![5]]);
}

#[test]
fn results_are_concatenated_in_order() {
    let r = |a: &str| SimulationResult { alpha_id: a.to_string(), regular: format!("e_{a}") };
    let out = flatten_results(vec![vec![r("a"), r("b")], vec![], vec![r("c")]]);
    let ids: Vec<String> = out.iter().map(|x| x.alpha_id.clone()).collect();
    assert_eq!(ids, vec!["a", "b", "c"]);
    assert_eq!(out[2].regular, "e_c");
    assert!(flatten_results(vec![]).is_empty());
}

#[test]
fn plan_splits_alphas_into_batches() {
    let alphas: Vec<AlphaConfig> = (0..5).map(|i| regular(&format!("x{i}"))).collect();
    let plan = plan_simulations(alphas, 3, 3);
    assert_eq!(plan.concurrency, 3);
    let sizes: Vec<usize> = plan.batches.iter().map(|b| b.len()).collect();
    assert_eq!(sizes, vec![3, 2]);
    assert_eq!(expr_of(&plan.batches[1][1]), "x4");
    let alphas: Vec<AlphaConfig> = (0..25).map(|i| regular(&format!("x{i}"))).collect();
    let plan = plan_simulations(alphas, 100, 1);
    assert_eq!(plan.concurrency, 3);
    let sizes: Vec<usize> = plan.batches.iter().map(|b| b.len()).collect();
    assert_eq!(sizes, vec![10, 10, 5]);
    assert!(simulates_alone(&plan.batches[2][..1].iter().map(|a| a.clone()).collect()));
    assert!(!simulates_alone(&plan.batches[2]));
}

#[test]
fn super_alphas_are_detected() {
    let mut alphas = vec![regular("a"), regular("b")];
    assert!(!has_super_alpha(&alphas));
    alphas.push(AlphaConfig::Super {
        settings: Settings::default(),
        combo: "c".to_string(),
        selection: "s".to_string(),
    });
    assert!(has_super_alpha(&alphas));
    assert!(!has_super_alpha(&vec![]));
}
