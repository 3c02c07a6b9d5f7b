//! Records the API answers with that the library computes on.
//!
//! Binary64 numbers of the API (coverages, multipliers) are carried as their
//! IEEE-754 bit patterns (`f64::to_bits`).
use vstd::prelude::*;

verus! {

/// An identifier with its display name.
pub struct IdNamePair {
    pub id: String,
    pub name: String,
}

/// One data field of the platform.
pub struct DataField {
    pub id: String,
    pub description: String,
    pub alpha_count: i32,
    pub user_count: i32,
    pub delay: i32,
    pub region: String,
    pub universe: String,
    pub coverage_bits: u64,
    pub date_coverage_bits: u64,
    pub pyramid_multiplier_bits: u64,
    pub dataset: IdNamePair,
    pub category: IdNamePair,
    pub subcategory: IdNamePair,
    pub themes: Vec<String>,
    /// The field's type, such as MATRIX or VECTOR.
    pub field_type: String,
}

/// A finished simulation: the alpha it created and the expression simulated.
pub struct SimulationResult {
    pub alpha_id: String,
    pub regular: String,
}

/// The mathematical value of [`SimulationResult`].
pub struct SimulationResultView {
    pub alpha_id: Seq<char>,
    pub regular: Seq<char>,
}

impl View for SimulationResult {
    type V = SimulationResultView;

    open spec fn view(&self) -> SimulationResultView {
        SimulationResultView { alpha_id: self.alpha_id@, regular: self.regular@ }
    }
}

impl Clone for SimulationResult {
    fn clone(&self) -> (r: Self)
        ensures
            r@ == self@,
    {
        SimulationResult { alpha_id: self.alpha_id.clone(), regular: self.regular.clone() }
    }
}

/// The views of a sequence of results.
pub open spec fn results_view(s: Seq<SimulationResult>) -> Seq<SimulationResultView> {
    s.map_values(|r: SimulationResult| r@)
}

/// One page of a listing of the API: how many items there are in all, and
/// those on this page.
pub struct ResultsResponse<T> {
    pub count: usize,
    pub results: Vec<T>,
}

/// The account an authentication answer is for.
pub struct UserInfo {
    pub id: String,
}

/// A research paper cited by a data set.
pub struct ResearchPaper {
    pub title: String,
    pub url: String,
    pub paper_type: String,
}

/// An operator of the expression language.
pub struct Operator {
    pub category: String,
    pub definition: String,
    pub description: String,
    pub documentation: Option<String>,
    pub level: Option<String>,
    pub name: String,
    pub scope: Vec<String>,
}

} // verus!
