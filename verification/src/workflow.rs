//! What the application does with listings before simulating: picking the
//! fields of a data set, making alphas of matrix fields, and leaving out
//! alphas that were already simulated.
use crate::parameter::{AlphaConfig, AlphaConfigView, Settings, SettingsView};
use crate::response::DataField;
use crate::text::str_eq;
use vstd::prelude::*;

verus! {

/// The fields of the data set named `name`, in order.
pub open spec fn fields_in_dataset(fields: Seq<DataField>, name: Seq<char>) -> Seq<DataField> {
    fields.filter(|f: DataField| f.dataset.name@ == name)
}

/// Keeps the fields that belong to the data set named `dataset_name`, in order.
pub fn fields_of_dataset(fields: Vec<DataField>, dataset_name: &str) -> (r: Vec<DataField>)
    ensures
        r@ == fields_in_dataset(fields@, dataset_name@),
{
    let ghost all = fields@;
    let ghost pred = |f: DataField| f.dataset.name@ == dataset_name@;
    let mut out: Vec<DataField> = Vec::new();
    let mut rest = fields;
    let ghost mut k: int = 0;
    proof {
        reveal(Seq::filter);
        assert(all.take(0) =~= Seq::<DataField>::empty());
        assert(out@ =~= all.take(0).filter(pred));
    }
    while rest.len() > 0
        invariant
            0 <= k <= all.len(),
            rest@ == all.subrange(k, all.len() as int),
            out@ == all.take(k).filter(pred),
            pred == (|f: DataField| f.dataset.name@ == dataset_name@),
        decreases rest.len(),
    {
        let f = rest.remove(0);
        proof {
            assert(all.take(k + 1) =~= all.take(k).push(f));
            all.take(k).lemma_filter_push(f, pred);
            k = k + 1;
        }
        if str_eq(f.dataset.name.as_str(), dataset_name) {
            out.push(f);
        }
    }
    assert(all.take(k) =~= all);
    out
}

/// A field holds a matrix.
pub open spec fn is_matrix(f: DataField) -> bool {
    f.field_type@ == "MATRIX"@
}

/// The regular alphas, one per matrix field in order, whose expression is
/// the field's id, all with `settings`.
pub open spec fn matrix_alphas_spec(fields: Seq<DataField>, settings: SettingsView) -> Seq<
    AlphaConfigView,
>
    decreases fields.len(),
{
    if fields.len() == 0 {
        Seq::empty()
    } else {
        let rest = matrix_alphas_spec(fields.drop_last(), settings);
        if is_matrix(fields.last()) {
            rest.push(AlphaConfigView::Regular { settings, regular: fields.last().id@ })
        } else {
            rest
        }
    }
}

/// An alpha is made of a field exactly when the field's type is the text
/// `MATRIX`: the alphas are the `MATRIX` fields, in order, each turned into
/// a regular alpha of its id with `settings`; a field of any other type
/// gives none.
pub proof fn lemma_matrix_alphas_are_the_matrix_fields(fields: Seq<DataField>, settings: SettingsView)
    ensures
        matrix_alphas_spec(fields, settings) == fields.filter(
            |f: DataField| f.field_type@ == "MATRIX"@,
        ).map_values(|f: DataField| AlphaConfigView::Regular { settings, regular: f.id@ }),
    decreases fields.len(),
{
    let pred = |f: DataField| f.field_type@ == "MATRIX"@;
    let g = |f: DataField| AlphaConfigView::Regular { settings, regular: f.id@ };
    if fields.len() == 0 {
        reveal(Seq::filter);
        assert(fields.filter(pred).map_values(g) =~= Seq::<AlphaConfigView>::empty());
    } else {
        let init = fields.drop_last();
        lemma_matrix_alphas_are_the_matrix_fields(init, settings);
        assert(fields =~= init.push(fields.last()));
        init.lemma_filter_push(fields.last(), pred);
        if pred(fields.last()) {
            assert(init.filter(pred).push(fields.last()).map_values(g) =~= init.filter(
                pred,
            ).map_values(g).push(g(fields.last())));
        }
    }
}

/// The views of a sequence of alphas.
pub open spec fn alphas_view(s: Seq<AlphaConfig>) -> Seq<AlphaConfigView> {
    s.map_values(|a: AlphaConfig| a@)
}

/// A regular alpha for each matrix field, in order: the field's id with
/// `settings`.
pub fn matrix_alphas(fields: Vec<DataField>, settings: &Settings) -> (r: Vec<AlphaConfig>)
    ensures
        alphas_view(r@) == matrix_alphas_spec(fields@, settings@),
{
    let ghost all = fields@;
    let mut out: Vec<AlphaConfig> = Vec::new();
    let mut rest = fields;
    let ghost mut k: int = 0;
    assert(alphas_view(out@) =~= matrix_alphas_spec(all.take(0), settings@));
    while rest.len() > 0
        invariant
            0 <= k <= all.len(),
            rest@ == all.subrange(k, all.len() as int),
            alphas_view(out@) == matrix_alphas_spec(all.take(k), settings@),
        decreases rest.len(),
    {
        let f = rest.remove(0);
        let ghost before = alphas_view(out@);
        proof {
            assert(all.take(k + 1).drop_last() =~= all.take(k));
            assert(all.take(k + 1).last() == f);
            k = k + 1;
        }
        if str_eq(f.field_type.as_str(), "MATRIX") {
            out.push(AlphaConfig::Regular { settings: settings.clone(), regular: f.id });
            assert(alphas_view(out@) =~= before.push(
                AlphaConfigView::Regular { settings: settings@, regular: f.id@ },
            ));
        } else {
            assert(alphas_view(out@) =~= before);
        }
    }
    assert(all.take(k) =~= all);
    out
}

/// The alphas whose existence lookup answered that they were not simulated
/// yet; an alpha whose lookup failed (`None`) is left out too.
pub open spec fn unsimulated(alphas: Seq<AlphaConfig>, lookups: Seq<Option<bool>>) -> Seq<
    AlphaConfig,
>
    decreases alphas.len(),
{
    if alphas.len() == 0 {
        Seq::empty()
    } else {
        let rest = unsimulated(alphas.drop_last(), lookups);
        if lookups[alphas.len() - 1] == Some(false) {
            rest.push(alphas.last())
        } else {
            rest
        }
    }
}

/// Keeps, in order, the alphas whose lookup says they were not simulated yet.
pub fn retain_unsimulated(alphas: Vec<AlphaConfig>, lookups: &Vec<Option<bool>>) -> (r: Vec<
    AlphaConfig,
>)
    requires
        lookups.len() == alphas.len(),
    ensures
        r@ == unsimulated(alphas@, lookups@),
{
    let ghost all = alphas@;
    let mut out: Vec<AlphaConfig> = Vec::new();
    let mut rest = alphas;
    let mut i: usize = 0;
    assert(out@ =~= unsimulated(all.take(0), lookups@));
    while rest.len() > 0
        invariant
            i <= all.len(),
            lookups.len() == all.len(),
            rest@ == all.subrange(i as int, all.len() as int),
            out@ == unsimulated(all.take(i as int), lookups@),
        decreases rest.len(),
    {
        let a = rest.remove(0);
        assert(all.take(i + 1).drop_last() =~= all.take(i as int));
        assert(all.take(i + 1).last() == a);
        let keep = match lookups[i] {
            Some(exists) => !exists,
            None => false,
        };
        if keep {
            out.push(a);
        }
        i = i + 1;
    }
    assert(all.take(i as int) =~= all);
    out
}

} // verus!
