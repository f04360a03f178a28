use vstd::prelude::*;
use crate::accumulate::GreeksStruct;
use crate::columns::{InputColumns, OptionRow};
use crate::engine::{deterministic_model, evaluated_batch, evaluates_to, record_for};
use crate::flags::{GreeksFlags, selected_by};
use crate::greek::{GreekKind, Greeks};

verus! {

/// With a deterministic model, a row's record depends on that row's decoded
/// inputs alone: two outputs whose rows `i` decode alike hold the same record
/// there, whatever the other rows hold.
pub proof fn lemma_rows_decide_records<M, B: Fn(OptionRow) -> Option<M>, G: Fn(&M, GreekKind, bool) -> u64>(
    a: InputColumns,
    b: InputColumns,
    flags: GreeksFlags,
    build: B,
    metric: G,
    out_a: GreeksStruct,
    out_b: GreeksStruct,
    i: int,
)
    requires
        deterministic_model(build, metric),
        evaluated_batch(a, flags, build, metric, out_a),
        evaluated_batch(b, flags, build, metric, out_b),
        0 <= i < out_a.len,
        0 <= i < out_b.len,
        a.row(i) == b.row(i),
    ensures
        out_a.record(i) == out_b.record(i),
{
    let row = a.row(i);
    let ra = out_a.record(i);
    let rb = out_b.record(i);
    assert(evaluates_to(build, metric, flags, a.row(i), ra));
    assert(evaluates_to(build, metric, flags, b.row(i), rb));
    let oa = choose|o: Option<M>| #[trigger] build.ensures((row,), o) && record_for(metric, flags, o, row.is_call, ra);
    let ob = choose|o: Option<M>| #[trigger] build.ensures((row,), o) && record_for(metric, flags, o, row.is_call, rb);
    assert(oa == ob);
    assert forall|k: GreekKind| #[trigger] ra.get(k) == rb.get(k) by {
        match oa {
            None => {},
            Some(m) => {
                if flags.has(k) {
                    assert(metric.ensures((&m, k, row.is_call), ra.get(k)));
                    assert(metric.ensures((&m, k, row.is_call), rb.get(k)));
                }
            },
        }
    }
    lemma_records_equal(ra, rb);
}

/// Records that agree on every kind are equal.
proof fn lemma_records_equal(x: Greeks, y: Greeks)
    requires
        forall|k: GreekKind| #[trigger] x.get(k) == y.get(k),
    ensures
        x == y,
{
    assert(x.get(GreekKind::Delta) == y.get(GreekKind::Delta));
    assert(x.get(GreekKind::Gamma) == y.get(GreekKind::Gamma));
    assert(x.get(GreekKind::Theta) == y.get(GreekKind::Theta));
    assert(x.get(GreekKind::Vega) == y.get(GreekKind::Vega));
    assert(x.get(GreekKind::Rho) == y.get(GreekKind::Rho));
    assert(x.get(GreekKind::Vanna) == y.get(GreekKind::Vanna));
    assert(x.get(GreekKind::Volga) == y.get(GreekKind::Volga));
    assert(x.get(GreekKind::Charm) == y.get(GreekKind::Charm));
    assert(x.get(GreekKind::Speed) == y.get(GreekKind::Speed));
    assert(x.get(GreekKind::Zomma) == y.get(GreekKind::Zomma));
}

/// Two outputs of the same length whose rows all decode alike, under a
/// deterministic model, hold the same values in every column.
proof fn lemma_same_rows_same_columns<M, B: Fn(OptionRow) -> Option<M>, G: Fn(&M, GreekKind, bool) -> u64>(
    a: InputColumns,
    b: InputColumns,
    flags: GreeksFlags,
    build: B,
    metric: G,
    out_a: GreeksStruct,
    out_b: GreeksStruct,
)
    requires
        deterministic_model(build, metric),
        evaluated_batch(a, flags, build, metric, out_a),
        evaluated_batch(b, flags, build, metric, out_b),
        out_a.len == out_b.len,
        forall|i: int| 0 <= i < out_a.len ==> #[trigger] a.row(i) == b.row(i),
    ensures
        forall|k: GreekKind| #[trigger] out_a.col(k) == out_b.col(k),
{
    assert forall|k: GreekKind| #[trigger] out_a.col(k) == out_b.col(k) by {
        assert forall|i: int| 0 <= i < out_a.len implies out_a.col(k)[i] == out_b.col(k)[i] by {
            assert(a.row(i) == b.row(i));
            lemma_rows_decide_records(a, b, flags, build, metric, out_a, out_b, i);
            assert(out_a.record(i).get(k) == out_b.record(i).get(k));
        }
        assert(out_a.fields@[k.index() as int].values@.len() == out_a.len);
        assert(out_b.fields@[k.index() as int].values@.len() == out_b.len);
        assert(out_a.col(k) =~= out_b.col(k));
    }
}

/// Evaluation is idempotent: two evaluations of the same columns with the
/// same selection and a deterministic model give identical outputs.
pub proof fn lemma_idempotent<M, B: Fn(OptionRow) -> Option<M>, G: Fn(&M, GreekKind, bool) -> u64>(
    inputs: InputColumns,
    flags: GreeksFlags,
    build: B,
    metric: G,
    first: GreeksStruct,
    second: GreeksStruct,
)
    requires
        deterministic_model(build, metric),
        evaluated_batch(inputs, flags, build, metric, first),
        evaluated_batch(inputs, flags, build, metric, second),
    ensures
        first.len == second.len,
        forall|k: GreekKind| #[trigger] first.col(k) == second.col(k),
{
    lemma_same_rows_same_columns(inputs, inputs, flags, build, metric, first, second);
}

/// `wide` is `narrow` with its single-entry rate column repeated to
/// `n` entries, the other six columns unchanged.
pub open spec fn rate_materialized(narrow: InputColumns, wide: InputColumns, n: nat) -> bool {
    &&& narrow.rate@.len() == 1
    &&& wide.rate@.len() == n
    &&& forall|i: int| 0 <= i < n ==> #[trigger] wide.rate@[i] == narrow.rate@[0]
    &&& wide.spot@ == narrow.spot@
    &&& wide.strike@ == narrow.strike@
    &&& wide.maturity@ == narrow.maturity@
    &&& wide.volatility@ == narrow.volatility@
    &&& wide.dividend@ == narrow.dividend@
    &&& wide.is_call@ == narrow.is_call@
}

/// Broadcasting a single-entry rate column over `n > 1` rows decodes every
/// row as materializing the column to `n` entries does; the shapes are
/// accepted alike.
pub proof fn lemma_broadcast_rate_rows(narrow: InputColumns, wide: InputColumns)
    requires
        narrow.spec_row_count() > 1,
        rate_materialized(narrow, wide, narrow.spec_row_count()),
    ensures
        wide.spec_row_count() == narrow.spec_row_count(),
        wide.shape_ok() == narrow.shape_ok(),
        forall|i: int| 0 <= i < narrow.spec_row_count() ==> #[trigger] wide.row(i) == narrow.row(i),
{
    let n = narrow.spec_row_count();
    assert(narrow.lens()[4] == 1);
    assert(wide.lens()[4] == n);
    assert(forall|j: int| 0 <= j < 7 && j != 4 ==> narrow.lens()[j] == wide.lens()[j]);
    assert forall|j: int| 0 <= j < 7 implies (#[trigger] narrow.lens()[j] == 1 || narrow.lens()[j] == n)
        == (wide.lens()[j] == 1 || wide.lens()[j] == n) by {}
    assert forall|i: int| 0 <= i < n implies #[trigger] wide.row(i) == narrow.row(i) by {
        assert(wide.rate@[i] == narrow.rate@[0]);
    }
}

/// Broadcasting a single-entry rate column over `n > 1` rows gives, under a
/// deterministic model, the same output as materializing it to `n` entries.
pub proof fn lemma_broadcast_rate_output<M, B: Fn(OptionRow) -> Option<M>, G: Fn(&M, GreekKind, bool) -> u64>(
    narrow: InputColumns,
    wide: InputColumns,
    flags: GreeksFlags,
    build: B,
    metric: G,
    out_narrow: GreeksStruct,
    out_wide: GreeksStruct,
)
    requires
        narrow.spec_row_count() > 1,
        rate_materialized(narrow, wide, narrow.spec_row_count()),
        deterministic_model(build, metric),
        evaluated_batch(narrow, flags, build, metric, out_narrow),
        evaluated_batch(wide, flags, build, metric, out_wide),
    ensures
        out_narrow.len == out_wide.len,
        forall|k: GreekKind| #[trigger] out_narrow.col(k) == out_wide.col(k),
{
    lemma_broadcast_rate_rows(narrow, wide);
    lemma_same_rows_same_columns(narrow, wide, flags, build, metric, out_narrow, out_wide);
}

/// A row whose model cannot be built gets the all-zero record.
pub proof fn lemma_invalid_row_is_zero<M, B: Fn(OptionRow) -> Option<M>, G: Fn(&M, GreekKind, bool) -> u64>(
    inputs: InputColumns,
    flags: GreeksFlags,
    build: B,
    metric: G,
    out: GreeksStruct,
    i: int,
)
    requires
        evaluated_batch(inputs, flags, build, metric, out),
        0 <= i < out.len,
        forall|o: Option<M>| #[trigger] build.ensures((inputs.row(i),), o) ==> o is None,
    ensures
        out.record(i).is_zero(),
{
    assert(evaluates_to(build, metric, flags, inputs.row(i), out.record(i)));
}

/// Under a deterministic model, changing one row of the input (making it
/// invalid, say) leaves the record of every other row as it was.
pub proof fn lemma_row_change_is_local<M, B: Fn(OptionRow) -> Option<M>, G: Fn(&M, GreekKind, bool) -> u64>(
    a: InputColumns,
    b: InputColumns,
    flags: GreeksFlags,
    build: B,
    metric: G,
    out_a: GreeksStruct,
    out_b: GreeksStruct,
    i: int,
)
    requires
        deterministic_model(build, metric),
        evaluated_batch(a, flags, build, metric, out_a),
        evaluated_batch(b, flags, build, metric, out_b),
        a.spec_row_count() == b.spec_row_count(),
        forall|j: int| 0 <= j < a.spec_row_count() && j != i ==> #[trigger] a.row(j) == b.row(j),
    ensures
        forall|j: int| 0 <= j < out_a.len && j != i ==> #[trigger] out_a.record(j) == out_b.record(j),
{
    assert forall|j: int| 0 <= j < out_a.len && j != i implies #[trigger] out_a.record(j) == out_b.record(j) by {
        assert(a.row(j) == b.row(j));
        lemma_rows_decide_records(a, b, flags, build, metric, out_a, out_b, j);
    }
}

/// Every sensitivity that is not selected is `0.0` in every row.
pub proof fn lemma_unselected_are_zero<M, B: Fn(OptionRow) -> Option<M>, G: Fn(&M, GreekKind, bool) -> u64>(
    inputs: InputColumns,
    flags: GreeksFlags,
    build: B,
    metric: G,
    out: GreeksStruct,
)
    requires
        evaluated_batch(inputs, flags, build, metric, out),
    ensures
        forall|k: GreekKind, i: int| 0 <= i < out.len && !flags.has(k) ==> #[trigger] out.col(k)[i] == 0,
{
    assert forall|k: GreekKind, i: int| 0 <= i < out.len && !flags.has(k) implies #[trigger] out.col(k)[i] == 0 by {
        assert(evaluates_to(build, metric, flags, inputs.row(i), out.record(i)));
        assert(out.record(i).get(k) == out.col(k)[i]);
    }
}

/// With no sensitivity named, only vega and charm are computed: the other
/// eight are `0.0` in every row.
pub proof fn lemma_default_selection<M, B: Fn(OptionRow) -> Option<M>, G: Fn(&M, GreekKind, bool) -> u64>(
    inputs: InputColumns,
    names: Seq<String>,
    build: B,
    metric: G,
    out: GreeksStruct,
)
    requires
        names.len() == 0,
        evaluated_batch(inputs, GreeksFlags::spec_from(names), build, metric, out),
    ensures
        forall|k: GreekKind| #[trigger] GreeksFlags::spec_from(names).has(k) <==> (k == GreekKind::Vega || k == GreekKind::Charm),
        forall|k: GreekKind, i: int|
            0 <= i < out.len && k != GreekKind::Vega && k != GreekKind::Charm ==> #[trigger] out.col(k)[i] == 0,
{
    let flags = GreeksFlags::spec_from(names);
    assert forall|k: GreekKind| #[trigger] flags.has(k) <==> (k == GreekKind::Vega || k == GreekKind::Charm) by {
        assert(flags.has(k) == selected_by(names, k));
    }
    lemma_unselected_are_zero(inputs, flags, build, metric, out);
}

} // verus!
