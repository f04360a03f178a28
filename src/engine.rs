use vstd::prelude::*;
use crate::accumulate::{GreeksStruct, GreeksVec};
use crate::columns::{InputColumns, OptionRow, ShapeMismatch};
use crate::flags::{GreeksFlags, GreeksKwargs};
use crate::greek::{GreekKind, Greeks};

verus! {

/// `rec` is the record of one row whose model construction gave `model`:
/// all zero where construction failed; otherwise, for each selected kind,
/// a value that `metric` may return for it, and `0.0` for each other kind.
pub open spec fn record_for<M, G: Fn(&M, GreekKind, bool) -> u64>(
    metric: G,
    flags: GreeksFlags,
    model: Option<M>,
    is_call: bool,
    rec: Greeks,
) -> bool {
    match model {
        None => rec.is_zero(),
        Some(m) => forall|k: GreekKind|
            #![trigger rec.get(k)]
            if flags.has(k) {
                metric.ensures((&m, k, is_call), rec.get(k))
            } else {
                rec.get(k) == 0
            },
    }
}

/// `rec` is a record that evaluating `row` may give: model construction
/// by `build` returned some outcome, and `rec` is the record for it.
pub open spec fn evaluates_to<M, B: Fn(OptionRow) -> Option<M>, G: Fn(&M, GreekKind, bool) -> u64>(
    build: B,
    metric: G,
    flags: GreeksFlags,
    row: OptionRow,
    rec: Greeks,
) -> bool {
    exists|o: Option<M>| #[trigger] build.ensures((row,), o) && record_for(metric, flags, o, row.is_call, rec)
}

/// `out` is the output of evaluating every row of `inputs`: it has the fixed
/// schema, one entry per row in each column, and row `i` holds a record
/// that evaluating row `i` may give.
pub open spec fn evaluated_batch<M, B: Fn(OptionRow) -> Option<M>, G: Fn(&M, GreekKind, bool) -> u64>(
    inputs: InputColumns,
    flags: GreeksFlags,
    build: B,
    metric: G,
    out: GreeksStruct,
) -> bool {
    &&& out.wf()
    &&& out.len == inputs.spec_row_count()
    &&& forall|i: int|
        0 <= i < out.len ==> #[trigger] evaluates_to(build, metric, flags, inputs.row(i), out.record(i))
}

/// Model construction and the metric accessors give one result per input.
pub open spec fn deterministic_model<M, B: Fn(OptionRow) -> Option<M>, G: Fn(&M, GreekKind, bool) -> u64>(
    build: B,
    metric: G,
) -> bool {
    &&& forall|row: OptionRow, o1: Option<M>, o2: Option<M>|
        #[trigger] build.ensures((row,), o1) && #[trigger] build.ensures((row,), o2) ==> o1 == o2
    &&& forall|m: &M, k: GreekKind, c: bool, v1: u64, v2: u64|
        #[trigger] metric.ensures((m, k, c), v1) && #[trigger] metric.ensures((m, k, c), v2) ==> v1 == v2
}

/// The record of a row whose model was built: each selected sensitivity
/// from its accessor, `0.0` for the others, which are never computed.
pub fn greeks_from_bs<M, G: Fn(&M, GreekKind, bool) -> u64>(
    bs: &M,
    is_call: bool,
    flags: &GreeksFlags,
    metric: &G,
) -> (r: Greeks)
    requires
        forall|m: &M, k: GreekKind, c: bool| #[trigger] metric.requires((m, k, c)),
    ensures
        record_for(*metric, *flags, Some(*bs), is_call, r),
{
    let r = Greeks {
        delta: if flags.delta { metric(bs, GreekKind::Delta, is_call) } else { 0 },
        gamma: if flags.gamma { metric(bs, GreekKind::Gamma, is_call) } else { 0 },
        theta: if flags.theta { metric(bs, GreekKind::Theta, is_call) } else { 0 },
        vega: if flags.vega { metric(bs, GreekKind::Vega, is_call) } else { 0 },
        rho: if flags.rho { metric(bs, GreekKind::Rho, is_call) } else { 0 },
        vanna: if flags.vanna { metric(bs, GreekKind::Vanna, is_call) } else { 0 },
        volga: if flags.volga { metric(bs, GreekKind::Volga, is_call) } else { 0 },
        charm: if flags.charm { metric(bs, GreekKind::Charm, is_call) } else { 0 },
        speed: if flags.speed { metric(bs, GreekKind::Speed, is_call) } else { 0 },
        zomma: if flags.zomma { metric(bs, GreekKind::Zomma, is_call) } else { 0 },
    };
    r
}

/// Evaluates every row of `inputs` for the sensitivities that `kwargs`
/// selects. `build` constructs the pricing model of a row, or returns `None`
/// where the row's parameters are invalid; such a row gets the all-zero
/// record and evaluation goes on. `metric` computes one sensitivity of a
/// model for a call (`true`) or a put. Fails, before any row is evaluated,
/// exactly when a column's length is neither 1 nor the row count.
pub fn calc_basic<M, B: Fn(OptionRow) -> Option<M>, G: Fn(&M, GreekKind, bool) -> u64>(
    inputs: &InputColumns,
    kwargs: &GreeksKwargs,
    build: B,
    metric: G,
) -> (r: Result<GreeksStruct, ShapeMismatch>)
    requires
        forall|row: OptionRow| #[trigger] build.requires((row,)),
        forall|m: &M, k: GreekKind, c: bool| #[trigger] metric.requires((m, k, c)),
    ensures
        r.is_err() <==> !inputs.shape_ok(),
        r matches Err(e) ==> e.column < 7 && e.len == inputs.lens()[e.column as int]
            && e.expected == inputs.spec_row_count() && e.len != 1 && e.len != e.expected
            && forall|j: int| 0 <= j < e.column ==> (#[trigger] inputs.lens()[j] == 1 || inputs.lens()[j] == e.expected),
        r matches Ok(out) ==> evaluated_batch(
            *inputs,
            GreeksFlags::spec_from(kwargs.greeks@),
            build,
            metric,
            out,
        ),
{
    let n = match inputs.row_count() {
        Ok(n) => n,
        Err(e) => return Err(e),
    };
    let flags = GreeksFlags::from_kwargs(kwargs);
    let mut greeks_vec = GreeksVec::with_capacity(n);
    let mut i: usize = 0;
    while i < n
        invariant
            i <= n,
            n == inputs.spec_row_count(),
            inputs.shape_ok(),
            flags == GreeksFlags::spec_from(kwargs.greeks@),
            forall|row: OptionRow| #[trigger] build.requires((row,)),
            forall|m: &M, k: GreekKind, c: bool| #[trigger] metric.requires((m, k, c)),
            greeks_vec.wf(),
            greeks_vec.rows() == i,
            forall|j: int|
                0 <= j < i ==> #[trigger] evaluates_to(build, metric, flags, inputs.row(j), greeks_vec.record(j)),
        decreases n - i,
    {
        let row = inputs.decode_row(i);
        let model = build(row);
        let greeks = match &model {
            Some(bs) => greeks_from_bs(bs, row.is_call, &flags, &metric),
            None => Greeks::zero(),
        };
        proof {
            assert(build.ensures((row,), model) && record_for(metric, flags, model, row.is_call, greeks));
        }
        let ghost before = greeks_vec;
        greeks_vec.push(greeks);
        proof {
            assert forall|j: int| 0 <= j < i + 1 implies #[trigger] evaluates_to(
                build,
                metric,
                flags,
                inputs.row(j),
                greeks_vec.record(j),
            ) by {
                if j < i {
                    assert(greeks_vec.record(j) == before.record(j));
                } else {
                    assert(greeks_vec.record(j) == greeks);
                }
            }
        }
        i = i + 1;
    }
    let ghost acc = greeks_vec;
    let out = greeks_vec.to_struct_series();
    proof {
        assert forall|j: int| 0 <= j < out.len implies #[trigger] evaluates_to(
            build,
            metric,
            flags,
            inputs.row(j),
            out.record(j),
        ) by {
            assert(out.record(j) == acc.record(j));
        }
    }
    Ok(out)
}

} // verus!
