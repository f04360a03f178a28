use greeks_engine::accumulate::{infer_greeks_struct_schema, GreeksStruct, GreeksVec};
use greeks_engine::columns::{InputColumns, OptionRow, ShapeMismatch};
use greeks_engine::engine::{calc_basic, greeks_from_bs};
use greeks_engine::flags::{GreeksFlags, GreeksKwargs};
use greeks_engine::greek::{kind_at_index, GreekKind, Greeks};

/// Black-Scholes model with continuous dividend yield, for driving the engine.
#[derive(Clone, Copy, Debug)]
struct Bs {
    s: f64,
    k: f64,
    t: f64,
    v: f64,
    r: f64,
    q: f64,
}

fn erf(x: f64) -> f64 {
    // Abramowitz and Stegun 7.1.26
    let sign = if x < 0.0 { -1.0 } else { 1.0 };
    let x = x.abs();
    let t = 1.0 / (1.0 + 0.3275911 * x);
    let y = 1.0
        - (((((1.061405429 * t - 1.453152027) * t) + 1.421413741) * t - 0.284496736) * t
            + 0.254829592)
            * t
            * (-x * x).exp();
    sign * y
}

fn cdf(x: f64) -> f64 {
    0.5 * (1.0 + erf(x / std::f64::consts::SQRT_2))
}

fn pdf(x: f64) -> f64 {
    (-0.5 * x * x).exp() / (2.0 * std::f64::consts::PI).sqrt()
}

impl Bs {
    fn new(row: OptionRow) -> Option<Bs> {
        let m = Bs {
            s: f64::from_bits(row.spot),
            k: f64::from_bits(row.strike),
            t: f64::from_bits(row.maturity),
            v: f64::from_bits(row.volatility),
            r: f64::from_bits(row.rate),
            q: f64::from_bits(row.dividend),
        };
        if m.s > 0.0 && m.k > 0.0 && m.t > 0.0 && m.v > 0.0 {
            Some(m)
        } else {
            None
        }
    }

    fn d1(&self) -> f64 {
        ((self.s / self.k).ln() + (self.r - self.q + 0.5 * self.v * self.v) * self.t)
            / (self.v * self.t.sqrt())
    }

    fn d2(&self) -> f64 {
        self.d1() - self.v * self.t.sqrt()
    }

    fn value(&self, kind: GreekKind, call: bool) -> f64 {
        let (d1, d2, st) = (self.d1(), self.d2(), self.t.sqrt());
        let dq = (-self.q * self.t).exp();
        let dr = (-self.r * self.t).exp();
        let gamma = dq * pdf(d1) / (self.s * self.v * st);
        let vega = self.s * dq * pdf(d1) * st;
        match kind {
            GreekKind::Delta => {
                if call {
                    dq * cdf(d1)
                } else {
                    -dq * cdf(-d1)
                }
            }
            GreekKind::Gamma => gamma,
            GreekKind::Theta => {
                let common = -self.s * dq * pdf(d1) * self.v / (2.0 * st);
                if call {
                    common - self.r * self.k * dr * cdf(d2) + self.q * self.s * dq * cdf(d1)
                } else {
                    common + self.r * self.k * dr * cdf(-d2) - self.q * self.s * dq * cdf(-d1)
                }
            }
            GreekKind::Vega => vega,
            GreekKind::Rho => {
                if call {
                    self.k * self.t * dr * cdf(d2)
                } else {
                    -self.k * self.t * dr * cdf(-d2)
                }
            }
            GreekKind::Vanna => -dq * pdf(d1) * d2 / self.v,
            GreekKind::Volga => vega * d1 * d2 / self.v,
            GreekKind::Charm => {
                let common = dq * pdf(d1) * (2.0 * (self.r - self.q) * self.t - d2 * self.v * st)
                    / (2.0 * self.t * self.v * st);
                if call {
                    self.q * dq * cdf(d1) - common
                } else {
                    -self.q * dq * cdf(-d1) - common
                }
            }
            GreekKind::Speed => -gamma / self.s * (d1 / (self.v * st) + 1.0),
            GreekKind::Zomma => gamma * (d1 * d2 - 1.0) / self.v,
        }
    }
}

fn build(row: OptionRow) -> Option<Bs> {
    Bs::new(row)
}

fn metric(m: &Bs, kind: GreekKind, call: bool) -> u64 {
    m.value(kind, call).to_bits()
}

fn num(values: &[f64]) -> Vec<Option<u64>> {
    values.iter().map(|v| Some(v.to_bits())).collect()
}

fn names(list: &[&str]) -> GreeksKwargs {
    GreeksKwargs { greeks: list.iter().map(|s| s.to_string()).collect() }
}

fn columns(
    spot: &[f64],
    strike: &[f64],
    maturity: &[f64],
    vol: &[f64],
    rate: &[f64],
    div: &[f64],
    call: &[bool],
) -> InputColumns {
    InputColumns {
        spot: num(spot),
        strike: num(strike),
        maturity: num(maturity),
        volatility: num(vol),
        rate: num(rate),
        dividend: num(div),
        is_call: call.iter().map(|c| Some(*c)).collect(),
    }
}

fn run(inputs: &InputColumns, kwargs: &GreeksKwargs) -> GreeksStruct {
    calc_basic(inputs, kwargs, build, metric).expect("shapes are valid")
}

fn at(out: &GreeksStruct, kind: GreekKind, i: usize) -> f64 {
    f64::from_bits(out.column(kind)[i])
}

fn all_kinds() -> Vec<GreekKind> {
    (0..10).map(kind_at_index).collect()
}

fn atm_pair() -> InputColumns {
    columns(
        &[100.0, 100.0],
        &[100.0, 100.0],
        &[0.25, 0.25],
        &[0.20, 0.20],
        &[0.0, 0.0],
        &[0.0, 0.0],
        &[true, false],
    )
}

#[test]
fn test_struct_construction() {
    let mut acc = GreeksVec::with_capacity(2);
    let mut first = Greeks::zero();
    first.delta = 0.5f64.to_bits();
    first.vega = 0.2f64.to_bits();
    let mut second = Greeks::zero();
    second.delta = 0.6f64.to_bits();
    second.vega = 0.25f64.to_bits();
    acc.push(first);
    acc.push(second);
    let out = acc.to_struct_series();
    assert_eq!(out.len, 2);
    assert_eq!(out.name, "all_greeks");
    assert_eq!(out.fields.len(), 10);
    assert_eq!(out.column(GreekKind::Delta), &vec![0.5f64.to_bits(), 0.6f64.to_bits()]);
    assert_eq!(out.column(GreekKind::Vega), &vec![0.2f64.to_bits(), 0.25f64.to_bits()]);
    assert_eq!(out.column(GreekKind::Gamma), &vec![0u64, 0u64]);
}

#[test]
fn every_column_has_row_count_entries() {
    for n in [0usize, 1, 3, 7] {
        let v = vec![100.0; n];
        let inputs = columns(&v, &v, &vec![0.5; n], &vec![0.3; n], &vec![0.01; n], &vec![0.0; n], &vec![true; n]);
        let out = run(&inputs, &names(&["delta", "gamma", "zomma"]));
        assert_eq!(out.len, n);
        for f in &out.fields {
            assert_eq!(f.values.len(), n);
        }
    }
}

#[test]
fn default_selection_computes_vega_and_charm_only() {
    let inputs = columns(&[100.0], &[100.0], &[0.25], &[0.2], &[0.0], &[0.0], &[true]);
    let out = run(&inputs, &names(&[]));
    assert!(at(&out, GreekKind::Vega, 0) != 0.0);
    assert!(at(&out, GreekKind::Charm, 0) != 0.0);
    for k in all_kinds() {
        if k != GreekKind::Vega && k != GreekKind::Charm {
            assert_eq!(out.column(k)[0], 0u64);
        }
    }
}

#[test]
fn broadcast_rate_matches_materialized_rate() {
    let spot = [90.0, 100.0, 110.0];
    let narrow = columns(&spot, &[100.0; 3], &[0.5; 3], &[0.25; 3], &[0.03], &[0.01; 3], &[true, false, true]);
    let wide = columns(&spot, &[100.0; 3], &[0.5; 3], &[0.25; 3], &[0.03; 3], &[0.01; 3], &[true, false, true]);
    let kw = names(&["delta", "gamma", "theta", "vega", "rho", "vanna", "volga", "charm", "speed", "zomma"]);
    let a = run(&narrow, &kw);
    let b = run(&wide, &kw);
    assert_eq!(a.len, 3);
    for k in all_kinds() {
        assert_eq!(a.column(k), b.column(k));
    }
    assert!(at(&a, GreekKind::Rho, 0) != 0.0);
}

#[test]
fn invalid_row_is_all_zero_and_others_unchanged() {
    let kw = names(&["delta", "vega"]);
    let mixed = columns(&[100.0, -1.0, 105.0], &[100.0; 3], &[0.25; 3], &[0.2; 3], &[0.01; 3], &[0.0; 3], &[true; 3]);
    let out = run(&mixed, &kw);
    for k in all_kinds() {
        assert_eq!(out.column(k)[1], 0u64);
    }
    let valid = columns(&[100.0, 105.0], &[100.0; 2], &[0.25; 2], &[0.2; 2], &[0.01; 2], &[0.0; 2], &[true; 2]);
    let reference = run(&valid, &kw);
    for k in all_kinds() {
        assert_eq!(out.column(k)[0], reference.column(k)[0]);
        assert_eq!(out.column(k)[2], reference.column(k)[1]);
    }
    assert!(at(&out, GreekKind::Delta, 0) > 0.0);
}

#[test]
fn delta_gamma_selection_matches_formulas() {
    let inputs = columns(&[95.0], &[100.0], &[1.0], &[0.3], &[0.05], &[0.02], &[false]);
    let out = run(&inputs, &names(&["delta", "gamma"]));
    let m = Bs::new(OptionRow {
        spot: 95.0f64.to_bits(),
        strike: 100.0f64.to_bits(),
        maturity: 1.0f64.to_bits(),
        volatility: 0.3f64.to_bits(),
        rate: 0.05f64.to_bits(),
        dividend: 0.02f64.to_bits(),
        is_call: false,
    })
    .unwrap();
    assert_eq!(out.column(GreekKind::Delta)[0], m.value(GreekKind::Delta, false).to_bits());
    assert_eq!(out.column(GreekKind::Gamma)[0], m.value(GreekKind::Gamma, false).to_bits());
    for k in all_kinds() {
        if k != GreekKind::Delta && k != GreekKind::Gamma {
            assert_eq!(out.column(k)[0], 0u64);
        }
    }
}

#[test]
fn at_the_money_call_and_put_delta() {
    let out = run(&atm_pair(), &names(&["delta"]));
    assert_eq!(out.len, 2);
    assert!((at(&out, GreekKind::Delta, 0) - 0.5202).abs() < 1e-3);
    assert!((at(&out, GreekKind::Delta, 1) + 0.4798).abs() < 1e-3);
    for k in all_kinds() {
        if k != GreekKind::Delta {
            assert_eq!(out.column(k), &vec![0u64, 0u64]);
        }
    }
}

#[test]
fn evaluation_is_idempotent() {
    let kw = names(&["theta", "speed", "vanna"]);
    let a = run(&atm_pair(), &kw);
    let b = run(&atm_pair(), &kw);
    for k in all_kinds() {
        assert_eq!(a.column(k), b.column(k));
    }
}

#[test]
fn mismatched_column_length_is_rejected() {
    let inputs = columns(&[100.0; 3], &[100.0; 3], &[0.25; 2], &[0.2; 3], &[0.0], &[0.0], &[true]);
    let r = calc_basic(&inputs, &names(&["delta"]), build, metric);
    assert!(matches!(r, Err(ShapeMismatch { column: 2, len: 2, expected: 3 })));
}

#[test]
fn row_count_is_set_by_the_spot_column() {
    let inputs = columns(&[100.0, 101.0, 102.0, 103.0], &[100.0], &[0.25], &[0.2], &[0.0], &[0.0, 0.01, 0.02, 0.03], &[true]);
    assert_eq!(inputs.row_count(), Ok(4));
    let out = run(&inputs, &names(&["delta"]));
    assert_eq!(out.len, 4);
    let empty = columns(&[], &[], &[], &[], &[0.0], &[0.0], &[true]);
    assert_eq!(empty.row_count(), Ok(0));
}

#[test]
fn single_spot_beside_longer_columns_is_rejected() {
    let inputs = columns(&[100.0], &[100.0; 5], &[0.25; 5], &[0.2; 5], &[0.0; 5], &[0.0; 5], &[true; 5]);
    assert_eq!(
        inputs.row_count(),
        Err(ShapeMismatch { column: 1, len: 5, expected: 1 })
    );
    let r = calc_basic(&inputs, &names(&["delta"]), build, metric);
    assert!(matches!(r, Err(ShapeMismatch { column: 1, len: 5, expected: 1 })));
}

#[test]
fn nulls_are_replaced_before_evaluation() {
    let mut inputs = atm_pair();
    inputs.is_call = vec![None, None];
    inputs.rate = vec![None];
    inputs.spot[1] = None;
    let row = inputs.decode_row(0);
    assert!(row.is_call);
    assert_eq!(row.rate, 0u64);
    assert_eq!(inputs.decode_row(1).spot, 0u64);
    let out = run(&inputs, &names(&["delta"]));
    assert!((at(&out, GreekKind::Delta, 0) - 0.5202).abs() < 1e-3);
    assert_eq!(out.column(GreekKind::Delta)[1], 0u64);
}

#[test]
fn unknown_names_are_ignored() {
    let flags = GreeksFlags::from_kwargs(&names(&["delta", "Delta", "omega"]));
    for k in all_kinds() {
        assert_eq!(flags.contains(k), k == GreekKind::Delta);
    }
    let none_known = GreeksFlags::from_kwargs(&names(&["omega"]));
    for k in all_kinds() {
        assert!(!none_known.contains(k));
    }
}

#[test]
fn selection_record_leaves_unselected_zero() {
    let flags = GreeksFlags::from_kwargs(&names(&["rho", "zomma"]));
    let m = Bs::new(OptionRow {
        spot: 100.0f64.to_bits(),
        strike: 90.0f64.to_bits(),
        maturity: 0.5f64.to_bits(),
        volatility: 0.25f64.to_bits(),
        rate: 0.02f64.to_bits(),
        dividend: 0.0f64.to_bits(),
        is_call: true,
    })
    .unwrap();
    let g = greeks_from_bs(&m, true, &flags, &metric);
    assert_eq!(g.value(GreekKind::Rho), m.value(GreekKind::Rho, true).to_bits());
    assert_eq!(g.value(GreekKind::Zomma), m.value(GreekKind::Zomma, true).to_bits());
    assert_eq!(g.delta, 0u64);
    assert_eq!(g.charm, 0u64);
}

#[test]
fn schema_lists_all_fields_in_order() {
    let schema = infer_greeks_struct_schema();
    assert_eq!(schema.name, "all_greeks");
    assert_eq!(
        schema.fields,
        vec!["delta", "gamma", "theta", "vega", "rho", "vanna", "volga", "charm", "speed", "zomma"]
    );
    let out = run(&atm_pair(), &names(&[]));
    let got: Vec<&str> = out.fields.iter().map(|f| f.name).collect();
    assert_eq!(got, schema.fields);
}

