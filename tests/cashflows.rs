use fincalc::cashflow::{
    anchor_first, anchor_index, check_rate, check_xirr_inputs, check_xnpv_inputs, day_offsets,
    parse_cashflow, CashFlow,
};
use fincalc::decimal::Decimal;
use fincalc::CalcError;

fn flows(items: &[(&str, &str)]) -> Vec<CashFlow> {
    items.iter().map(|(a, d)| parse_cashflow(a, d).unwrap()).collect()
}

fn sample() -> Vec<CashFlow> {
    flows(&[
        ("-1000", "2023-01-01"),
        ("300", "2023-06-01"),
        ("300", "2023-12-01"),
        ("500", "2024-06-01"),
    ])
}

fn to_f64(d: &Decimal) -> f64 {
    format!("{}e-{}", d.units, d.scale).parse::<f64>().unwrap()
}

fn dated(flows: &[CashFlow]) -> Vec<(f64, String)> {
    flows
        .iter()
        .map(|c| {
            (
                to_f64(&c.amount),
                format!("{:04}-{:02}-{:02}", c.date.year, c.date.month, c.date.day),
            )
        })
        .collect()
}

#[test]
fn parses_a_cash_flow() {
    let c = parse_cashflow("-1000.5", "2023-01-01").unwrap();
    assert_eq!(c.amount, Decimal { units: -10005, scale: 1 });
    assert_eq!((c.date.year, c.date.month, c.date.day), (2023, 1, 1));
    assert_eq!(parse_cashflow("abc", "2023-01-01"), Err(CalcError::Parse));
    assert_eq!(parse_cashflow("10", "2023-02-30"), Err(CalcError::Parse));
}

#[test]
fn anchor_is_the_earliest_date_whatever_the_order() {
    let f = flows(&[("300", "2023-06-01"), ("-1000", "2023-01-01"), ("500", "2024-06-01")]);
    assert_eq!(anchor_index(&f), 1);
    assert_eq!(day_offsets(&f), vec![151, 0, 517]);
}

#[test]
fn equally_early_flows_share_the_anchor() {
    let f = flows(&[("5", "2023-02-01"), ("-5", "2023-01-01"), ("7", "2023-01-01")]);
    assert_eq!(anchor_index(&f), 1);
    assert_eq!(day_offsets(&f), vec![31, 0, 0]);
}

#[test]
fn single_flow_has_offset_zero() {
    let f = flows(&[("250", "2023-03-15")]);
    assert_eq!(day_offsets(&f), vec![0]);
}

#[test]
fn anchor_first_swaps_the_earliest_to_the_front() {
    let f = flows(&[("300", "2023-06-01"), ("500", "2024-06-01"), ("-1000", "2023-01-01")]);
    let g = anchor_first(&f);
    assert_eq!(g, vec![f[2], f[1], f[0]]);
    let h = anchor_first(&sample());
    assert_eq!(h, sample());
}

#[test]
fn rate_must_lie_above_minus_one() {
    assert_eq!(check_rate(&Decimal { units: -1, scale: 0 }), Err(CalcError::Domain));
    assert_eq!(check_rate(&Decimal { units: -100, scale: 2 }), Err(CalcError::Domain));
    assert_eq!(check_rate(&Decimal { units: -15, scale: 1 }), Err(CalcError::Domain));
    assert_eq!(check_rate(&Decimal { units: -99, scale: 2 }), Ok(()));
    assert_eq!(check_rate(&Decimal { units: 1, scale: 1 }), Ok(()));
}

#[test]
fn xnpv_needs_flows_and_a_valid_rate() {
    let rate = Decimal { units: 1, scale: 1 };
    assert_eq!(check_xnpv_inputs(&Vec::new(), &rate), Err(CalcError::InvalidCashflows));
    assert_eq!(check_xnpv_inputs(&sample(), &rate), Ok(()));
    assert_eq!(
        check_xnpv_inputs(&sample(), &Decimal { units: -2, scale: 0 }),
        Err(CalcError::Domain)
    );
}

#[test]
fn xirr_rejects_flows_of_one_sign() {
    let positive = flows(&[("100", "2023-01-01"), ("200", "2023-06-01")]);
    let negative = flows(&[("-100", "2023-01-01"), ("-200", "2023-06-01")]);
    let with_zero = flows(&[("0", "2023-01-01"), ("200", "2023-06-01")]);
    assert_eq!(check_xirr_inputs(&positive), Err(CalcError::InvalidCashflows));
    assert_eq!(check_xirr_inputs(&negative), Err(CalcError::InvalidCashflows));
    assert_eq!(check_xirr_inputs(&with_zero), Err(CalcError::InvalidCashflows));
    assert_eq!(check_xirr_inputs(&Vec::new()), Err(CalcError::InvalidCashflows));
    assert_eq!(check_xirr_inputs(&sample()), Ok(()));
}

#[test]
fn xnpv_of_the_sample_flows() {
    let f = anchor_first(&sample());
    let owned = dated(&f);
    let refs: Vec<(f64, &str)> = owned.iter().map(|(a, d)| (*a, d.as_str())).collect();
    let npv = ifch::xnpv(refs, 0.1);
    assert!((npv - 0.2027).abs() < 1e-2);
}

#[test]
fn xnpv_anchors_at_the_earliest_date_in_any_order() {
    let shuffled = flows(&[
        ("300", "2023-12-01"),
        ("500", "2024-06-01"),
        ("-1000", "2023-01-01"),
        ("300", "2023-06-01"),
    ]);
    let owned = dated(&anchor_first(&shuffled));
    let refs: Vec<(f64, &str)> = owned.iter().map(|(a, d)| (*a, d.as_str())).collect();
    let npv = ifch::xnpv(refs, 0.1);
    assert!((npv - 0.2027).abs() < 1e-2);
}

#[test]
fn xirr_of_the_sample_flows_zeroes_xnpv() {
    let f = anchor_first(&sample());
    assert_eq!(check_xirr_inputs(&f), Ok(()));
    let owned = dated(&f);
    let refs: Vec<(f64, &str)> = owned.iter().map(|(a, d)| (*a, d.as_str())).collect();
    let rate = ifch::xirr(refs.clone());
    assert!((rate - 0.100225).abs() < 1e-4);
    assert!(ifch::xnpv(refs, rate).abs() < 1e-6);
}

#[test]
fn single_flow_at_the_anchor_is_undiscounted() {
    let f = anchor_first(&flows(&[("250.75", "2023-03-15")]));
    let owned = dated(&f);
    let refs: Vec<(f64, &str)> = owned.iter().map(|(a, d)| (*a, d.as_str())).collect();
    assert_eq!(ifch::xnpv(refs.clone(), 0.07), 250.75);
    assert_eq!(ifch::xnpv(refs, 3.0), 250.75);
}
