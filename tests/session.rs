use fincalc::history::History;
use fincalc::menu::{navigate, select, Calculation, Menu, Step};
use fincalc::option::{OptionInputs, PricingMode};
use fincalc::text::{ends_cashflow_entry, is_done_word};
use fincalc::CalcError;

fn inputs(values: [&str; 6]) -> Result<OptionInputs, CalcError> {
    OptionInputs::parse(values[0], values[1], values[2], values[3], values[4], values[5])
}

#[test]
fn option_inputs_pick_the_closed_form() {
    let i = inputs(["100", "100", "1", "0.05", "0.2", "0"]).unwrap();
    assert_eq!(i.pricing_mode(), Ok(PricingMode::ClosedForm));
}

#[test]
fn zero_volatility_or_expiry_prices_intrinsic_value() {
    let flat = inputs(["100", "90", "1", "0.05", "0", "0.01"]).unwrap();
    assert_eq!(flat.pricing_mode(), Ok(PricingMode::Intrinsic));
    let expired = inputs(["100", "90", "0.0", "0.05", "0.3", "0"]).unwrap();
    assert_eq!(expired.pricing_mode(), Ok(PricingMode::Intrinsic));
}

#[test]
fn option_inputs_outside_the_domain_fail() {
    let bad = [
        ["0", "100", "1", "0.05", "0.2", "0"],
        ["100", "-1", "1", "0.05", "0.2", "0"],
        ["100", "100", "-0.5", "0.05", "0.2", "0"],
        ["100", "100", "1", "0.05", "-0.2", "0"],
    ];
    for b in bad {
        assert_eq!(inputs(b).unwrap().pricing_mode(), Err(CalcError::Domain));
    }
    let negative_rates = inputs(["100", "100", "1", "-0.05", "0.2", "-0.01"]).unwrap();
    assert_eq!(negative_rates.pricing_mode(), Ok(PricingMode::ClosedForm));
}

#[test]
fn option_inputs_must_be_numbers() {
    assert_eq!(inputs(["abc", "100", "1", "0.05", "0.2", "0"]), Err(CalcError::Parse));
    assert_eq!(inputs(["100", "100", "1", "0.05", "0.2", ""]), Err(CalcError::Parse));
}

#[test]
fn black_scholes_reference_values() {
    let i = inputs(["100", "100", "1", "0.05", "0.2", "0"]).unwrap();
    assert_eq!(i.pricing_mode(), Ok(PricingMode::ClosedForm));
    let (call, put, nd1, nd2) = ifch::bsm(100.0, 100.0, 1.0, 0.05, 0.2, 0.0);
    assert!((call - 10.45).abs() < 0.01);
    assert!((put - 5.57).abs() < 0.01);
    assert!((nd1 - 0.6368).abs() < 0.01);
    assert!((nd2 - 0.5596).abs() < 0.01);
    let parity = 100.0 - 100.0 * (-0.05f64).exp();
    assert!((call - put - parity).abs() < 1e-6);
}

#[test]
fn history_keeps_entries_in_order() {
    let mut h = History::new();
    assert_eq!(h.len(), 0);
    assert!(h.last().is_none());
    h.record("Quick Ratio = 1.50".to_string());
    h.record("XNPV = 0.20".to_string());
    assert_eq!(h.len(), 2);
    assert_eq!(h.entry(0), "Quick Ratio = 1.50");
    assert_eq!(h.last().unwrap(), "XNPV = 0.20");
}

#[test]
fn main_menu_choices() {
    assert_eq!(select(Menu::Main, "1"), Step::Open(Menu::Ratios));
    assert_eq!(select(Menu::Main, "2"), Step::Open(Menu::TimeValue));
    assert_eq!(select(Menu::Main, "6"), Step::Open(Menu::Options));
    assert_eq!(select(Menu::Main, "q"), Step::Quit);
    assert_eq!(select(Menu::Main, "H"), Step::ShowHistory);
    assert_eq!(select(Menu::Main, "b"), Step::Invalid);
    assert_eq!(select(Menu::Main, "7"), Step::Invalid);
    assert_eq!(select(Menu::Main, "12"), Step::Invalid);
    assert_eq!(select(Menu::Main, ""), Step::Invalid);
}

#[test]
fn submenu_choices() {
    assert_eq!(select(Menu::Ratios, "1"), Step::Open(Menu::Liquidity));
    assert_eq!(select(Menu::Liquidity, "1"), Step::Run(Calculation::QuickRatio));
    assert_eq!(select(Menu::TimeValue, "2"), Step::Run(Calculation::Xirr));
    assert_eq!(select(Menu::Wacc, "6"), Step::Run(Calculation::AssetBeta));
    assert_eq!(select(Menu::Options, "1"), Step::Run(Calculation::BlackScholesMerton));
    assert_eq!(select(Menu::Options, "2"), Step::Invalid);
    assert_eq!(select(Menu::Valuation, "b"), Step::Back);
    assert_eq!(select(Menu::Leverage, "q"), Step::Invalid);
}

#[test]
fn navigation_ignores_surrounding_whitespace() {
    assert_eq!(navigate(Menu::Main, " 2\n"), Step::Open(Menu::TimeValue));
    assert_eq!(navigate(Menu::TimeValue, "1\r\n"), Step::Run(Calculation::Xnpv));
    assert_eq!(navigate(Menu::Main, "1 2\n"), Step::Invalid);
}

#[test]
fn every_step_but_open_and_quit_returns_to_main() {
    assert_eq!(Step::Open(Menu::Wacc).next_menu(), Some(Menu::Wacc));
    assert_eq!(Step::Quit.next_menu(), None);
    assert_eq!(Step::Back.next_menu(), Some(Menu::Main));
    assert_eq!(Step::Run(Calculation::Xnpv).next_menu(), Some(Menu::Main));
    assert_eq!(Step::Invalid.next_menu(), Some(Menu::Main));
}

#[test]
fn done_ends_cash_flow_entry_in_any_case() {
    assert!(ends_cashflow_entry("done\n"));
    assert!(ends_cashflow_entry("  DONE  "));
    assert!(ends_cashflow_entry("Done"));
    assert!(!ends_cashflow_entry("don"));
    assert!(!ends_cashflow_entry("100"));
    assert!(is_done_word("done"));
    assert!(!is_done_word("DONE"));
    assert!(!is_done_word("dono"));
}
