//! Menu navigation: which screen or calculation a typed choice selects.
use vstd::prelude::*;
use crate::text::{trim_text, trimmed};

verus! {

#[derive(PartialEq, Eq, Structural, Clone, Copy, Debug)]
pub enum Menu {
    Main,
    Ratios,
    Liquidity,
    Profitability,
    Leverage,
    Activity,
    ValuationRatios,
    TimeValue,
    BuildUps,
    Wacc,
    Valuation,
    Options,
}

#[derive(PartialEq, Eq, Structural, Clone, Copy, Debug)]
pub enum Calculation {
    QuickRatio,
    AcidTestRatio,
    CashRatio,
    CurrentRatio,
    GrossMargin,
    OperatingMargin,
    NetMargin,
    ReturnOnAssets,
    ReturnOnEquity,
    DebtToEquityRatio,
    DebtRatio,
    EbitInterestCoverage,
    InventoryTurnover,
    ReceivablesTurnover,
    AssetTurnover,
    PriceToEarningsRatio,
    PriceToBookRatio,
    DividendYield,
    BlackScholesMerton,
    Xnpv,
    Xirr,
    FcffFromNetIncome,
    FcffFromCfo,
    FcffFromEbit,
    FcffFromEbitda,
    WaccFromCoe,
    CostOfEquity,
    WaccFromBeta,
    MarketRiskPremium,
    EquityBeta,
    AssetBeta,
    GordonGrowthOnePhase,
    GordonGrowthTwoPhase,
}

/// What a choice typed on a menu asks for.
#[derive(PartialEq, Eq, Structural, Clone, Copy, Debug)]
pub enum Step {
    Open(Menu),
    Run(Calculation),
    ShowHistory,
    Back,
    Quit,
    Invalid,
}

/// The step that the single char `c` selects on `menu`.
pub open spec fn step_for(menu: Menu, c: char) -> Step {
    if c == 'h' || c == 'H' {
        Step::ShowHistory
    } else if c == 'q' && menu == Menu::Main {
        Step::Quit
    } else if c == 'b' && menu != Menu::Main {
        Step::Back
    } else {
        match (menu, c) {
            (Menu::Main, '1') => Step::Open(Menu::Ratios),
            (Menu::Main, '2') => Step::Open(Menu::TimeValue),
            (Menu::Main, '3') => Step::Open(Menu::BuildUps),
            (Menu::Main, '4') => Step::Open(Menu::Wacc),
            (Menu::Main, '5') => Step::Open(Menu::Valuation),
            (Menu::Main, '6') => Step::Open(Menu::Options),
            (Menu::Ratios, '1') => Step::Open(Menu::Liquidity),
            (Menu::Ratios, '2') => Step::Open(Menu::Profitability),
            (Menu::Ratios, '3') => Step::Open(Menu::Leverage),
            (Menu::Ratios, '4') => Step::Open(Menu::Activity),
            (Menu::Ratios, '5') => Step::Open(Menu::ValuationRatios),
            (Menu::Liquidity, '1') => Step::Run(Calculation::QuickRatio),
            (Menu::Liquidity, '2') => Step::Run(Calculation::AcidTestRatio),
            (Menu::Liquidity, '3') => Step::Run(Calculation::CashRatio),
            (Menu::Liquidity, '4') => Step::Run(Calculation::CurrentRatio),
            (Menu::Profitability, '1') => Step::Run(Calculation::GrossMargin),
            (Menu::Profitability, '2') => Step::Run(Calculation::OperatingMargin),
            (Menu::Profitability, '3') => Step::Run(Calculation::NetMargin),
            (Menu::Profitability, '4') => Step::Run(Calculation::ReturnOnAssets),
            (Menu::Profitability, '5') => Step::Run(Calculation::ReturnOnEquity),
            (Menu::Leverage, '1') => Step::Run(Calculation::DebtToEquityRatio),
            (Menu::Leverage, '2') => Step::Run(Calculation::DebtRatio),
            (Menu::Leverage, '3') => Step::Run(Calculation::EbitInterestCoverage),
            (Menu::Activity, '1') => Step::Run(Calculation::InventoryTurnover),
            (Menu::Activity, '2') => Step::Run(Calculation::ReceivablesTurnover),
            (Menu::Activity, '3') => Step::Run(Calculation::AssetTurnover),
            (Menu::ValuationRatios, '1') => Step::Run(Calculation::PriceToEarningsRatio),
            (Menu::ValuationRatios, '2') => Step::Run(Calculation::PriceToBookRatio),
            (Menu::ValuationRatios, '3') => Step::Run(Calculation::DividendYield),
            (Menu::Options, '1') => Step::Run(Calculation::BlackScholesMerton),
            (Menu::TimeValue, '1') => Step::Run(Calculation::Xnpv),
            (Menu::TimeValue, '2') => Step::Run(Calculation::Xirr),
            (Menu::BuildUps, '1') => Step::Run(Calculation::FcffFromNetIncome),
            (Menu::BuildUps, '2') => Step::Run(Calculation::FcffFromCfo),
            (Menu::BuildUps, '3') => Step::Run(Calculation::FcffFromEbit),
            (Menu::BuildUps, '4') => Step::Run(Calculation::FcffFromEbitda),
            (Menu::Wacc, '1') => Step::Run(Calculation::WaccFromCoe),
            (Menu::Wacc, '2') => Step::Run(Calculation::CostOfEquity),
            (Menu::Wacc, '3') => Step::Run(Calculation::WaccFromBeta),
            (Menu::Wacc, '4') => Step::Run(Calculation::MarketRiskPremium),
            (Menu::Wacc, '5') => Step::Run(Calculation::EquityBeta),
            (Menu::Wacc, '6') => Step::Run(Calculation::AssetBeta),
            (Menu::Valuation, '1') => Step::Run(Calculation::GordonGrowthOnePhase),
            (Menu::Valuation, '2') => Step::Run(Calculation::GordonGrowthTwoPhase),
            _ => Step::Invalid,
        }
    }
}

/// The step that the (already trimmed) text `s` selects on `menu`.
pub open spec fn choice_step(menu: Menu, s: Seq<char>) -> Step {
    if s.len() == 1 { step_for(menu, s[0]) } else { Step::Invalid }
}

/// The menu shown after `step`; `None` ends the session.
pub open spec fn menu_after(step: Step) -> Option<Menu> {
    match step {
        Step::Open(m) => Some(m),
        Step::Quit => None,
        _ => Some(Menu::Main),
    }
}

fn step_for_char(menu: Menu, c: char) -> (r: Step)
    ensures
        r == step_for(menu, c),
{
    if c == 'h' || c == 'H' {
        return Step::ShowHistory;
    }
    if c == 'q' && menu == Menu::Main {
        return Step::Quit;
    }
    if c == 'b' && menu != Menu::Main {
        return Step::Back;
    }
    match (menu, c) {
        (Menu::Main, '1') => Step::Open(Menu::Ratios),
        (Menu::Main, '2') => Step::Open(Menu::TimeValue),
        (Menu::Main, '3') => Step::Open(Menu::BuildUps),
        (Menu::Main, '4') => Step::Open(Menu::Wacc),
        (Menu::Main, '5') => Step::Open(Menu::Valuation),
        (Menu::Main, '6') => Step::Open(Menu::Options),
        (Menu::Ratios, '1') => Step::Open(Menu::Liquidity),
        (Menu::Ratios, '2') => Step::Open(Menu::Profitability),
        (Menu::Ratios, '3') => Step::Open(Menu::Leverage),
        (Menu::Ratios, '4') => Step::Open(Menu::Activity),
        (Menu::Ratios, '5') => Step::Open(Menu::ValuationRatios),
        (Menu::Liquidity, '1') => Step::Run(Calculation::QuickRatio),
        (Menu::Liquidity, '2') => Step::Run(Calculation::AcidTestRatio),
        (Menu::Liquidity, '3') => Step::Run(Calculation::CashRatio),
        (Menu::Liquidity, '4') => Step::Run(Calculation::CurrentRatio),
        (Menu::Profitability, '1') => Step::Run(Calculation::GrossMargin),
        (Menu::Profitability, '2') => Step::Run(Calculation::OperatingMargin),
        (Menu::Profitability, '3') => Step::Run(Calculation::NetMargin),
        (Menu::Profitability, '4') => Step::Run(Calculation::ReturnOnAssets),
        (Menu::Profitability, '5') => Step::Run(Calculation::ReturnOnEquity),
        (Menu::Leverage, '1') => Step::Run(Calculation::DebtToEquityRatio),
        (Menu::Leverage, '2') => Step::Run(Calculation::DebtRatio),
        (Menu::Leverage, '3') => Step::Run(Calculation::EbitInterestCoverage),
        (Menu::Activity, '1') => Step::Run(Calculation::InventoryTurnover),
        (Menu::Activity, '2') => Step::Run(Calculation::ReceivablesTurnover),
        (Menu::Activity, '3') => Step::Run(Calculation::AssetTurnover),
        (Menu::ValuationRatios, '1') => Step::Run(Calculation::PriceToEarningsRatio),
        (Menu::ValuationRatios, '2') => Step::Run(Calculation::PriceToBookRatio),
        (Menu::ValuationRatios, '3') => Step::Run(Calculation::DividendYield),
        (Menu::Options, '1') => Step::Run(Calculation::BlackScholesMerton),
        (Menu::TimeValue, '1') => Step::Run(Calculation::Xnpv),
        (Menu::TimeValue, '2') => Step::Run(Calculation::Xirr),
        (Menu::BuildUps, '1') => Step::Run(Calculation::FcffFromNetIncome),
        (Menu::BuildUps, '2') => Step::Run(Calculation::FcffFromCfo),
        (Menu::BuildUps, '3') => Step::Run(Calculation::FcffFromEbit),
        (Menu::BuildUps, '4') => Step::Run(Calculation::FcffFromEbitda),
        (Menu::Wacc, '1') => Step::Run(Calculation::WaccFromCoe),
        (Menu::Wacc, '2') => Step::Run(Calculation::CostOfEquity),
        (Menu::Wacc, '3') => Step::Run(Calculation::WaccFromBeta),
        (Menu::Wacc, '4') => Step::Run(Calculation::MarketRiskPremium),
        (Menu::Wacc, '5') => Step::Run(Calculation::EquityBeta),
        (Menu::Wacc, '6') => Step::Run(Calculation::AssetBeta),
        (Menu::Valuation, '1') => Step::Run(Calculation::GordonGrowthOnePhase),
        (Menu::Valuation, '2') => Step::Run(Calculation::GordonGrowthTwoPhase),
        _ => Step::Invalid,
    }
}

/// The step that a trimmed choice selects on `menu`.
pub fn select(menu: Menu, choice: &str) -> (r: Step)
    ensures
        r == choice_step(menu, choice@),
{
    if choice.unicode_len() != 1 {
        return Step::Invalid;
    }
    step_for_char(menu, choice.get_char(0))
}

/// The step that a line of input selects on `menu`, surrounding whitespace
/// ignored.
pub fn navigate(menu: Menu, line: &str) -> (r: Step)
    ensures
        r == choice_step(menu, trimmed(line@)),
{
    select(menu, trim_text(line))
}

impl Step {
    /// The menu shown after this step; `None` ends the session.
    pub fn next_menu(&self) -> (r: Option<Menu>)
        ensures
            r == menu_after(*self),
    {
        match self {
            Step::Open(m) => Some(*m),
            Step::Quit => None,
            _ => Some(Menu::Main),
        }
    }
}

} // verus!
