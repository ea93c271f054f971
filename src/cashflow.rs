//! Dated cash flows: parsing, the discounting anchor, day offsets and the
//! checks that XNPV and XIRR make before any arithmetic.
use vstd::prelude::*;
use crate::CalcError;
use crate::date::{CivilDate, parse_date, valid_date_text, year_field, month_field, day_field};
use crate::decimal::{Decimal, parse_decimal, valid_decimal_text, text_units, frac_len, body_of, pow10};

verus! {

/// An amount paid or received on a date.
#[derive(PartialEq, Eq, Structural, Clone, Copy, Debug)]
pub struct CashFlow {
    pub amount: Decimal,
    pub date: CivilDate,
}

impl CashFlow {
    pub open spec fn wf(&self) -> bool {
        self.amount.wf() && self.date.wf()
    }

    pub open spec fn ordinal(&self) -> int {
        self.date.ordinal()
    }
}

pub open spec fn flows_wf(f: Seq<CashFlow>) -> bool {
    forall|i: int| 0 <= i < f.len() ==> #[trigger] f[i].wf()
}

/// Day number of the chronologically earliest flow.
pub open spec fn earliest_ordinal(f: Seq<CashFlow>) -> int
    decreases f.len(),
{
    if f.len() <= 1 {
        f[0].ordinal()
    } else {
        let rest = earliest_ordinal(f.drop_last());
        if f.last().ordinal() < rest { f.last().ordinal() } else { rest }
    }
}

/// Flow `k` is dated no later than any other flow.
pub open spec fn is_earliest(f: Seq<CashFlow>, k: int) -> bool {
    0 <= k < f.len() && forall|i: int| 0 <= i < f.len() ==> f[k].ordinal() <= #[trigger] f[i].ordinal()
}

pub open spec fn has_inflow(f: Seq<CashFlow>) -> bool {
    exists|i: int| 0 <= i < f.len() && #[trigger] f[i].amount.units > 0
}

pub open spec fn has_outflow(f: Seq<CashFlow>) -> bool {
    exists|i: int| 0 <= i < f.len() && #[trigger] f[i].amount.units < 0
}

/// A rate `units * 10^(-scale)` lies at or below -1.
pub open spec fn rate_at_or_below_minus_one(rate: Decimal) -> bool {
    rate.units <= -pow10(rate.scale as nat)
}

proof fn lemma_earliest(f: Seq<CashFlow>)
    requires
        f.len() > 0,
    ensures
        forall|i: int| 0 <= i < f.len() ==> earliest_ordinal(f) <= #[trigger] f[i].ordinal(),
        exists|j: int| 0 <= j < f.len() && earliest_ordinal(f) == #[trigger] f[j].ordinal(),
    decreases f.len(),
{
    if f.len() > 1 {
        let g = f.drop_last();
        lemma_earliest(g);
        assert forall|i: int| 0 <= i < f.len() implies earliest_ordinal(f) <= #[trigger] f[i].ordinal() by {
            if i < g.len() {
                assert(g[i] == f[i]);
            }
        }
        let j = choose|j: int| 0 <= j < g.len() && earliest_ordinal(g) == #[trigger] g[j].ordinal();
        assert(g[j] == f[j]);
        if f.last().ordinal() < earliest_ordinal(g) {
            assert(f[f.len() - 1].ordinal() == earliest_ordinal(f));
        } else {
            assert(f[j].ordinal() == earliest_ordinal(f));
        }
    } else {
        assert(f[0].ordinal() == earliest_ordinal(f));
    }
}

proof fn lemma_earliest_is_anchor(f: Seq<CashFlow>, k: int)
    requires
        is_earliest(f, k),
    ensures
        f[k].ordinal() == earliest_ordinal(f),
{
    lemma_earliest(f);
    let j = choose|j: int| 0 <= j < f.len() && earliest_ordinal(f) == #[trigger] f[j].ordinal();
    assert(f[k].ordinal() <= f[j].ordinal());
}

/// A lone flow is its own discounting anchor: its distance from the earliest
/// date is zero days, so it is not discounted at any rate.
pub proof fn single_flow_is_its_own_anchor(c: CashFlow)
    ensures
        earliest_ordinal(seq![c]) == c.ordinal(),
        c.ordinal() - earliest_ordinal(seq![c]) == 0,
{
}

/// Flows dated the same day lie equally far from the anchor, so they are
/// discounted by the same factor and amounts of opposite sign cancel.
pub proof fn same_day_flows_share_offset(f: Seq<CashFlow>, i: int, j: int)
    requires
        0 <= i < f.len(),
        0 <= j < f.len(),
        f[i].date == f[j].date,
    ensures
        f[i].ordinal() - earliest_ordinal(f) == f[j].ordinal() - earliest_ordinal(f),
{
}

/// Reads one cash flow from its amount text and its `YYYY-MM-DD` date text.
pub fn parse_cashflow(amount: &str, date: &str) -> (r: Result<CashFlow, CalcError>)
    ensures
        r is Ok <==> valid_decimal_text(amount@) && valid_date_text(date@),
        r matches Ok(c) ==> c.wf() && c.amount.units == text_units(amount@) && c.amount.scale
            == frac_len(body_of(amount@)) && c.date.year == year_field(date@) && c.date.month
            == month_field(date@) && c.date.day == day_field(date@),
        r matches Err(e) ==> e == CalcError::Parse,
{
    let amount = parse_decimal(amount)?;
    let date = parse_date(date)?;
    Ok(CashFlow { amount, date })
}

/// Index of the earliest-dated flow, the first one among equally early flows.
pub fn anchor_index(flows: &Vec<CashFlow>) -> (r: usize)
    requires
        flows@.len() > 0,
        flows_wf(flows@),
    ensures
        is_earliest(flows@, r as int),
        forall|i: int| 0 <= i < r ==> flows@[r as int].ordinal() < #[trigger] flows@[i].ordinal(),
{
    let mut best: usize = 0;
    assert(flows@[0].wf());
    let mut best_day: u32 = flows[0].date.ordinal_number();
    let mut i: usize = 1;
    while i < flows.len()
        invariant
            flows_wf(flows@),
            1 <= i <= flows@.len(),
            best < i,
            best_day as int == flows@[best as int].ordinal(),
            forall|j: int| 0 <= j < i ==> flows@[best as int].ordinal() <= #[trigger] flows@[j].ordinal(),
            forall|j: int| 0 <= j < best ==> flows@[best as int].ordinal() < #[trigger] flows@[j].ordinal(),
        decreases flows@.len() - i,
    {
        assert(flows@[i as int].wf());
        let d = flows[i].date.ordinal_number();
        if d < best_day {
            best = i;
            best_day = d;
        }
        i = i + 1;
    }
    best
}

/// Whole days from the earliest flow to each flow, in the flows' order.
pub fn day_offsets(flows: &Vec<CashFlow>) -> (r: Vec<i64>)
    requires
        flows@.len() > 0,
        flows_wf(flows@),
    ensures
        r@.len() == flows@.len(),
        forall|i: int|
            0 <= i < r@.len() ==> #[trigger] r@[i] == flows@[i].ordinal() - earliest_ordinal(
                flows@,
            ),
        forall|i: int| 0 <= i < r@.len() ==> #[trigger] r@[i] >= 0,
        exists|i: int| 0 <= i < r@.len() && #[trigger] r@[i] == 0,
{
    let k = anchor_index(flows);
    proof {
        lemma_earliest_is_anchor(flows@, k as int);
    }
    let anchor = flows[k].date;
    let mut r: Vec<i64> = Vec::new();
    let mut i: usize = 0;
    while i < flows.len()
        invariant
            flows_wf(flows@),
            is_earliest(flows@, k as int),
            anchor == flows@[k as int].date,
            flows@[k as int].ordinal() == earliest_ordinal(flows@),
            0 <= i <= flows@.len(),
            r@.len() == i,
            forall|j: int|
                0 <= j < i ==> #[trigger] r@[j] == flows@[j].ordinal() - earliest_ordinal(flows@),
        decreases flows@.len() - i,
    {
        assert(flows@[i as int].wf());
        assert(flows@[k as int].wf());
        r.push(anchor.days_until(&flows[i].date));
        i = i + 1;
    }
    assert(r@[k as int] == 0);
    r
}

/// The same flows with the earliest one moved to the front (swapped with the
/// first), so that a valuation anchored at its first flow discounts from the
/// earliest date.
pub fn anchor_first(flows: &Vec<CashFlow>) -> (r: Vec<CashFlow>)
    requires
        flows@.len() > 0,
        flows_wf(flows@),
    ensures
        r@.len() == flows@.len(),
        flows_wf(r@),
        is_earliest(r@, 0),
        r@[0].ordinal() == earliest_ordinal(flows@),
        exists|k: int|
            is_earliest(flows@, k) && (forall|i: int|
                0 <= i < k ==> flows@[k].ordinal() < #[trigger] flows@[i].ordinal()) && r@
                == flows@.update(0, flows@[k]).update(k, flows@[0]),
{
    let k = anchor_index(flows);
    proof {
        lemma_earliest_is_anchor(flows@, k as int);
    }
    let mut r = flows.clone();
    assert(r@ =~= flows@);
    let first = r[0];
    let earliest = r[k];
    r.set(0, earliest);
    r.set(k, first);
    let ghost f = flows@;
    assert(r@ =~= f.update(0, f[k as int]).update(k as int, f[0]));
    assert forall|i: int| 0 <= i < r@.len() implies r@[0].ordinal() <= #[trigger] r@[i].ordinal() by {
        if i == k as int {
            assert(r@[i] == f[0]);
        } else if i != 0 {
            assert(r@[i] == f[i]);
        }
    }
    assert forall|i: int| 0 <= i < r@.len() implies #[trigger] r@[i].wf() by {
        if i == k as int {
            assert(r@[i] == f[0]);
        } else if i != 0 {
            assert(r@[i] == f[i]);
        }
    }
    r
}

/// Checks that `rate` lies above -1, where the discount factor is defined.
pub fn check_rate(rate: &Decimal) -> (r: Result<(), CalcError>)
    requires
        rate.wf(),
    ensures
        r is Ok <==> !rate_at_or_below_minus_one(*rate),
        r matches Err(e) ==> e == CalcError::Domain,
{
    let mut unit: i64 = 1;
    let mut i: u32 = 0;
    while i < rate.scale
        invariant
            i <= rate.scale <= 18,
            unit as int == pow10(i as nat),
            unit <= 1_000_000_000_000_000_000,
        decreases rate.scale - i,
    {
        proof {
            reveal_with_fuel(pow10, 19);
            lemma_pow10_table(i as nat);
        }
        unit = unit * 10;
        i = i + 1;
    }
    if rate.units <= -unit {
        Err(CalcError::Domain)
    } else {
        Ok(())
    }
}

proof fn lemma_pow10_table(n: nat)
    requires
        n < 18,
    ensures
        pow10(n) <= 100_000_000_000_000_000,
        pow10(n + 1) == 10 * pow10(n),
{
    reveal_with_fuel(pow10, 19);
}

/// Checks the inputs of XNPV: at least one flow, and a rate above -1.
pub fn check_xnpv_inputs(flows: &Vec<CashFlow>, rate: &Decimal) -> (r: Result<(), CalcError>)
    requires
        rate.wf(),
    ensures
        r is Ok <==> flows@.len() > 0 && !rate_at_or_below_minus_one(*rate),
        r matches Err(e) ==> (e == CalcError::InvalidCashflows <==> flows@.len() == 0),
        r matches Err(e) ==> (e == CalcError::Domain <==> flows@.len() > 0),
{
    if flows.len() == 0 {
        return Err(CalcError::InvalidCashflows);
    }
    check_rate(rate)
}

/// Checks that XIRR has a root to look for: at least one inflow and one
/// outflow. Flows that are all of one sign (zeros aside) are rejected.
pub fn check_xirr_inputs(flows: &Vec<CashFlow>) -> (r: Result<(), CalcError>)
    ensures
        r is Ok <==> has_inflow(flows@) && has_outflow(flows@),
        r matches Err(e) ==> e == CalcError::InvalidCashflows,
{
    let mut inflow = false;
    let mut outflow = false;
    let mut i: usize = 0;
    while i < flows.len()
        invariant
            0 <= i <= flows@.len(),
            inflow <==> exists|j: int| 0 <= j < i && #[trigger] flows@[j].amount.units > 0,
            outflow <==> exists|j: int| 0 <= j < i && #[trigger] flows@[j].amount.units < 0,
        decreases flows@.len() - i,
    {
        let u = flows[i].amount.units;
        if u > 0 {
            inflow = true;
        }
        if u < 0 {
            outflow = true;
        }
        i = i + 1;
    }
    if inflow && outflow {
        Ok(())
    } else {
        Err(CalcError::InvalidCashflows)
    }
}

} // verus!
