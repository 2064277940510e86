//! Which durations each statistic of a run is computed over: one rule per
//! kind of action, over the whole run, per year, and per month for the
//! business operations and reports.

use vstd::prelude::*;
use crate::metrics::{Action, DomainMetric, action_code};

verus! {

/// The kind of action that a statistics rule selects.
#[derive(Clone, Copy, Debug, PartialEq, Eq)]
pub enum MetricFilter {
    ProcessYear,
    ProcessPeriod,
    YearReport,
    PeriodReport,
    OpenPeriod,
    ClosePeriod,
    Cost,
    Sale,
    Purchase,
}

/// Whether `filter` selects action `a`.
pub open spec fn filter_accepts(filter: MetricFilter, a: Action) -> bool {
    match filter {
        MetricFilter::ProcessYear => a is ProcessYear,
        MetricFilter::ProcessPeriod => a is ProcessPeriod,
        MetricFilter::YearReport => a is YearReport,
        MetricFilter::PeriodReport => a is PeriodReport,
        MetricFilter::OpenPeriod => a is OpenPeriod,
        MetricFilter::ClosePeriod => a is ClosePeriod,
        MetricFilter::Cost => a is Cost,
        MetricFilter::Sale => a is Sale,
        MetricFilter::Purchase => a is Purchase,
    }
}

fn filter_by_process_year(m: &DomainMetric) -> (b: bool)
    ensures
        b == filter_accepts(MetricFilter::ProcessYear, m.action),
{
    match m.action {
        Action::ProcessYear => true,
        _ => false,
    }
}

fn filter_by_process_period(m: &DomainMetric) -> (b: bool)
    ensures
        b == filter_accepts(MetricFilter::ProcessPeriod, m.action),
{
    match m.action {
        Action::ProcessPeriod => true,
        _ => false,
    }
}

fn filter_by_year_report(m: &DomainMetric) -> (b: bool)
    ensures
        b == filter_accepts(MetricFilter::YearReport, m.action),
{
    match m.action {
        Action::YearReport(_) => true,
        _ => false,
    }
}

fn filter_by_period_report(m: &DomainMetric) -> (b: bool)
    ensures
        b == filter_accepts(MetricFilter::PeriodReport, m.action),
{
    match m.action {
        Action::PeriodReport(_) => true,
        _ => false,
    }
}

fn filter_by_open_period(m: &DomainMetric) -> (b: bool)
    ensures
        b == filter_accepts(MetricFilter::OpenPeriod, m.action),
{
    match m.action {
        Action::OpenPeriod(_) => true,
        _ => false,
    }
}

fn filter_by_close_period(m: &DomainMetric) -> (b: bool)
    ensures
        b == filter_accepts(MetricFilter::ClosePeriod, m.action),
{
    match m.action {
        Action::ClosePeriod(_) => true,
        _ => false,
    }
}

fn filter_by_cost(m: &DomainMetric) -> (b: bool)
    ensures
        b == filter_accepts(MetricFilter::Cost, m.action),
{
    match m.action {
        Action::Cost(_) => true,
        _ => false,
    }
}

fn filter_by_sale(m: &DomainMetric) -> (b: bool)
    ensures
        b == filter_accepts(MetricFilter::Sale, m.action),
{
    match m.action {
        Action::Sale(_) => true,
        _ => false,
    }
}

fn filter_by_purchase(m: &DomainMetric) -> (b: bool)
    ensures
        b == filter_accepts(MetricFilter::Purchase, m.action),
{
    match m.action {
        Action::Purchase(_) => true,
        _ => false,
    }
}

/// A statistics rule: the code it is stored under, the actions it selects,
/// and whether it is also computed per month.
#[derive(Clone, Copy, Debug)]
pub struct StatCondition {
    pub action: &'static str,
    pub filter: MetricFilter,
    pub calc_periods: bool,
}

impl StatCondition {
    pub fn new(action: &'static str, filter: MetricFilter, calc_periods: bool) -> (c: StatCondition)
        ensures
            c == (StatCondition { action, filter, calc_periods }),
    {
        StatCondition { action, filter, calc_periods }
    }

    /// Whether the rule selects the metric.
    pub fn accepts(&self, m: &DomainMetric) -> (b: bool)
        ensures
            b == filter_accepts(self.filter, m.action),
    {
        match self.filter {
            MetricFilter::ProcessYear => filter_by_process_year(m),
            MetricFilter::ProcessPeriod => filter_by_process_period(m),
            MetricFilter::YearReport => filter_by_year_report(m),
            MetricFilter::PeriodReport => filter_by_period_report(m),
            MetricFilter::OpenPeriod => filter_by_open_period(m),
            MetricFilter::ClosePeriod => filter_by_close_period(m),
            MetricFilter::Cost => filter_by_cost(m),
            MetricFilter::Sale => filter_by_sale(m),
            MetricFilter::Purchase => filter_by_purchase(m),
        }
    }
}

/// The filter of the `r`-th rule.
pub open spec fn rule_filter(r: int) -> MetricFilter {
    if r == 0 { MetricFilter::ProcessYear }
    else if r == 1 { MetricFilter::ProcessPeriod }
    else if r == 2 { MetricFilter::YearReport }
    else if r == 3 { MetricFilter::PeriodReport }
    else if r == 4 { MetricFilter::OpenPeriod }
    else if r == 5 { MetricFilter::ClosePeriod }
    else if r == 6 { MetricFilter::Cost }
    else if r == 7 { MetricFilter::Sale }
    else { MetricFilter::Purchase }
}

/// The code of the `r`-th rule.
pub open spec fn rule_code(r: int) -> Seq<char> {
    if r == 0 { "PROCESS_YEAR"@ }
    else if r == 1 { "PROCESS_PERIOD"@ }
    else if r == 2 { "YEAR_REPORT"@ }
    else if r == 3 { "PERIOD_REPORT"@ }
    else if r == 4 { "OPEN_PERIOD"@ }
    else if r == 5 { "CLOSE_PERIOD"@ }
    else if r == 6 { "COST"@ }
    else if r == 7 { "SALE"@ }
    else { "PURCHASE"@ }
}

/// Whether the `r`-th rule is also computed per month: for reports and
/// business operations.
pub open spec fn rule_per_month(r: int) -> bool {
    r == 2 || r == 3 || r == 6 || r == 7 || r == 8
}

/// The number of rules.
pub const RULE_COUNT: usize = 9;

/// The statistics rules, one per kind of action.
pub fn processing_rules() -> (v: Vec<StatCondition>)
    ensures
        v.len() == RULE_COUNT,
        forall|r: int| 0 <= r < v.len() ==> {
            &&& (#[trigger] v[r]).action@ == rule_code(r)
            &&& v[r].filter == rule_filter(r)
            &&& v[r].calc_periods == rule_per_month(r)
        },
{
    let mut v: Vec<StatCondition> = Vec::new();
    v.push(StatCondition::new("PROCESS_YEAR", MetricFilter::ProcessYear, false));
    v.push(StatCondition::new("PROCESS_PERIOD", MetricFilter::ProcessPeriod, false));
    v.push(StatCondition::new("YEAR_REPORT", MetricFilter::YearReport, true));
    v.push(StatCondition::new("PERIOD_REPORT", MetricFilter::PeriodReport, true));
    v.push(StatCondition::new("OPEN_PERIOD", MetricFilter::OpenPeriod, false));
    v.push(StatCondition::new("CLOSE_PERIOD", MetricFilter::ClosePeriod, false));
    v.push(StatCondition::new("COST", MetricFilter::Cost, true));
    v.push(StatCondition::new("SALE", MetricFilter::Sale, true));
    v.push(StatCondition::new("PURCHASE", MetricFilter::Purchase, true));
    v
}

/// Every action falls under exactly one statistics rule.
pub proof fn lemma_rules_partition_actions(a: Action)
    ensures
        exists|r: int| 0 <= r < RULE_COUNT && #[trigger] filter_accepts(rule_filter(r), a),
        forall|r: int, s: int| 0 <= r < RULE_COUNT && 0 <= s < RULE_COUNT && filter_accepts(rule_filter(r), a)
            && filter_accepts(rule_filter(s), a) ==> r == s,
{
    let r: int = match a {
        Action::ProcessYear => 0,
        Action::ProcessPeriod => 1,
        Action::YearReport(_) => 2,
        Action::PeriodReport(_) => 3,
        Action::OpenPeriod(_) => 4,
        Action::ClosePeriod(_) => 5,
        Action::Cost(_) => 6,
        Action::Sale(_) => 7,
        Action::Purchase(_) => 8,
    };
    assert(filter_accepts(rule_filter(r), a));
}

/// A metric that a statistic is computed over: selected by the filter, and
/// of the year and month when these are given.
pub open spec fn selects(filter: MetricFilter, year: Option<u32>, month: Option<u32>, m: DomainMetric) -> bool {
    &&& filter_accepts(filter, m.action)
    &&& year matches Some(y) ==> m.year == y
    &&& month matches Some(k) ==> m.period == Some(k)
}

/// The durations of the metrics that a statistic is computed over, in the
/// order of the metrics.
pub open spec fn durations_of(ms: Seq<DomainMetric>, filter: MetricFilter, year: Option<u32>, month: Option<u32>) -> Seq<u64>
    decreases ms.len(),
{
    if ms.len() == 0 {
        Seq::empty()
    } else {
        durations_of(ms.drop_last(), filter, year, month) + if selects(filter, year, month, ms.last()) {
            seq![ms.last().duration]
        } else {
            Seq::empty()
        }
    }
}

/// The durations of the metrics that `rule` selects, of `year` and `month`
/// when these are given.
fn collect_durations(metrics: &Vec<DomainMetric>, rule: &StatCondition, year: Option<u32>, month: Option<u32>) -> (d: Vec<u64>)
    ensures
        d@ == durations_of(metrics@, rule.filter, year, month),
{
    let mut d: Vec<u64> = Vec::new();
    let mut i: usize = 0;
    while i < metrics.len()
        invariant
            i <= metrics.len(),
            d@ == durations_of(metrics@.take(i as int), rule.filter, year, month),
        decreases metrics.len() - i,
    {
        let m = &metrics[i];
        let in_year = match year {
            Some(y) => m.year == y,
            None => true,
        };
        let in_month = match month {
            Some(k) => match m.period {
                Some(p) => p == k,
                None => false,
            },
            None => true,
        };
        assert(metrics@.take(i + 1).drop_last() =~= metrics@.take(i as int));
        if rule.accepts(m) && in_year && in_month {
            d.push(m.duration);
        }
        i = i + 1;
    }
    assert(metrics@.take(metrics.len() as int) =~= metrics@);
    d
}

/// The durations of a rule in one year: all of them, and per month when the
/// rule is computed per month.
#[derive(Clone, Debug)]
pub struct YearStats {
    pub year: u32,
    pub durations: Vec<u64>,
    pub months: Vec<Vec<u64>>,
}

/// The durations of a rule: over the whole run, and per year.
#[derive(Clone, Debug)]
pub struct RuleStats {
    pub action: &'static str,
    pub durations: Vec<u64>,
    pub years: Vec<YearStats>,
}

/// `y` holds the durations of rule `r` in `year`.
pub open spec fn year_stats_is(y: YearStats, ms: Seq<DomainMetric>, r: int, year: u32) -> bool {
    &&& y.year == year
    &&& y.durations@ == durations_of(ms, rule_filter(r), Some(year), None)
    &&& y.months.len() == if rule_per_month(r) { 12int } else { 0int }
    &&& forall|k: int| 0 <= k < y.months.len()
        ==> (#[trigger] y.months[k])@ == durations_of(ms, rule_filter(r), Some(year), Some((k + 1) as u32))
}

/// `s` holds the durations of rule `r` over the run and its years.
pub open spec fn rule_stats_is(s: RuleStats, ms: Seq<DomainMetric>, r: int, start_year: u32, years: u32) -> bool {
    &&& s.action@ == rule_code(r)
    &&& s.durations@ == durations_of(ms, rule_filter(r), None, None)
    &&& s.years.len() == years
    &&& forall|y: int| 0 <= y < years ==> year_stats_is(#[trigger] s.years[y], ms, r, (start_year + y) as u32)
}

/// The durations of every statistic of a run over the years
/// `start_year..start_year + years`.
pub fn stat_groups(metrics: &Vec<DomainMetric>, start_year: u32, years: u32) -> (groups: Vec<RuleStats>)
    requires
        start_year + years <= u32::MAX,
    ensures
        groups.len() == RULE_COUNT,
        forall|r: int| 0 <= r < RULE_COUNT ==> rule_stats_is(#[trigger] groups[r], metrics@, r, start_year, years),
{
    let rules = processing_rules();
    let mut groups: Vec<RuleStats> = Vec::new();
    let mut r: usize = 0;
    while r < rules.len()
        invariant
            r <= rules.len(),
            rules.len() == RULE_COUNT,
            start_year + years <= u32::MAX,
            forall|q: int| 0 <= q < rules.len() ==> {
                &&& (#[trigger] rules[q]).action@ == rule_code(q)
                &&& rules[q].filter == rule_filter(q)
                &&& rules[q].calc_periods == rule_per_month(q)
            },
            groups.len() == r,
            forall|q: int| 0 <= q < r ==> rule_stats_is(#[trigger] groups[q], metrics@, q, start_year, years),
        decreases rules.len() - r,
    {
        let rule = rules[r];
        assert(rule.filter == rule_filter(r as int));
        let durations = collect_durations(metrics, &rule, None, None);
        let mut year_stats: Vec<YearStats> = Vec::new();
        let mut y: u32 = 0;
        while y < years
            invariant
                y <= years,
                start_year + years <= u32::MAX,
                rule.filter == rule_filter(r as int),
                rule.calc_periods == rule_per_month(r as int),
                year_stats.len() == y,
                forall|q: int| 0 <= q < y ==> year_stats_is(#[trigger] year_stats[q], metrics@, r as int,
                    (start_year + q) as u32),
            decreases years - y,
        {
            let year = start_year + y;
            let year_durations = collect_durations(metrics, &rule, Some(year), None);
            let mut months: Vec<Vec<u64>> = Vec::new();
            if rule.calc_periods {
                let mut month: u32 = 1;
                while month <= 12
                    invariant
                        1 <= month <= 13,
                        months.len() == month - 1,
                        forall|k: int| 0 <= k < months.len() ==> (#[trigger] months[k])@
                            == durations_of(metrics@, rule.filter, Some(year), Some((k + 1) as u32)),
                    decreases 13 - month,
                {
                    months.push(collect_durations(metrics, &rule, Some(year), Some(month)));
                    month = month + 1;
                }
            }
            year_stats.push(YearStats { year, durations: year_durations, months });
            y = y + 1;
        }
        groups.push(RuleStats { action: rule.action, durations, years: year_stats });
        r = r + 1;
    }
    groups
}

/// The rules computed per month are exactly those of the reports and the
/// business operations (purchases, sales, costs); a rule is stored under the
/// code of the actions it selects.
pub proof fn lemma_rules_per_month(r: int, a: Action)
    requires
        0 <= r < RULE_COUNT,
    ensures
        rule_per_month(r) <==> (rule_filter(r) is YearReport || rule_filter(r) is PeriodReport
            || rule_filter(r) is Cost || rule_filter(r) is Sale || rule_filter(r) is Purchase),
        filter_accepts(rule_filter(r), a) ==> action_code(a) == rule_code(r),
{
}

} // verus!
