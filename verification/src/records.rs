//! The rows that store metrics, and the batches they are stored in.

use vstd::prelude::*;
use crate::decimal::Dec;
use crate::domain::{customer_id, material_id, vendor_id};
use crate::ledger::opt_view;
use crate::metrics::{Action, DomainMetric, action_code};
use crate::period::Date;

verus! {

/// How many metrics are stored per statement.
pub const BATCH_SIZE: usize = 100;

/// One stored metric: the metric's numbers with the database's integer
/// types, the action's code, and the business data of the operation where
/// it has them.
#[derive(Clone, Debug)]
pub struct MetricRecord {
    pub benchmark_id: i64,
    pub year: i32,
    pub period: Option<i32>,
    pub index: i64,
    pub user_no: i32,
    pub action: &'static str,
    pub material_id: Option<String>,
    pub business_partner_id: Option<String>,
    pub quantity: Option<Dec>,
    pub price: Option<Dec>,
    pub amount: Option<Dec>,
    pub doc_no: Option<String>,
    pub sale_doc_no: Option<String>,
    pub cogs_doc_no: Option<String>,
    pub posting_date: Option<Date>,
    pub duration: u64,
}

/// The month of a metric as stored.
pub open spec fn stored_period(p: Option<u32>) -> Option<i32> {
    match p {
        Some(x) => Some(x as i32),
        None => None,
    }
}

/// `r` stores `m` for benchmark `benchmark_id`.
pub open spec fn record_is(r: MetricRecord, m: DomainMetric, benchmark_id: i64) -> bool {
    &&& r.benchmark_id == benchmark_id
    &&& r.year == m.year as i32
    &&& r.index == m.index as i64
    &&& r.user_no == m.user_no as i32
    &&& r.action@ == action_code(m.action)
    &&& r.duration == m.duration
    &&& match m.action {
        Action::Purchase(p) => {
            &&& r.period == stored_period(m.period)
            &&& r.price == Some(p.price)
            &&& r.quantity == Some(p.quantity)
            &&& r.amount is None
            &&& opt_view(r.doc_no) == Some(p.doc_no@)
            &&& r.sale_doc_no is None && r.cogs_doc_no is None
            &&& opt_view(r.business_partner_id) == Some(vendor_id(p.vendor.0 as nat))
            &&& opt_view(r.material_id) == Some(material_id(p.material.0 as nat))
            &&& r.posting_date == Some(p.posting_date)
        },
        Action::Sale(s) => {
            &&& r.period == stored_period(m.period)
            &&& r.price is None
            &&& r.quantity == Some(s.quantity)
            &&& r.amount is None
            &&& r.doc_no is None
            &&& opt_view(r.sale_doc_no) == Some(s.sale_doc_no@)
            &&& opt_view(r.cogs_doc_no) == Some(s.cogs_doc_no@)
            &&& opt_view(r.business_partner_id) == Some(customer_id(s.customer.0 as nat))
            &&& opt_view(r.material_id) == Some(material_id(s.material.0 as nat))
            &&& r.posting_date == Some(s.posting_date)
        },
        Action::Cost(c) => {
            &&& r.period == stored_period(m.period)
            &&& r.price is None && r.quantity is None
            &&& r.amount == Some(c.amount)
            &&& opt_view(r.doc_no) == Some(c.doc_no@)
            &&& r.sale_doc_no is None && r.cogs_doc_no is None
            &&& opt_view(r.business_partner_id) == Some(vendor_id(c.vendor.0 as nat))
            &&& opt_view(r.material_id) == Some(material_id(c.material.0 as nat))
            &&& r.posting_date == Some(c.posting_date)
        },
        _ => {
            &&& r.period == match m.action {
                Action::ClosePeriod(p) => Some((p.1 as u32) as i32),
                Action::OpenPeriod(p) => Some((p.1 as u32) as i32),
                Action::PeriodReport(p) => Some((p.1 as u32) as i32),
                Action::YearReport(p) => Some((p.1 as u32) as i32),
                _ => stored_period(m.period),
            }
            &&& r.price is None && r.quantity is None && r.amount is None
            &&& r.doc_no is None && r.sale_doc_no is None && r.cogs_doc_no is None
            &&& r.business_partner_id is None && r.material_id is None
            &&& r.posting_date is None
        },
    }
}

impl MetricRecord {
    /// The record that stores `metric` for benchmark `benchmark_id`.
    pub fn from(metric: &DomainMetric, benchmark_id: i64) -> (r: MetricRecord)
        ensures
            record_is(r, *metric, benchmark_id),
    {
        let period = match metric.period {
            Some(p) => Some(p as i32),
            None => None,
        };
        let mut record = MetricRecord {
            benchmark_id,
            year: metric.year as i32,
            period,
            index: metric.index as i64,
            user_no: metric.user_no as i32,
            action: metric.action.code(),
            material_id: None,
            business_partner_id: None,
            quantity: None,
            price: None,
            amount: None,
            doc_no: None,
            sale_doc_no: None,
            cogs_doc_no: None,
            posting_date: None,
            duration: metric.duration,
        };
        match &metric.action {
            Action::Purchase(p) => {
                record.price = Some(p.price);
                record.quantity = Some(p.quantity);
                record.doc_no = Some(p.doc_no.clone());
                record.business_partner_id = Some(p.vendor.id());
                record.material_id = Some(p.material.id());
                record.posting_date = Some(p.posting_date);
            },
            Action::Sale(s) => {
                record.quantity = Some(s.quantity);
                record.sale_doc_no = Some(s.sale_doc_no.clone());
                record.cogs_doc_no = Some(s.cogs_doc_no.clone());
                record.business_partner_id = Some(s.customer.id());
                record.material_id = Some(s.material.id());
                record.posting_date = Some(s.posting_date);
            },
            Action::Cost(c) => {
                record.amount = Some(c.amount);
                record.doc_no = Some(c.doc_no.clone());
                record.business_partner_id = Some(c.vendor.id());
                record.material_id = Some(c.material.id());
                record.posting_date = Some(c.posting_date);
            },
            Action::ClosePeriod(p) => record.period = Some(p.month() as i32),
            Action::OpenPeriod(p) => record.period = Some(p.month() as i32),
            Action::PeriodReport(p) => record.period = Some(p.month() as i32),
            Action::YearReport(p) => record.period = Some(p.month() as i32),
            _ => {},
        }
        record
    }
}

/// The size of the batch that starts at `offset` among `n` metrics.
pub open spec fn batch_len(n: nat, offset: nat) -> nat {
    if offset + 100 < n { 100 } else { (n - offset) as nat }
}

/// The records of the metrics from `offset` on, at most a batch of them.
pub fn get_batch(benchmark_id: i64, offset: usize, metrics: &Vec<DomainMetric>) -> (records: Vec<MetricRecord>)
    requires
        offset <= metrics.len(),
    ensures
        records.len() == batch_len(metrics.len() as nat, offset as nat),
        forall|i: int| 0 <= i < records.len() ==> record_is(#[trigger] records[i], metrics[offset + i], benchmark_id),
{
    let size = if metrics.len() - offset > BATCH_SIZE { BATCH_SIZE } else { metrics.len() - offset };
    let mut records: Vec<MetricRecord> = Vec::new();
    let mut i: usize = offset;
    while i < offset + size
        invariant
            offset <= i <= offset + size,
            offset + size <= metrics.len(),
            size == batch_len(metrics.len() as nat, offset as nat),
            records.len() == i - offset,
            forall|k: int| 0 <= k < records.len() ==> record_is(#[trigger] records[k], metrics[offset + k], benchmark_id),
        decreases offset + size - i,
    {
        records.push(MetricRecord::from(&metrics[i], benchmark_id));
        i = i + 1;
    }
    records
}

/// The batches that store `metrics`: batch `b` holds the records of the
/// metrics from `100 * b` on, all full but the last.
pub fn metric_batches(benchmark_id: i64, metrics: &Vec<DomainMetric>) -> (batches: Vec<Vec<MetricRecord>>)
    requires
        metrics.len() + BATCH_SIZE <= usize::MAX,
    ensures
        batches.len() == (metrics.len() + 99) / 100,
        forall|b: int| 0 <= b < batches.len() ==> #[trigger] batches[b].len() == batch_len(metrics.len() as nat, (100 * b) as nat),
        forall|b: int, i: int| 0 <= b < batches.len() && 0 <= i < batches[b].len()
            ==> record_is(#[trigger] batches[b][i], metrics[100 * b + i], benchmark_id),
{
    let mut batches: Vec<Vec<MetricRecord>> = Vec::new();
    let mut offset: usize = 0;
    while offset < metrics.len()
        invariant
            offset == 100 * batches.len(),
            offset < metrics.len() + 100,
            metrics.len() + BATCH_SIZE <= usize::MAX,
            forall|b: int| 0 <= b < batches.len() ==> #[trigger] batches[b].len() == batch_len(metrics.len() as nat, (100 * b) as nat),
            forall|b: int, i: int| 0 <= b < batches.len() && 0 <= i < batches[b].len()
                ==> record_is(#[trigger] batches[b][i], metrics[100 * b + i], benchmark_id),
        decreases metrics.len() + 100 - offset,
    {
        let batch = get_batch(benchmark_id, offset, metrics);
        batches.push(batch);
        offset = offset + BATCH_SIZE;
    }
    assert(batches.len() == (metrics.len() + 99) / 100);
    batches
}

/// A stored metric keeps what was measured: the year, index, user and
/// duration of the metric, the code of its action; a report, an opening or a
/// closing is stored under the month of its period; a purchase or a cost
/// under its vendor and a sale under its customer, each with its material
/// and posting date.
pub proof fn lemma_record_keeps_metric(r: MetricRecord, m: DomainMetric, benchmark_id: i64)
    requires
        record_is(r, m, benchmark_id),
    ensures
        r.benchmark_id == benchmark_id && r.year == m.year as i32 && r.index == m.index as i64
            && r.user_no == m.user_no as i32 && r.duration == m.duration,
        r.action@ == action_code(m.action),
        m.action matches Action::PeriodReport(p) ==> r.period == Some((p.1 as u32) as i32),
        m.action matches Action::YearReport(p) ==> r.period == Some((p.1 as u32) as i32),
        m.action matches Action::OpenPeriod(p) ==> r.period == Some((p.1 as u32) as i32),
        m.action matches Action::ClosePeriod(p) ==> r.period == Some((p.1 as u32) as i32),
        m.action matches Action::Purchase(p) ==> opt_view(r.business_partner_id) == Some(vendor_id(p.vendor.0 as nat))
            && opt_view(r.material_id) == Some(material_id(p.material.0 as nat)) && r.posting_date == Some(p.posting_date)
            && r.quantity == Some(p.quantity) && r.price == Some(p.price),
        m.action matches Action::Cost(c) ==> opt_view(r.business_partner_id) == Some(vendor_id(c.vendor.0 as nat))
            && opt_view(r.material_id) == Some(material_id(c.material.0 as nat)) && r.posting_date == Some(c.posting_date)
            && r.amount == Some(c.amount),
        m.action matches Action::Sale(x) ==> opt_view(r.business_partner_id) == Some(customer_id(x.customer.0 as nat))
            && opt_view(r.material_id) == Some(material_id(x.material.0 as nat)) && r.posting_date == Some(x.posting_date)
            && r.quantity == Some(x.quantity),
{
}

} // verus!
