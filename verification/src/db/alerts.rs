use vstd::prelude::*;

use crate::text::{concat, join, push_all};

verus! {

/// One received alert and what became of it.
#[derive(Debug, Clone, PartialEq)]
pub struct AlertHistory {
    pub id: i64,
    pub sentry_event_id: Option<String>,
    pub issue_id: Option<String>,
    pub project: Option<String>,
    pub environment: Option<String>,
    pub platform: Option<String>,
    pub title: Option<String>,
    pub message: Option<String>,
    pub level: Option<String>,
    pub web_url: Option<String>,
    pub triggered_rule: Option<String>,
    pub matched_rule_id: Option<i64>,
    pub target_group_id: Option<i64>,
    pub target_group_name: Option<String>,
    pub status: String,
    pub error_message: Option<String>,
    pub raw_payload: Option<String>,
    pub created_at: String,
}

/// The fields of an alert record to write.
#[derive(Debug, Clone, PartialEq)]
pub struct CreateAlert {
    pub sentry_event_id: Option<String>,
    pub issue_id: Option<String>,
    pub project: Option<String>,
    pub environment: Option<String>,
    pub platform: Option<String>,
    pub title: Option<String>,
    pub message: Option<String>,
    pub level: Option<String>,
    pub web_url: Option<String>,
    pub triggered_rule: Option<String>,
    pub matched_rule_id: Option<i64>,
    pub target_group_id: Option<i64>,
    pub target_group_name: Option<String>,
    pub status: String,
    pub error_message: Option<String>,
    pub raw_payload: Option<String>,
}

/// A page request over the alert history, with optional filters.
#[derive(Debug, Clone, PartialEq, Default)]
pub struct ListAlertsQuery {
    pub page: Option<u32>,
    pub page_size: Option<u32>,
    pub status: Option<String>,
    pub project: Option<String>,
}

/// One page of the alert history.
#[derive(Debug, Clone, PartialEq)]
pub struct PaginatedAlerts {
    pub data: Vec<AlertHistory>,
    pub total: i64,
    pub page: u32,
    pub page_size: u32,
    pub total_pages: u32,
}

/// Counts over the alert history.
#[derive(Debug, Clone, PartialEq)]
pub struct AlertStats {
    pub total: i64,
    pub success: i64,
    pub failed: i64,
    pub today: i64,
}

/// Where a page starts and how long it is.
#[derive(Debug, Clone, Copy, PartialEq)]
pub struct PageParams {
    pub page: u32,
    pub page_size: u32,
    pub offset: u32,
}

/// The SQL text and bound values that select the alerts a query asks for.
#[derive(Debug, Clone, PartialEq)]
pub struct AlertFilter {
    /// Empty, or `WHERE` and the conditions joined by `AND`.
    pub where_clause: String,
    /// The values bound to the conditions' placeholders, in order.
    pub binds: Vec<String>,
}

/// The page asked for: 1 unless given, and never below 1.
pub open spec fn requested_page(q: ListAlertsQuery) -> u32 {
    let p = match q.page {
        Some(p) => p,
        None => 1,
    };
    if p < 1 {
        1
    } else {
        p
    }
}

/// The page size asked for: 20 unless given, and never above 100.
pub open spec fn requested_page_size(q: ListAlertsQuery) -> u32 {
    let s = match q.page_size {
        Some(s) => s,
        None => 20,
    };
    if s > 100 {
        100
    } else {
        s
    }
}

/// The number of pages that `total` alerts fill at `page_size` a page, as the
/// rounded-up quotient; none for no alerts, and the largest `u32` for pages of size 0.
pub open spec fn pages_for(total: i64, page_size: u32) -> u32 {
    if total <= 0 {
        0
    } else if page_size == 0 {
        u32::MAX
    } else {
        let q = (total + page_size - 1) / (page_size as int);
        if q > u32::MAX {
            u32::MAX
        } else {
            q as u32
        }
    }
}

/// The conditions a query puts on the alerts.
pub open spec fn filter_conditions(q: ListAlertsQuery) -> Seq<Seq<char>> {
    let status: Seq<Seq<char>> = if q.status is Some {
        seq!["status = ?"@]
    } else {
        seq![]
    };
    let project: Seq<Seq<char>> = if q.project is Some {
        seq!["project LIKE ?"@]
    } else {
        seq![]
    };
    status + project
}

/// The values bound to those conditions: the status as given, the project wrapped in
/// `%` so that it matches anywhere in the stored project.
pub open spec fn filter_values(q: ListAlertsQuery) -> Seq<Seq<char>> {
    let status: Seq<Seq<char>> = match q.status {
        Some(s) => seq![s@],
        None => seq![],
    };
    let project: Seq<Seq<char>> = match q.project {
        Some(p) => seq!["%"@ + p@ + "%"@],
        None => seq![],
    };
    status + project
}

/// The WHERE clause for those conditions.
pub open spec fn where_text(q: ListAlertsQuery) -> Seq<char> {
    if filter_conditions(q).len() == 0 {
        Seq::<char>::empty()
    } else {
        "WHERE "@ + join(filter_conditions(q), " AND "@)
    }
}

/// The pages cover the alerts exactly: where there are alerts and pages have a size
/// (and the count of pages fits a `u32`), the pages before the last hold fewer alerts
/// than there are, and all the pages hold at least as many.
pub proof fn law_pages_cover_total(total: i64, page_size: u32)
    requires
        total > 0,
        page_size > 0,
        (total + page_size - 1) / (page_size as int) <= u32::MAX,
    ensures
        (pages_for(total, page_size) - 1) * page_size < total <= pages_for(total, page_size) * page_size,
{
    let q = (total + page_size - 1) / (page_size as int);
    assert(pages_for(total, page_size) == q);
    assert(q * page_size <= total + page_size - 1 < (q + 1) * page_size) by (nonlinear_arith)
        requires
            q == (total + page_size - 1) / (page_size as int),
            page_size > 0,
    {}
    assert((q - 1) * page_size == q * page_size - page_size) by (nonlinear_arith);
    assert((q + 1) * page_size == q * page_size + page_size) by (nonlinear_arith);
}

impl ListAlertsQuery {
    /// Whether the row offset of the page asked for fits a `u32`.
    pub fn offset_fits(&self) -> (r: bool)
        ensures
            r == ((requested_page(*self) - 1) * requested_page_size(*self) <= u32::MAX),
    {
        let page: u64 = match self.page {
            Some(p) => if p < 1 {
                1
            } else {
                p as u64
            },
            None => 1,
        };
        let page_size: u64 = match self.page_size {
            Some(s) => if s > 100 {
                100
            } else {
                s as u64
            },
            None => 20,
        };
        assert((page - 1) * page_size <= 0xffff_ffffu64 * 100) by (nonlinear_arith)
            requires
                1 <= page <= 0xffff_ffffu64,
                page_size <= 100,
        ;
        (page - 1) * page_size <= 0xffff_ffffu64
    }

    /// The page, page size and row offset that a query asks for.
    pub fn page_params(&self) -> (r: PageParams)
        requires
            (requested_page(*self) - 1) * requested_page_size(*self) <= u32::MAX,
        ensures
            r.page == requested_page(*self),
            r.page_size == requested_page_size(*self),
            r.offset == (r.page - 1) * r.page_size,
    {
        let page = match self.page {
            Some(p) => p,
            None => 1,
        };
        let page = if page < 1 {
            1
        } else {
            page
        };
        let page_size = match self.page_size {
            Some(s) => s,
            None => 20,
        };
        let page_size = if page_size > 100 {
            100
        } else {
            page_size
        };
        PageParams { page, page_size, offset: (page - 1) * page_size }
    }

    /// The WHERE clause and bound values that select the alerts this query asks for.
    pub fn filter(&self) -> (r: AlertFilter)
        ensures
            r.where_clause@ == where_text(*self),
            r.binds@.len() == filter_values(*self).len(),
            forall|i: int| 0 <= i < r.binds@.len() ==> r.binds@[i]@ == filter_values(*self)[i],
    {
        let mut binds: Vec<String> = Vec::new();
        let mut clause = String::new();
        if let Some(status) = &self.status {
            binds.push(status.clone());
        }
        if let Some(project) = &self.project {
            let mut like = concat("%", project.as_str());
            push_all(&mut like, "%");
            binds.push(like);
        }
        proof {
            reveal_with_fuel(join, 3);
        }
        match (&self.status, &self.project) {
            (Some(_), Some(_)) => {
                clause = concat("WHERE ", "status = ?");
                push_all(&mut clause, " AND ");
                push_all(&mut clause, "project LIKE ?");
                assert(filter_conditions(*self) =~= seq!["status = ?"@, "project LIKE ?"@]);
                assert(filter_conditions(*self).drop_last() =~= seq!["status = ?"@]);
            },
            (Some(_), None) => {
                clause = concat("WHERE ", "status = ?");
                assert(filter_conditions(*self) =~= seq!["status = ?"@]);
            },
            (None, Some(_)) => {
                clause = concat("WHERE ", "project LIKE ?");
                assert(filter_conditions(*self) =~= seq!["project LIKE ?"@]);
            },
            (None, None) => {
                assert(filter_conditions(*self) =~= Seq::<Seq<char>>::empty());
            },
        }
        AlertFilter { where_clause: clause, binds }
    }
}

impl AlertFilter {
    /// The query that counts the selected alerts.
    pub fn count_sql(&self) -> (r: String)
        ensures
            r@ == "SELECT COUNT(*) FROM alert_history "@ + self.where_clause@,
    {
        concat("SELECT COUNT(*) FROM alert_history ", self.where_clause.as_str())
    }

    /// The query that reads one page of the selected alerts, newest first.
    pub fn page_sql(&self) -> (r: String)
        ensures
            r@ == "SELECT * FROM alert_history "@ + self.where_clause@
                + " ORDER BY created_at DESC LIMIT ? OFFSET ?"@,
    {
        let mut s = concat("SELECT * FROM alert_history ", self.where_clause.as_str());
        push_all(&mut s, " ORDER BY created_at DESC LIMIT ? OFFSET ?");
        s
    }
}

/// The number of pages that `total` alerts fill at `page_size` a page.
pub fn total_pages(total: i64, page_size: u32) -> (r: u32)
    ensures
        r == pages_for(total, page_size),
{
    if total <= 0 {
        0
    } else if page_size == 0 {
        u32::MAX
    } else {
        let t = total as u64;
        let s = page_size as u64;
        let q = (t + s - 1) / s;
        if q > u32::MAX as u64 {
            u32::MAX
        } else {
            q as u32
        }
    }
}

impl PaginatedAlerts {
    /// A page of alerts, with the page count that its total gives.
    pub fn new(data: Vec<AlertHistory>, total: i64, params: PageParams) -> (r: PaginatedAlerts)
        ensures
            r.data == data,
            r.total == total,
            r.page == params.page,
            r.page_size == params.page_size,
            r.total_pages == pages_for(total, params.page_size),
    {
        PaginatedAlerts {
            data,
            total,
            page: params.page,
            page_size: params.page_size,
            total_pages: total_pages(total, params.page_size),
        }
    }
}

impl AlertStats {
    /// The statistics from the counts of all alerts, of successful ones and of today's:
    /// every alert that did not succeed counts as failed.
    pub fn from_counts(total: i64, success: i64, today: i64) -> (r: AlertStats)
        requires
            i64::MIN <= total - success <= i64::MAX,
        ensures
            r.total == total,
            r.success == success,
            r.failed == total - success,
            r.today == today,
    {
        AlertStats { total, success, failed: total - success, today }
    }
}

} // verus!
