//! Retrieve log events for a specific user.
use vstd::prelude::*;
use vstd::string::StringExecFns;

use crate::page::{page_params, Page};
use crate::query::{param, params_view, QueryParam};
use crate::request::{HttpMethod, RequestSpec};
use crate::sort::{sort_value, Ordering, Sort};

verus! {

/// Request for the log events of one user, with optional pagination and
/// sorting. The server returns at most 100 events per page.
pub struct UserLogsGet {
    pub id: String,
    pub page: Page,
    pub sort: Sort,
}

/// The path of the logs of user `id`: `api/v2/users/{id}/logs`.
pub open spec fn logs_path(id: Seq<char>) -> Seq<char> {
    "api/v2/users/"@ + id + "/logs"@
}

/// The query of a logs request: the page parameters, then `sort` if set.
pub open spec fn logs_params(r: UserLogsGet) -> Seq<(Seq<char>, Seq<char>)> {
    page_params(r.page) + match sort_value(r.sort) {
        Some(v) => seq![("sort"@, v)],
        None => Seq::empty(),
    }
}

impl UserLogsGet {
    /// A request for the logs of user `id`, unpaginated and unsorted.
    pub fn new(id: &str) -> (r: Self)
        ensures
            r.id@ == id@,
            r.page.page is None,
            r.page.per_page is None,
            r.page.include_totals is None,
            r.sort.by is None,
    {
        UserLogsGet { id: String::from_str(id), page: Page::new(), sort: Sort::new() }
    }

    /// Sets the page number.
    pub fn page(&mut self, n: u64) -> (r: &mut Self)
        ensures
            *r == (UserLogsGet { page: Page { page: Some(n), ..old(self).page }, ..*old(self) }),
            *final(self) == *final(r),
    {
        self.page.page = Some(n);
        self
    }

    /// Sets the number of events per page.
    pub fn per_page(&mut self, n: u64) -> (r: &mut Self)
        ensures
            *r == (UserLogsGet { page: Page { per_page: Some(n), ..old(self).page }, ..*old(self) }),
            *final(self) == *final(r),
    {
        self.page.per_page = Some(n);
        self
    }

    /// Sets whether the response carries the total number of events.
    pub fn include_totals(&mut self, b: bool) -> (r: &mut Self)
        ensures
            *r == (UserLogsGet { page: Page { include_totals: Some(b), ..old(self).page }, ..*old(self) }),
            *final(self) == *final(r),
    {
        self.page.include_totals = Some(b);
        self
    }

    /// Sorts the events by `field` in direction `ordering`.
    pub fn sort(&mut self, field: &str, ordering: Ordering) -> (r: &mut Self)
        ensures
            r.id == old(self).id,
            r.page == old(self).page,
            r.sort.by matches Some((f, o)) && f@ == field@ && o == ordering,
            *final(self) == *final(r),
    {
        self.sort.sort(field, ordering);
        self
    }

    /// The query parameters of this request.
    pub fn to_params(&self) -> (r: Vec<QueryParam>)
        ensures
            params_view(r@) == logs_params(*self),
    {
        let mut r = self.page.to_params();
        if let Some(v) = self.sort.to_value() {
            r.push(param("sort", v));
        }
        proof {
            assert(params_view(r@) =~= logs_params(*self));
        }
        r
    }

    /// The call that fetches the events: a GET of the user's logs path with
    /// the query parameters and no body.
    pub fn build(&self) -> (r: RequestSpec)
        ensures
            r.method == HttpMethod::Get,
            r.path@ == logs_path(self.id@),
            params_view(r.query@) == logs_params(*self),
            r.body is None,
    {
        let path = String::from_str("api/v2/users/").concat(self.id.as_str()).concat("/logs");
        RequestSpec { method: HttpMethod::Get, path, query: self.to_params(), body: None }
    }
}

} // verus!

verus! {

/// With an empty sort the query of a logs request holds no `sort` key at all,
/// and is the page parameters alone.
pub proof fn lemma_empty_sort_omitted(r: UserLogsGet)
    requires
        r.sort.by is None,
    ensures
        logs_params(r) == page_params(r.page),
        forall|i: int| 0 <= i < logs_params(r).len() ==> logs_params(r)[i].0 != "sort"@,
{
    reveal_strlit("sort");
    reveal_strlit("page");
    reveal_strlit("per_page");
    reveal_strlit("include_totals");
    assert(logs_params(r) =~= page_params(r.page));
    assert forall|i: int| 0 <= i < logs_params(r).len() implies logs_params(r)[i].0 != "sort"@ by {
        let k = logs_params(r)[i].0;
        assert(k == "page"@ || k == "per_page"@ || k == "include_totals"@);
        if k == "page"@ {
            assert("page"@[0] != "sort"@[0]);
        }
    }
}

/// Sorting by `date` ascending makes the last query parameter of a logs
/// request `sort=date:1`.
pub proof fn lemma_sort_date_ascending(r: UserLogsGet)
    requires
        r.sort.by matches Some((f, o)) && f@ == "date"@ && o == Ordering::Ascending,
    ensures
        logs_params(r) == page_params(r.page) + seq![("sort"@, "date:1"@)],
{
    reveal_strlit("date");
    reveal_strlit(":1");
    reveal_strlit("date:1");
    assert("date"@ + ":1"@ =~= "date:1"@);
    assert(logs_params(r) =~= page_params(r.page) + seq![("sort"@, "date:1"@)]);
}

} // verus!
