//! Pagination parameters shared by list endpoints.
use vstd::prelude::*;

use crate::query::{bool_string, bool_text, decimal, decimal_string, param, params_view, QueryParam};

verus! {

/// Page number, page size and whether a total count is wanted. A field that
/// was never set is left out of the request, so that the server's default
/// applies.
pub struct Page {
    pub page: Option<u64>,
    pub per_page: Option<u64>,
    pub include_totals: Option<bool>,
}

/// The query parameters of a page setting, in the order `page`, `per_page`,
/// `include_totals`, each present only where it was set.
pub open spec fn page_params(p: Page) -> Seq<(Seq<char>, Seq<char>)> {
    (match p.page {
        Some(n) => seq![("page"@, decimal(n as nat))],
        None => Seq::empty(),
    }) + (match p.per_page {
        Some(n) => seq![("per_page"@, decimal(n as nat))],
        None => Seq::empty(),
    }) + (match p.include_totals {
        Some(b) => seq![("include_totals"@, bool_text(b))],
        None => Seq::empty(),
    })
}

impl Page {
    /// A page setting with nothing set.
    pub fn new() -> (r: Page)
        ensures
            r.page is None,
            r.per_page is None,
            r.include_totals is None,
    {
        Page { page: None, per_page: None, include_totals: None }
    }

    /// Sets the page number (counted from zero).
    pub fn page(&mut self, n: u64) -> (r: &mut Self)
        ensures
            *r == (Page { page: Some(n), ..*old(self) }),
            *final(self) == *final(r),
    {
        self.page = Some(n);
        self
    }

    /// Sets the number of records per page.
    pub fn per_page(&mut self, n: u64) -> (r: &mut Self)
        ensures
            *r == (Page { per_page: Some(n), ..*old(self) }),
            *final(self) == *final(r),
    {
        self.per_page = Some(n);
        self
    }

    /// Sets whether the response carries the total number of records.
    pub fn include_totals(&mut self, b: bool) -> (r: &mut Self)
        ensures
            *r == (Page { include_totals: Some(b), ..*old(self) }),
            *final(self) == *final(r),
    {
        self.include_totals = Some(b);
        self
    }

    /// The query parameters of this page setting.
    pub fn to_params(&self) -> (r: Vec<QueryParam>)
        ensures
            params_view(r@) == page_params(*self),
    {
        let mut r: Vec<QueryParam> = Vec::new();
        if let Some(n) = self.page {
            r.push(param("page", decimal_string(n)));
        }
        if let Some(n) = self.per_page {
            r.push(param("per_page", decimal_string(n)));
        }
        if let Some(b) = self.include_totals {
            r.push(param("include_totals", bool_string(b)));
        }
        proof {
            assert(params_view(r@) =~= page_params(*self));
        }
        r
    }
}

impl Default for Page {
    fn default() -> (r: Page)
        ensures
            r.page is None,
            r.per_page is None,
            r.include_totals is None,
    {
        Page::new()
    }
}

} // verus!

verus! {

/// A page setting with only `per_page` set yields exactly one parameter,
/// `per_page`, with its value in decimal; `page` and `include_totals` are
/// absent.
pub proof fn lemma_per_page_only(p: Page, n: u64)
    requires
        p.page is None,
        p.per_page == Some(n),
        p.include_totals is None,
    ensures
        page_params(p) == seq![("per_page"@, decimal(n as nat))],
{
    assert(page_params(p) =~= seq![("per_page"@, decimal(n as nat))]);
}

} // verus!
