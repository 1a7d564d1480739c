//! The shapes of what a client sends: the body of a create, the body of an
//! update, and the paging options of a listing.

use vstd::prelude::*;

verus! {

/// The page that a listing shows when the client names none.
pub const DEFAULT_PAGE: u32 = 1;

/// The number of rows on a page when the client names none.
pub const DEFAULT_LIMIT: u32 = 10;

/// The body of a request that creates a task. Both fields are required;
/// either may be empty.
#[derive(Debug)]
pub struct CreateTaskSchema {
    pub title: String,
    pub content: String,
}

/// The body of a request that changes a task. A field that is absent leaves
/// the stored value as it is.
#[derive(Debug)]
pub struct UpdateTaskSchema {
    pub title: Option<String>,
    pub content: Option<String>,
}

/// The paging options of a listing. Pages are counted from 1.
#[derive(Clone, Copy, Debug)]
pub struct FilterOptions {
    pub page: Option<u32>,
    pub limit: Option<u32>,
}

/// The text of an optional string; `fallback` where there is none.
pub open spec fn text_or(supplied: Option<String>, fallback: Seq<char>) -> Seq<char> {
    match supplied {
        Some(s) => s@,
        None => fallback,
    }
}

/// The supplied text where there is one, else a copy of `current`.
pub fn supplied_or_current(supplied: &Option<String>, current: &String) -> (text: String)
    ensures
        text@ == text_or(*supplied, current@),
{
    match supplied {
        Some(s) => s.clone(),
        None => current.clone(),
    }
}

impl UpdateTaskSchema {
    /// The title that the task has after this update, given its title before.
    pub open spec fn new_title(&self, current: Seq<char>) -> Seq<char> {
        text_or(self.title, current)
    }

    /// The content that the task has after this update, given its content
    /// before.
    pub open spec fn new_content(&self, current: Seq<char>) -> Seq<char> {
        text_or(self.content, current)
    }
}

impl FilterOptions {
    /// The page asked for, 1 where none is named.
    pub open spec fn spec_page(&self) -> int {
        match self.page {
            Some(p) => p as int,
            None => 1,
        }
    }

    /// The page size asked for, 10 where none is named.
    pub open spec fn spec_limit(&self) -> int {
        match self.limit {
            Some(l) => l as int,
            None => 10,
        }
    }

    /// The number of rows that come before the page asked for.
    pub open spec fn spec_offset(&self) -> int {
        (self.spec_page() - 1) * self.spec_limit()
    }

    /// The same options with every default written out.
    pub open spec fn filled(&self) -> FilterOptions {
        FilterOptions {
            page: Some(self.spec_page() as u32),
            limit: Some(self.spec_limit() as u32),
        }
    }

    /// Page and page size are positive.
    pub open spec fn well_formed(&self) -> bool {
        self.spec_page() >= 1 && self.spec_limit() >= 1
    }

    /// Whether page and page size are positive.
    pub fn is_well_formed(&self) -> (ok: bool)
        ensures
            ok == self.well_formed(),
    {
        self.page() >= 1 && self.limit() >= 1
    }

    /// The page asked for, with the default filled in.
    pub fn page(&self) -> (page: u32)
        ensures
            page == self.spec_page(),
    {
        match self.page {
            Some(p) => p,
            None => DEFAULT_PAGE,
        }
    }

    /// The page size asked for, with the default filled in.
    pub fn limit(&self) -> (limit: u32)
        ensures
            limit == self.spec_limit(),
    {
        match self.limit {
            Some(l) => l,
            None => DEFAULT_LIMIT,
        }
    }

    /// The number of rows to skip: `(page - 1) * limit`.
    pub fn offset(&self) -> (offset: u64)
        requires
            self.well_formed(),
        ensures
            offset == self.spec_offset(),
    {
        let pages_before: u64 = (self.page() - 1) as u64;
        let limit: u64 = self.limit() as u64;
        assert(0 <= pages_before * limit <= u64::MAX) by (nonlinear_arith)
            requires
                0 <= pages_before < 0x1_0000_0000,
                0 <= limit < 0x1_0000_0000,
        ;
        pages_before * limit
    }
}

} // verus!
