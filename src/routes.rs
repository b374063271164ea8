//! The parameters that the application's pages take, and what they decide.
use vstd::prelude::*;
use vstd::string::StringExecFns;
use crate::paging::{has_more, page_for_offset};

verus! {

/// How many people a page of the search shows.
pub const SEARCH_PAGE_SIZE: usize = 25;

/// The search's query: where the page starts, and a name filter.
#[derive(Clone, Debug)]
pub struct PeopleQuery {
    pub offset: Option<usize>,
    pub name: Option<String>,
}

/// What a search page shows beside its people.
#[derive(Clone, Debug)]
pub struct SearchPaging {
    pub page: usize,
    pub offset: usize,
    pub next_offset: usize,
}

impl PeopleQuery {
    /// The offset asked for; the first item when none is given.
    pub open spec fn start(&self) -> usize {
        match self.offset {
            Some(o) => o,
            None => 0,
        }
    }

    /// The page that holds the requested offset, and where the next starts.
    pub fn paging(&self) -> (r: Option<SearchPaging>)
        ensures
            self.start() + SEARCH_PAGE_SIZE <= usize::MAX ==> (r matches Some(p)
                && p.offset == self.start()
                && p.page == self.start() / SEARCH_PAGE_SIZE + 1
                && p.next_offset == self.start() + SEARCH_PAGE_SIZE),
            self.start() + SEARCH_PAGE_SIZE > usize::MAX ==> r is None,
    {
        let offset = match self.offset {
            Some(o) => o,
            None => 0,
        };
        if offset > usize::MAX - SEARCH_PAGE_SIZE {
            return None;
        }
        Some(SearchPaging {
            page: page_for_offset(offset, SEARCH_PAGE_SIZE),
            offset,
            next_offset: offset + SEARCH_PAGE_SIZE,
        })
    }

    /// Whether the search continues past the page this query shows, which
    /// holds `returned` of `total` people.
    pub fn has_more(&self, returned: usize, total: usize) -> (r: bool)
        ensures
            r == (self.start() + returned < total),
    {
        let offset = match self.offset {
            Some(o) => o,
            None => 0,
        };
        has_more(offset, returned, total)
    }
}

/// The people page's parameters: which tab is shown.
#[derive(Clone, Debug)]
pub struct PeopleParams {
    pub tab: Option<String>,
}

impl PeopleParams {
    /// The tab to show; "active" when none is named.
    pub fn tab(&self) -> (r: String)
        ensures
            r@ == match self.tab {
                Some(t) => t@,
                None => "active"@,
            },
    {
        match &self.tab {
            Some(t) => t.clone(),
            None => String::from_str("active"),
        }
    }
}

/// Where to go once logged in.
#[derive(Clone, Debug)]
pub struct NextUrl {
    pub next: Option<String>,
}

impl NextUrl {
    /// The query that carries the destination through the login form.
    pub fn login_query(&self) -> (r: String)
        ensures
            r@ == match self.next {
                Some(n) => "?next="@ + n@,
                None => Seq::<char>::empty(),
            },
    {
        match &self.next {
            Some(n) => {
                let mut s = String::from_str("?next=");
                s.append(n.as_str());
                s
            },
            None => String::new(),
        }
    }

    /// Where a completed login leads: the destination, or the user's own page.
    pub fn redirect_target(&self) -> (r: String)
        ensures
            r@ == match self.next {
                Some(n) => n@,
                None => "/me"@,
            },
    {
        match &self.next {
            Some(n) => n.clone(),
            None => String::from_str("/me"),
        }
    }
}

} // verus!
