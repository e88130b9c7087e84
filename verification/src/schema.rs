//! The shapes of acceptable input.

use vstd::prelude::*;

verus! {

/// Pagination options of a listing: `page` counts from 1 and defaults to 1,
/// `limit` defaults to 10.
#[derive(Clone, Copy, Debug, PartialEq, Eq)]
pub struct FilterOptions {
    pub page: Option<usize>,
    pub limit: Option<usize>,
}

/// The window of a listing as the store takes it.
#[derive(Clone, Copy, Debug, PartialEq, Eq, Structural)]
pub struct PageQuery {
    pub limit: i64,
    pub offset: i64,
}

impl FilterOptions {
    /// The page size asked for.
    pub open spec fn limit_or_default(self) -> int {
        match self.limit {
            Some(limit) => limit as int,
            None => 10,
        }
    }

    /// The page asked for.
    pub open spec fn page_or_default(self) -> int {
        match self.page {
            Some(page) => page as int,
            None => 1,
        }
    }

    /// How many records the window skips: `(page - 1) * limit`. Page 0 gives a
    /// negative number.
    pub open spec fn offset(self) -> int {
        (self.page_or_default() - 1) * self.limit_or_default()
    }

    /// The window, where the store's 64-bit signed parameters can express it.
    pub open spec fn window(self) -> Option<PageQuery> {
        if self.limit_or_default() <= i64::MAX && i64::MIN <= self.offset() <= i64::MAX {
            Some(
                PageQuery {
                    limit: self.limit_or_default() as i64,
                    offset: self.offset() as i64,
                },
            )
        } else {
            None
        }
    }

    /// Computes the window of the listing.
    pub fn page_query(&self) -> (query: Option<PageQuery>)
        ensures
            query == self.window(),
    {
        let limit: i128 = match self.limit {
            Some(limit) => limit as i128,
            None => 10,
        };
        let page: i128 = match self.page {
            Some(page) => page as i128,
            None => 1,
        };
        if limit > i64::MAX as i128 {
            return None;
        }
        assert(-0x7fff_ffff_ffff_ffff <= (page - 1) * limit <= 0xffff_ffff_ffff_fffe
            * 0x7fff_ffff_ffff_ffff) by (nonlinear_arith)
            requires
                0 <= limit <= 0x7fff_ffff_ffff_ffff,
                0 <= page <= 0xffff_ffff_ffff_ffff,
        ;
        let offset: i128 = (page - 1) * limit;
        if offset < i64::MIN as i128 || offset > i64::MAX as i128 {
            return None;
        }
        Some(PageQuery { limit: limit as i64, offset: offset as i64 })
    }
}

/// A record named by the text of its identifier.
#[derive(Debug)]
pub struct ParamOptions {
    pub id: String,
}

/// The body of a creation request.
#[derive(Debug)]
pub struct CreateFeedbackSchema {
    pub text: String,
    pub rating: i32,
}

/// The body of a partial update: an absent field keeps the stored value.
#[derive(Debug)]
pub struct UpdateFeedbackSchema {
    pub text: Option<String>,
    pub rating: Option<i32>,
}

impl UpdateFeedbackSchema {
    /// The new text, if the body carries one.
    pub open spec fn text_view(self) -> Option<Seq<char>> {
        match self.text {
            Some(text) => Some(text@),
            None => None,
        }
    }
}

} // verus!
