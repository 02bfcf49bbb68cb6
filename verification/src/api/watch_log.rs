//! `GET /api/v1/watch-log?page=&per_page=`: newest-first history.
use vstd::prelude::*;
use crate::db::watch_log::{DEFAULT_PER_PAGE, MAX_PER_PAGE};
use crate::error::AppError;
use crate::text::owned;

verus! {

pub struct WatchLogQuery {
    pub page: Option<i64>,
    pub per_page: Option<i64>,
}

/// The page asked for: 1-based `page` (default 1) and `per_page` (default
/// `DEFAULT_PER_PAGE`), both at least 1, `per_page` lowered to
/// `MAX_PER_PAGE`.
pub fn page_request(q: &WatchLogQuery) -> (r: Result<(i64, i64), AppError>)
    ensures
        ({
            let page = match q.page {
                Some(p) => p,
                None => 1,
            };
            let per_page = match q.per_page {
                Some(p) => p,
                None => DEFAULT_PER_PAGE,
            };
            &&& page < 1 ==> (r matches Err(AppError::InvalidData(m)) && m@
                == "page must be >= 1"@)
            &&& page >= 1 && per_page < 1 ==> (r matches Err(AppError::InvalidData(m)) && m@
                == "per_page must be >= 1"@)
            &&& page >= 1 && per_page >= 1 ==> r == Ok::<(i64, i64), AppError>(
                (page, if per_page > MAX_PER_PAGE {
                    MAX_PER_PAGE
                } else {
                    per_page
                }),
            )
        }),
{
    let page = match q.page {
        Some(p) => p,
        None => 1,
    };
    if page < 1 {
        return Err(AppError::InvalidData(owned("page must be >= 1")));
    }
    let per_page = match q.per_page {
        Some(p) => p,
        None => DEFAULT_PER_PAGE,
    };
    if per_page < 1 {
        return Err(AppError::InvalidData(owned("per_page must be >= 1")));
    }
    let per_page = if per_page > MAX_PER_PAGE {
        MAX_PER_PAGE
    } else {
        per_page
    };
    Ok((page, per_page))
}

} // verus!
