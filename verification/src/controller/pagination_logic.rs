//! The window of posts a guest listing fetches.
use vstd::prelude::*;

verus! {

/// The `LIMIT` and `OFFSET` the guest listing queries posts with, for page
/// `start_page`: three posts per page, page one starting at the first post,
/// so that consecutive pages neither overlap nor skip a post.
pub fn select_specific_pages_post(start_page: i32) -> (r: (i64, i64))
    ensures
        r.0 == 3,
        r.1 == (start_page - 1) * 3,
{
    let per_page: i64 = 3;
    (per_page, (start_page as i64 - 1) * per_page)
}

} // verus!
