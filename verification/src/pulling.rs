use vstd::prelude::*;
use crate::database::StoreOwner;
use crate::provider::Category;
use crate::progress::{Progress, ProgressView};
use crate::result::{BoxResult, PullError, UnexpectedError};
use rand::Rng;

verus! {

/// What a puller does with a pull that failed: leave the item out, or try it again.
#[derive(Debug, Clone, Copy, PartialEq, Eq, Structural)]
pub enum FailureAction {
    Skip,
    Retry,
}

/// What a puller does with a pull that failed: the errors that say so are skipped, the
/// others tried again.
pub fn failure_action(e: &PullError) -> (a: FailureAction)
    ensures
        a == (if e@.skip { FailureAction::Skip } else { FailureAction::Retry }),
{
    if e.skipped() {
        FailureAction::Skip
    } else {
        FailureAction::Retry
    }
}

/// The progress of pulling products, where each category has `category_pages` pages:
/// the pages of the finished categories and those of the current one are done. A page
/// is expected to take thirty seconds.
pub fn product_task_progress(
    finished_categories: u64,
    total_categories: u64,
    category_pages: u32,
    category_page_index: u32,
) -> (r: BoxResult<Progress>)
    requires
        finished_categories * category_pages + category_page_index <= u64::MAX,
        total_categories * category_pages <= u64::MAX,
    ensures
        r matches Ok(p) && p@ == (ProgressView {
            finished_tasks: (finished_categories * category_pages + category_page_index) as u64,
            total_tasks: (total_categories * category_pages) as u64,
            ticked_tasks: 0,
            estimated_task_time_ms: 30000,
            started_at_ms: p@.started_at_ms,
        }),
{
    let category_pages = category_pages as u64;
    assert(finished_categories * category_pages <= u64::MAX) by (nonlinear_arith)
        requires
            finished_categories * category_pages + category_page_index <= u64::MAX,
    ;
    let finished_count = finished_categories * category_pages + category_page_index as u64;
    let total_count = total_categories * category_pages;
    Progress::new(finished_count, total_count, 30000)
}

/// The progress of pulling level 3 categories, where `remaining` of the `total_count`
/// categories are left to pull from. A category is expected to take twenty seconds.
pub fn category_task_progress(total_count: u64, remaining: u64) -> (r: BoxResult<Progress>)
    requires
        remaining <= total_count,
    ensures
        r matches Ok(p) && p@ == (ProgressView {
            finished_tasks: (total_count - remaining) as u64,
            total_tasks: total_count,
            ticked_tasks: 0,
            estimated_task_time_ms: 20000,
            started_at_ms: p@.started_at_ms,
        }),
{
    Progress::new(total_count - remaining, total_count, 20000)
}

/// Where the next batch of owners starts: after the last owner of `batch`, or where the
/// batch started where it is empty.
pub fn next_owner_start(batch: &Vec<StoreOwner>, current: u64) -> (n: u64)
    requires
        batch@.len() > 0 ==> batch@.last().identity < u64::MAX,
    ensures
        n == (if batch@.len() == 0 { current } else { (batch@.last().identity + 1) as u64 }),
{
    if batch.len() == 0 {
        current
    } else {
        batch[batch.len() - 1].identity + 1
    }
}

/// Where the next batch of categories starts: after the last category of `batch`, or
/// where the batch started where it is empty.
pub fn next_category_start(batch: &Vec<Category>, current: u64) -> (n: u64)
    requires
        batch@.len() > 0 ==> batch@.last().identity < u64::MAX,
    ensures
        n == (if batch@.len() == 0 { current } else { (batch@.last().identity + 1) as u64 }),
{
    if batch.len() == 0 {
        current
    } else {
        batch[batch.len() - 1].identity + 1
    }
}

/// Refuses idle times whose lower bound is above the upper one.
pub fn check_idle_times(idle_time_lower_ms: i64, idle_time_upper_ms: i64) -> (r: BoxResult<()>)
    ensures
        r is Err <==> idle_time_lower_ms > idle_time_upper_ms,
        r matches Err(e) ==> e.message_view() == "idle_time_lower must be less than idle_time_upper"@,
{
    if idle_time_lower_ms > idle_time_upper_ms {
        return UnexpectedError::new_as_box_result("idle_time_lower must be less than idle_time_upper");
    }
    Ok(())
}

/// Calls rand's `thread_rng().gen_range(lower..upper)`: a number drawn from the range, at
/// random. rand documents the result to lie in the range, and panics on an empty one.
#[verifier::external_body]
fn random_in(lower: i64, upper: i64) -> (r: i64)
    requires
        lower < upper,
    ensures
        lower <= r < upper,
{
    rand::thread_rng().gen_range(lower..upper)
}

/// Whether a user that last asked at `last_get_ms` has to wait at `now_ms` before it asks
/// again, to seem a person: where it asked less than `idle_time_lower_ms` ago.
pub open spec fn must_wait(last_get_ms: Option<i64>, now_ms: i64, idle_time_lower_ms: i64) -> bool {
    last_get_ms matches Some(last) && now_ms - last < idle_time_lower_ms
}

/// How long a user that last asked at `last_get_ms` waits at `now_ms` before it asks
/// again: nothing where it never asked or asked long enough ago, else a time drawn at
/// random between the idle times.
pub fn wait_millis(last_get_ms: Option<i64>, now_ms: i64, idle_time_lower_ms: i64, idle_time_upper_ms: i64) -> (w: i64)
    requires
        must_wait(last_get_ms, now_ms, idle_time_lower_ms) ==> idle_time_lower_ms < idle_time_upper_ms,
    ensures
        !must_wait(last_get_ms, now_ms, idle_time_lower_ms) ==> w == 0,
        must_wait(last_get_ms, now_ms, idle_time_lower_ms) ==> idle_time_lower_ms <= w < idle_time_upper_ms,
{
    let last = match last_get_ms {
        None => return 0,
        Some(v) => v,
    };
    let elapsed = now_ms as i128 - last as i128;
    if elapsed >= idle_time_lower_ms as i128 {
        return 0;
    }
    random_in(idle_time_lower_ms, idle_time_upper_ms)
}

} // verus!
