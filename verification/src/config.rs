use vstd::prelude::*;

verus! {

/// What to pull: the categories to start from (all of them, where none is named) and
/// how many pages of each category.
pub struct PullingConfig {
    pub category: Vec<u64>,
    pub category_pages: u32,
}

/// The number of pages pulled from each category where the configuration says none.
pub fn default_category_pages() -> (n: u32)
    ensures
        n == 2,
{
    2
}

impl Default for PullingConfig {
    fn default() -> (c: Self)
        ensures
            c.category@ == Seq::<u64>::empty(),
            c.category_pages == 2,
    {
        PullingConfig { category: Vec::new(), category_pages: default_category_pages() }
    }
}


/// Where the logs go where the configuration says nothing.
pub fn default_log_directory() -> (p: &'static str)
    ensures
        p@ == "log"@,
{
    "log"
}

/// Where the reports go where the configuration says nothing.
pub fn default_report_directory() -> (p: &'static str)
    ensures
        p@ == "report"@,
{
    "report"
}

/// Where the assets of the reports are where the configuration says nothing.
pub fn default_asset_directory() -> (p: &'static str)
    ensures
        p@ == "asset"@,
{
    "asset"
}

/// The database where the configuration names none.
pub fn default_mongo_endpoint() -> (p: &'static str)
    ensures
        p@ == "mongodb://localhost/dropshipping"@,
{
    "mongodb://localhost/dropshipping"
}

} // verus!
