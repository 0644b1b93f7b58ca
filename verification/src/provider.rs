use vstd::prelude::*;
use crate::result::{BoxResult, UnexpectedError, PullResult, PullErrorView};

verus! {

/// The platform that a product, store or category comes from.
#[derive(Debug, Clone, Copy, PartialEq, Eq, Structural)]
pub enum ProviderIdentity {
    Aliexpress,
    Ebay,
    Amazon,
}

pub open spec fn provider_code(p: ProviderIdentity) -> u16 {
    match p {
        ProviderIdentity::Aliexpress => 1,
        ProviderIdentity::Ebay => 2,
        ProviderIdentity::Amazon => 3,
    }
}

/// The provider stored as `code`, where one is.
pub open spec fn provider_of_code(code: u16) -> Option<ProviderIdentity> {
    if code == 1 {
        Some(ProviderIdentity::Aliexpress)
    } else if code == 2 {
        Some(ProviderIdentity::Ebay)
    } else if code == 3 {
        Some(ProviderIdentity::Amazon)
    } else {
        None
    }
}

/// A provider read back from the number it is stored as is the same provider, and no
/// other number stands for it.
pub proof fn law_provider_code_round_trip(p: ProviderIdentity, code: u16)
    ensures
        provider_of_code(provider_code(p)) == Some(p),
        provider_of_code(code) == Some(p) ==> code == provider_code(p),
{
}

impl ProviderIdentity {
    /// The number a provider is stored as.
    pub fn code(&self) -> (n: u16)
        ensures
            n == provider_code(*self),
    {
        match self {
            ProviderIdentity::Aliexpress => 1,
            ProviderIdentity::Ebay => 2,
            ProviderIdentity::Amazon => 3,
        }
    }

    /// The provider stored as `code`, where one is.
    pub fn from_code(code: u16) -> (p: Option<ProviderIdentity>)
        ensures
            p == provider_of_code(code),
    {
        if code == 1 {
            Some(ProviderIdentity::Aliexpress)
        } else if code == 2 {
            Some(ProviderIdentity::Ebay)
        } else if code == 3 {
            Some(ProviderIdentity::Amazon)
        } else {
            None
        }
    }
}

/// A time as whole seconds since the Unix epoch.
#[derive(Debug)]
pub struct Timestamp {
    pub value: u64,
}

/// Calls std's `SystemTime::now().duration_since(UNIX_EPOCH)`: the whole seconds since the
/// epoch, or the error's text where the clock stands before it. The reading depends on the
/// clock: nothing is stated of it.
#[verifier::external_body]
fn seconds_since_epoch() -> Result<u64, String> {
    match std::time::SystemTime::now().duration_since(std::time::UNIX_EPOCH) {
        Ok(v) => Ok(v.as_secs()),
        Err(e) => Err(e.to_string()),
    }
}

impl Timestamp {
    /// The current time, or the clock's complaint where it stands before the epoch.
    pub fn now() -> (r: BoxResult<Timestamp>) {
        match seconds_since_epoch() {
            Err(e) => UnexpectedError::new_as_box_result(e.as_str()),
            Ok(v) => Ok(Timestamp { value: v }),
        }
    }
}

/// A category of products. Level 1 categories hold level 2 ones, which hold level 3 ones.
#[derive(Debug, Clone)]
pub struct Category {
    pub identity: u64,
    pub parent_identity: Option<u64>,
    pub name: String,
    pub name_url: String,
    pub level: u32,
}

/// The abstract value of a [`Category`].
pub ghost struct CategoryView {
    pub identity: u64,
    pub parent_identity: Option<u64>,
    pub name: Seq<char>,
    pub name_url: Seq<char>,
    pub level: u32,
}

impl View for Category {
    type V = CategoryView;

    open spec fn view(&self) -> CategoryView {
        CategoryView {
            identity: self.identity,
            parent_identity: self.parent_identity,
            name: self.name@,
            name_url: self.name_url@,
            level: self.level,
        }
    }
}


pub open spec fn categories_view(v: Seq<Category>) -> Seq<CategoryView> {
    v.map_values(|c: Category| c@)
}

/// What a step that gives a category gave, by views.
pub open spec fn category_outcome(r: PullResult<Category>) -> Result<CategoryView, PullErrorView> {
    match r {
        Ok(c) => Ok(c@),
        Err(e) => Err(e@),
    }
}

/// What a step that gives categories gave, by views.
pub open spec fn categories_outcome(r: PullResult<Vec<Category>>) -> Result<Seq<CategoryView>, PullErrorView> {
    match r {
        Ok(v) => Ok(categories_view(v@)),
        Err(e) => Err(e@),
    }
}

} // verus!
