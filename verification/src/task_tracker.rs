use vstd::prelude::*;
use std::collections::HashMap;
use crate::database::Task;

verus! {

/// A pulling task that is saved under a name and resumed from its saved state.
pub trait GeneralTask<S>: Sized {
    /// The state the task is in.
    spec fn task_state(&self) -> S;

    /// The state a task starts in when none was saved.
    spec fn initial_state() -> S;

    /// The name the task is saved under.
    spec fn task_name() -> Seq<char>;

    fn identity() -> (id: String)
        ensures
            id@ == Self::task_name(),
    ;

    /// A task in the saved `state`, or in the initial one where none was saved.
    fn new(state: Option<S>) -> (t: Self)
        ensures
            t.task_state() == match state {
                Some(s) => s,
                None => Self::initial_state(),
            },
    ;

    fn state(&self) -> (s: &S)
        ensures
            *s == self.task_state(),
    ;

    fn state_mut(&mut self) -> (s: &mut S)
        ensures
            *s == old(self).task_state(),
            final(self).task_state() == *final(s),
    ;
}

/// Where pulling categories stands.
#[derive(Debug, Clone, Copy, PartialEq, Eq, Structural)]
pub struct CategoryState {
    pub done: bool,
    pub prepared: bool,
    pub from_identity: u64,
}

pub struct CategoryTask {
    current_state: CategoryState,
}

impl GeneralTask<CategoryState> for CategoryTask {
    closed spec fn task_state(&self) -> CategoryState {
        self.current_state
    }

    open spec fn initial_state() -> CategoryState {
        CategoryState { done: false, prepared: false, from_identity: 0 }
    }

    open spec fn task_name() -> Seq<char> {
        "pull.category"@
    }

    fn identity() -> (id: String) {
        "pull.category".to_owned()
    }

    fn new(state: Option<CategoryState>) -> (t: Self) {
        match state {
            None => CategoryTask {
                current_state: CategoryState { done: false, from_identity: 0, prepared: false },
            },
            Some(v) => CategoryTask { current_state: v },
        }
    }

    fn state(&self) -> (s: &CategoryState) {
        &self.current_state
    }

    fn state_mut(&mut self) -> (s: &mut CategoryState) {
        &mut self.current_state
    }
}

/// Where pulling products stands: the category being pulled and its page.
#[derive(Debug, Clone, Copy, PartialEq, Eq, Structural)]
pub struct ProductState {
    pub category_identity: u64,
    pub category_page_index: u32,
    pub done: bool,
}

impl ProductState {
    pub fn new() -> (s: Self)
        ensures
            s == (ProductState { category_identity: 0, category_page_index: 0, done: false }),
    {
        ProductState { category_identity: 0, category_page_index: 0, done: false }
    }
}

pub struct ProductTask {
    current_state: ProductState,
}

impl GeneralTask<ProductState> for ProductTask {
    closed spec fn task_state(&self) -> ProductState {
        self.current_state
    }

    open spec fn initial_state() -> ProductState {
        ProductState { category_identity: 0, category_page_index: 0, done: false }
    }

    open spec fn task_name() -> Seq<char> {
        "pull.product"@
    }

    fn identity() -> (id: String) {
        "pull.product".to_owned()
    }

    fn new(state: Option<ProductState>) -> (t: Self) {
        match state {
            None => ProductTask { current_state: ProductState::new() },
            Some(v) => ProductTask { current_state: v },
        }
    }

    fn state(&self) -> (s: &ProductState) {
        &self.current_state
    }

    fn state_mut(&mut self) -> (s: &mut ProductState) {
        &mut self.current_state
    }
}

/// Where pulling stores stands: the store owner being pulled.
#[derive(Debug, Clone, Copy, PartialEq, Eq, Structural)]
pub struct StoreState {
    pub store_owner_identity: u64,
    pub store_owner_prepared: bool,
    pub done: bool,
}

impl StoreState {
    fn new() -> (s: Self)
        ensures
            s == (StoreState { store_owner_identity: 0, store_owner_prepared: false, done: false }),
    {
        StoreState { store_owner_identity: 0, store_owner_prepared: false, done: false }
    }
}

pub struct StoreTask {
    current_state: StoreState,
}

impl GeneralTask<StoreState> for StoreTask {
    closed spec fn task_state(&self) -> StoreState {
        self.current_state
    }

    open spec fn initial_state() -> StoreState {
        StoreState { store_owner_identity: 0, store_owner_prepared: false, done: false }
    }

    open spec fn task_name() -> Seq<char> {
        "pull.store"@
    }

    fn identity() -> (id: String) {
        "pull.store".to_owned()
    }

    fn new(state: Option<StoreState>) -> (t: Self) {
        match state {
            None => StoreTask { current_state: StoreState::new() },
            Some(v) => StoreTask { current_state: v },
        }
    }

    fn state(&self) -> (s: &StoreState) {
        &self.current_state
    }

    fn state_mut(&mut self) -> (s: &mut StoreState) {
        &mut self.current_state
    }
}

/// The saved tasks, by name.
pub struct TaskTracker {
    pub steps: HashMap<String, Task>,
}

} // verus!
