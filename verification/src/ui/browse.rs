//! The selection behind the page that lists the registry.

use crate::domain::category::{all_categories, ModuleCategory};
use crate::domain::registry::{lowercase, lowercased, RegistryModule};
use vstd::prelude::*;

verus! {

/// The category that the picker's entry `selected` stands for: entry 0 is
/// "all categories", the entries after it are the categories in their order.
pub open spec fn spec_selected_category(selected: u32) -> Option<ModuleCategory> {
    if 0 < selected <= all_categories().len() {
        Some(all_categories()[selected - 1])
    } else {
        None
    }
}

/// The category that the picker's entry `selected` stands for, if it stands
/// for one.
pub fn selected_category(selected: u32) -> (category: Option<ModuleCategory>)
    ensures
        category == spec_selected_category(selected),
{
    if selected == 0 {
        return None;
    }
    let all = ModuleCategory::all();
    let at = (selected - 1) as usize;
    if at < all.len() {
        Some(all[at])
    } else {
        None
    }
}

/// The module passes the filters: the lowercased query is empty or the
/// module matches it, and no category is picked or it is the module's.
pub open spec fn is_shown(
    module: RegistryModule,
    query: Seq<char>,
    category: Option<ModuleCategory>,
) -> bool {
    &&& lowercased(query).len() == 0 || module.spec_matches_search(lowercased(query))
    &&& category is None || category == Some(module.category)
}

/// The positions of the modules that pass the filters, among the first
/// `upto`, in order.
pub open spec fn shown_before(
    modules: Seq<RegistryModule>,
    query: Seq<char>,
    category: Option<ModuleCategory>,
    upto: int,
) -> Seq<int>
    decreases upto,
{
    if upto <= 0 {
        Seq::empty()
    } else {
        let before = shown_before(modules, query, category, upto - 1);
        if is_shown(modules[upto - 1], query, category) {
            before.push(upto - 1)
        } else {
            before
        }
    }
}

/// The positions as mathematical integers.
pub open spec fn positions_of(shown: Seq<usize>) -> Seq<int> {
    Seq::new(shown.len(), |i: int| shown[i] as int)
}

/// The positions of the modules to show for the search text `query` and the
/// picked `category`, in the order of the list.
pub fn apply_filters(
    modules: &Vec<RegistryModule>,
    query: &str,
    category: Option<ModuleCategory>,
) -> (shown: Vec<usize>)
    ensures
        positions_of(shown@) == shown_before(modules@, query@, category, modules@.len() as int),
{
    let lower = lowercase(query);
    let unfiltered = lower.as_str().is_empty();
    let mut shown: Vec<usize> = Vec::new();
    let mut i: usize = 0;
    proof {
        assert(positions_of(shown@) =~= Seq::<int>::empty());
    }
    while i < modules.len()
        invariant
            i <= modules@.len(),
            lower@ == lowercased(query@),
            unfiltered == (lowercased(query@).len() == 0),
            positions_of(shown@) == shown_before(modules@, query@, category, i as int),
        decreases modules@.len() - i,
    {
        let module = &modules[i];
        let matches_search = unfiltered || module.matches_search(lower.as_str());
        let matches_category = match category {
            None => true,
            Some(picked) => picked == module.category,
        };
        if matches_search && matches_category {
            let ghost before = positions_of(shown@);
            shown.push(i);
            proof {
                assert(positions_of(shown@) =~= before.push(i as int));
            }
        }
        i += 1;
    }
    shown
}

/// How many cards the page shows: one for each module that passes the
/// filters.
pub fn module_count(
    modules: &Vec<RegistryModule>,
    query: &str,
    category: Option<ModuleCategory>,
) -> (count: usize)
    ensures
        count == shown_before(modules@, query@, category, modules@.len() as int).len(),
{
    let shown = apply_filters(modules, query, category);
    assert(positions_of(shown@).len() == shown@.len());
    shown.len()
}

} // verus!
