//! The list behind the page of installed modules.

use crate::domain::installed::InstalledModule;
use vstd::prelude::*;

verus! {

/// The record at `at` has the identifier text `uuid`.
pub open spec fn is_module(modules: Seq<InstalledModule>, at: int, uuid: Seq<char>) -> bool {
    0 <= at < modules.len() && modules[at].uuid.text() == uuid
}

/// `at` is the first record with the identifier text `uuid`.
pub open spec fn is_first_module(modules: Seq<InstalledModule>, at: int, uuid: Seq<char>) -> bool {
    is_module(modules, at, uuid) && forall|j: int| 0 <= j < at ==> !is_module(modules, j, uuid)
}

/// The test that keeps every record but those of `uuid`.
pub open spec fn is_other_module(uuid: Seq<char>) -> spec_fn(InstalledModule) -> bool {
    |module: InstalledModule| module.uuid.text() != uuid
}

/// How many modules the page lists.
pub fn module_count(modules: &Vec<InstalledModule>) -> (count: usize)
    ensures
        count == modules@.len(),
{
    modules.len()
}

/// Position of the first record with the identifier text `uuid`.
pub fn position_of(modules: &Vec<InstalledModule>, uuid: &str) -> (found: Option<usize>)
    ensures
        match found {
            Some(at) => is_first_module(modules@, at as int, uuid@),
            None => forall|j: int| !is_module(modules@, j, uuid@),
        },
{
    let wanted = uuid.to_owned();
    let mut i: usize = 0;
    while i < modules.len()
        invariant
            i <= modules@.len(),
            wanted@ == uuid@,
            forall|j: int| 0 <= j < i ==> !is_module(modules@, j, uuid@),
        decreases modules@.len() - i,
    {
        let text = modules[i].uuid.to_string();
        if text == wanted {
            return Some(i);
        }
        i += 1;
    }
    None
}

/// Switches the module `uuid` on or off: the first record with that
/// identifier takes the new state, and nothing else changes. Where no record
/// has it, nothing changes at all.
pub fn update_module_state(modules: &mut Vec<InstalledModule>, uuid: &str, enabled: bool)
    ensures
        final(modules)@.len() == old(modules)@.len(),
        forall|j: int|
            0 <= j < old(modules)@.len() ==> #[trigger] final(modules)@[j] == (if is_first_module(
                old(modules)@,
                j,
                uuid@,
            ) {
                InstalledModule { enabled, ..old(modules)@[j] }
            } else {
                old(modules)@[j]
            }),
{
    let at = match position_of(modules, uuid) {
        Some(at) => at,
        None => {
            return ;
        },
    };
    let record = modules.remove(at);
    modules.insert(at, InstalledModule { enabled, ..record });
}

/// Takes every record of the module `uuid` off the list; the others stay,
/// in order.
pub fn remove_module(modules: &mut Vec<InstalledModule>, uuid: &str)
    ensures
        final(modules)@ == old(modules)@.filter(is_other_module(uuid@)),
{
    let wanted = uuid.to_owned();
    let mut all: Vec<InstalledModule> = Vec::new();
    std::mem::swap(modules, &mut all);
    proof {
        reveal(Seq::filter);
        assert(all@.take(0) =~= Seq::<InstalledModule>::empty());
    }
    for record in it: all
        invariant
            it.seq() == old(modules)@,
            wanted@ == uuid@,
            modules@ == old(modules)@.take(it.index() as int).filter(is_other_module(uuid@)),
    {
        let ghost i = it.index() as int;
        proof {
            let seen = old(modules)@.take(i);
            assert(old(modules)@.take(i + 1) =~= seen.push(record));
            seen.lemma_filter_push(record, is_other_module(uuid@));
        }
        let text = record.uuid.to_string();
        if !(text == wanted) {
            modules.push(record);
        }
    }
    proof {
        assert(old(modules)@.take(old(modules)@.len() as int) =~= old(modules)@);
    }
}

} // verus!
