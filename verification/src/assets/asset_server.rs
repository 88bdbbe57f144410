use std::rc::Rc;

use vstd::prelude::*;

use crate::asset::{Asset, NameView};

verus! {

/// Makes another pointer to the same shared asset (`Rc::clone`), which
/// refers to the same value.
#[verifier::external_body]
fn share<T>(rc: &Rc<T>) -> (r: Rc<T>)
    ensures
        *r == **rc,
{
    Rc::clone(rc)
}

/// Some entry of `entries` is stored under the file name `name`.
pub open spec fn has_name<T>(entries: Seq<(String, Rc<T>)>, name: NameView) -> bool {
    exists|i: int| 0 <= i < entries.len() && (#[trigger] entries[i]).0@ == name
}

/// No two entries share a file name.
pub open spec fn names_unique<T>(entries: Seq<(String, Rc<T>)>) -> bool {
    forall|i: int, j: int| 0 <= i < j < entries.len() ==> (#[trigger] entries[i]).0@ != (#[trigger] entries[j]).0@
}

/// The assets of `entries`, by file name.
pub open spec fn entries_view<T>(entries: Seq<(String, Rc<T>)>) -> Map<NameView, T> {
    Map::new(
        |name: NameView| has_name(entries, name),
        |name: NameView| *entries[choose|i: int| 0 <= i < entries.len() && (#[trigger] entries[i]).0@ == name].1,
    )
}

/// `after` is `before` with `asset` stored under `name`, and `previous` is
/// what `before` held under `name`.
pub open spec fn stored_at<T>(before: Map<NameView, T>, after: Map<NameView, T>, previous: Option<Rc<T>>, name: NameView, asset: T) -> bool {
    &&& after == before.insert(name, asset)
    &&& match previous {
        Some(prev) => before.contains_key(name) && *prev == before[name],
        None => !before.contains_key(name),
    }
}

/// A store of shared assets of one type, keyed by their file name, which
/// is an asset's identity.
pub struct AssetServer<T> {
    entries: Vec<(String, Rc<T>)>,
}

impl<T> View for AssetServer<T> {
    type V = Map<NameView, T>;

    closed spec fn view(&self) -> Map<NameView, T> {
        entries_view(self.entries@)
    }
}

/// In entries without repeated names, the entry at `i` is the one the view
/// holds under its name.
proof fn lemma_view_at<T>(entries: Seq<(String, Rc<T>)>, i: int)
    requires
        names_unique(entries),
        0 <= i < entries.len(),
    ensures
        entries_view(entries).contains_key(entries[i].0@),
        entries_view(entries)[entries[i].0@] == *entries[i].1,
{
    let name = entries[i].0@;
    assert(has_name(entries, name));
    let j = choose|j: int| 0 <= j < entries.len() && (#[trigger] entries[j]).0@ == name;
    if j != i {
        if j < i {
            assert(entries[j].0@ != entries[i].0@);
        } else {
            assert(entries[i].0@ != entries[j].0@);
        }
    }
}

impl<T> AssetServer<T> {
    #[verifier::type_invariant]
    spec fn inv(&self) -> bool {
        names_unique(self.entries@)
    }

    /// The position of the entry stored under `name`, if any.
    fn position(&self, name: &String) -> (r: Option<usize>)
        ensures
            match r {
                Some(i) => i < self.entries@.len() && self.entries@[i as int].0@ == name@,
                None => !has_name(self.entries@, name@),
            },
    {
        let mut i: usize = 0;
        while i < self.entries.len()
            invariant
                i <= self.entries@.len(),
                forall|j: int| 0 <= j < i ==> (#[trigger] self.entries@[j]).0@ != name@,
            decreases self.entries@.len() - i,
        {
            if self.entries[i].0 == *name {
                return Some(i);
            }
            i = i + 1;
        }
        None
    }
}

impl<T: Asset> AssetServer<T> {
    pub fn new() -> (r: Self)
        ensures
            r@ == Map::<NameView, T>::empty(),
    {
        let r = Self { entries: Vec::new() };
        assert(r@ =~= Map::<NameView, T>::empty());
        r
    }

    /// Stores `asset` under its file name and hands back the asset that was
    /// stored under that name before, if any.
    pub fn insert(&mut self, asset: T) -> (r: Option<Rc<T>>)
        ensures
            stored_at(old(self)@, final(self)@, r, asset.name_view(), asset),
    {
        proof {
            use_type_invariant(&*self);
        }
        let name: String = asset.file_name().to_owned();
        let ghost n = name@;
        let ghost before = self.entries@;
        match self.position(&name) {
            Some(i) => {
                let previous = share(&self.entries[i].1);
                proof {
                    lemma_view_at(before, i as int);
                }
                let mut entries: Vec<(String, Rc<T>)> = Vec::new();
                std::mem::swap(&mut entries, &mut self.entries);
                entries.set(i, (name, Rc::new(asset)));
                proof {
                    let after = entries@;
                    assert forall|a: int, b: int| 0 <= a < b < after.len() implies (#[trigger] after[a]).0@
                        != (#[trigger] after[b]).0@ by {
                        assert(before[a].0@ != before[b].0@);
                    }
                    assert forall|name2: NameView| #[trigger] has_name(after, name2) == has_name(before, name2) by {
                        if has_name(after, name2) {
                            let k = choose|k: int| 0 <= k < after.len() && (#[trigger] after[k]).0@ == name2;
                            assert(before[k].0@ == name2);
                        }
                        if has_name(before, name2) {
                            let k = choose|k: int| 0 <= k < before.len() && (#[trigger] before[k]).0@ == name2;
                            assert(after[k].0@ == name2);
                        }
                    }
                    assert forall|name2: NameView| #[trigger] has_name(after, name2) implies entries_view(after)[name2]
                        == entries_view(before).insert(n, asset)[name2] by {
                        let k = choose|k: int| 0 <= k < after.len() && (#[trigger] after[k]).0@ == name2;
                        lemma_view_at(after, k);
                        lemma_view_at(before, k);
                    }
                    assert(entries_view(after) =~= entries_view(before).insert(n, asset));
                }
                self.entries = entries;
                Some(previous)
            },
            None => {
                let mut entries: Vec<(String, Rc<T>)> = Vec::new();
                std::mem::swap(&mut entries, &mut self.entries);
                entries.push((name, Rc::new(asset)));
                proof {
                    let after = entries@;
                    let last = before.len() as int;
                    assert forall|a: int, b: int| 0 <= a < b < after.len() implies (#[trigger] after[a]).0@
                        != (#[trigger] after[b]).0@ by {
                        if b == last {
                            assert(after[a] == before[a]);
                            assert(before[a].0@ != n);
                        } else {
                            assert(before[a].0@ != before[b].0@);
                        }
                    }
                    assert forall|name2: NameView| #[trigger] has_name(after, name2) == (has_name(before, name2)
                        || name2 == n) by {
                        if has_name(before, name2) {
                            let k = choose|k: int| 0 <= k < before.len() && (#[trigger] before[k]).0@ == name2;
                            assert(after[k].0@ == name2);
                        }
                        if name2 == n {
                            assert(after[last].0@ == name2);
                        }
                        if has_name(after, name2) && name2 != n {
                            let k = choose|k: int| 0 <= k < after.len() && (#[trigger] after[k]).0@ == name2;
                            assert(k != last);
                            assert(before[k].0@ == name2);
                        }
                    }
                    assert forall|name2: NameView| #[trigger] has_name(after, name2) implies entries_view(after)[name2]
                        == entries_view(before).insert(n, asset)[name2] by {
                        let k = choose|k: int| 0 <= k < after.len() && (#[trigger] after[k]).0@ == name2;
                        lemma_view_at(after, k);
                        if k != last {
                            lemma_view_at(before, k);
                        }
                    }
                    assert(entries_view(after) =~= entries_view(before).insert(n, asset));
                }
                self.entries = entries;
                None
            },
        }
    }

    /// The asset stored under `file_name`, if any.
    pub fn get(&mut self, file_name: &str) -> (r: Option<Rc<T>>)
        ensures
            *final(self) == *old(self),
            match r {
                Some(found) => old(self)@.contains_key(file_name@) && *found == old(self)@[file_name@],
                None => !old(self)@.contains_key(file_name@),
            },
    {
        proof {
            use_type_invariant(&*self);
        }
        let name: String = file_name.to_owned();
        match self.position(&name) {
            Some(i) => {
                proof {
                    lemma_view_at(self.entries@, i as int);
                }
                Some(share(&self.entries[i].1))
            },
            None => None,
        }
    }
}

/// After `insert(asset)`, which stores it under `asset.name_view()`, `get`
/// with the asset's own file name finds that asset, and any other name
/// sees what it saw before: present with the same asset, or absent.
pub proof fn lemma_get_after_insert<T>(before: Map<NameView, T>, stored_name: NameView, asset: T, name: NameView)
    ensures
        ({
            let after = before.insert(stored_name, asset);
            &&& name == stored_name ==> after.contains_key(name) && after[name] == asset
            &&& name != stored_name ==> after.contains_key(name) == before.contains_key(name)
            &&& name != stored_name && before.contains_key(name) ==> after[name] == before[name]
        }),
{
}

/// Storing a second asset under the name of a first hands the first one
/// back and leaves the second in its place, with no other name touched.
pub proof fn lemma_insert_replaces<T>(
    before: Map<NameView, T>,
    middle: Map<NameView, T>,
    after: Map<NameView, T>,
    name: NameView,
    first: T,
    second: T,
    previous: Option<Rc<T>>,
)
    requires
        middle == before.insert(name, first),
        stored_at(middle, after, previous, name, second),
    ensures
        previous matches Some(prev) && *prev == first,
        after.contains_key(name) && after[name] == second,
        after.dom() == middle.dom(),
{
    assert(after.dom() =~= middle.dom());
}

} // verus!
