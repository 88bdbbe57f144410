use vstd::prelude::*;

verus! {

/// Identifies a text label by the order in which it was added.
#[derive(PartialEq, Eq, Clone, Copy, Structural)]
pub struct GlyphonLabelId(pub u32);

/// The ids are the positions: entry `i` carries `GlyphonLabelId(i)`.
pub open spec fn ids_in_order<L>(entries: Seq<(GlyphonLabelId, L)>) -> bool {
    forall|i: int| 0 <= i < entries.len() ==> (#[trigger] entries[i]).0 == GlyphonLabelId(i as u32)
}

/// Text labels with the ids they were given, in the order they were added.
pub struct LabelList<L> {
    labels: Vec<(GlyphonLabelId, L)>,
    labels_generated: u32,
}

impl<L> LabelList<L> {
    /// The labels with their ids, in the order they were added.
    pub closed spec fn entries(&self) -> Seq<(GlyphonLabelId, L)> {
        self.labels@
    }

    /// How many ids have been handed out.
    pub closed spec fn generated(&self) -> nat {
        self.labels_generated as nat
    }

    /// Every label added got the next id in turn, and the count of ids
    /// handed out is the number of labels.
    pub closed spec fn well_formed(&self) -> bool {
        &&& ids_in_order(self.labels@)
        &&& self.labels_generated as nat == self.labels@.len()
    }

    pub fn new() -> (r: Self)
        ensures
            r.well_formed(),
            r.entries() == Seq::<(GlyphonLabelId, L)>::empty(),
            r.generated() == 0,
    {
        let labels = Vec::new();
        let labels_generated: u32 = 0;

        Self { labels, labels_generated }
    }

    /// Adds `label` under the next id and returns that id.
    pub fn add_label(&mut self, label: L) -> (r: GlyphonLabelId)
        requires
            old(self).well_formed(),
            old(self).generated() < u32::MAX,
        ensures
            final(self).well_formed(),
            r == GlyphonLabelId(old(self).generated() as u32),
            r.0 == old(self).entries().len(),
            final(self).entries() == old(self).entries().push((r, label)),
            final(self).generated() == old(self).generated() + 1,
    {
        let id = GlyphonLabelId(self.labels_generated);
        self.labels.push((id, label));
        self.labels_generated = self.labels_generated + 1;
        assert(ids_in_order(self.labels@)) by {
            assert forall|i: int| 0 <= i < self.labels@.len() implies (#[trigger] self.labels@[i]).0
                == GlyphonLabelId(i as u32) by {
                if i < old(self).labels@.len() {
                    assert(self.labels@[i] == old(self).labels@[i]);
                }
            }
        }
        id
    }

    /// The position of the label with id `id`, if there is one: the first
    /// entry that carries that id.
    pub fn find(&self, id: GlyphonLabelId) -> (r: Option<usize>)
        ensures
            match r {
                Some(i) => i < self.entries().len() && self.entries()[i as int].0 == id && forall|j: int|
                    0 <= j < i ==> (#[trigger] self.entries()[j]).0 != id,
                None => forall|j: int| 0 <= j < self.entries().len() ==> (#[trigger] self.entries()[j]).0 != id,
            },
    {
        let mut i: usize = 0;
        while i < self.labels.len()
            invariant
                i <= self.labels@.len(),
                forall|j: int| 0 <= j < i ==> (#[trigger] self.labels@[j]).0 != id,
            decreases self.labels@.len() - i,
        {
            if self.labels[i].0 == id {
                return Some(i);
            }
            i = i + 1;
        }
        None
    }

    /// The label at position `index`, to change in place; its id stays.
    pub fn label_mut(&mut self, index: usize) -> (r: &mut L)
        requires
            index < old(self).entries().len(),
        ensures
            *r == old(self).entries()[index as int].1,
            final(self).entries() == old(self).entries().update(
                index as int,
                (old(self).entries()[index as int].0, *final(r)),
            ),
            final(self).generated() == old(self).generated(),
            old(self).well_formed() ==> final(self).well_formed(),
    {
        &mut self.labels[index].1
    }

    /// The labels with their ids, in the order they were added.
    pub fn labels(&self) -> (r: &Vec<(GlyphonLabelId, L)>)
        ensures
            r@ == self.entries(),
    {
        &self.labels
    }
}

/// In a well-formed list each label sits at the position its id names,
/// so no two labels share an id and `find` on the id that `add_label`
/// handed out gives back the position of that label.
pub proof fn lemma_ids_are_positions<L>(list: LabelList<L>, i: int, j: int)
    requires
        list.well_formed(),
        0 <= i < list.entries().len(),
        0 <= j < list.entries().len(),
    ensures
        list.entries()[i].0 == GlyphonLabelId(i as u32),
        i != j ==> list.entries()[i].0 != list.entries()[j].0,
{
    assert(list.entries()[i].0 == GlyphonLabelId(i as u32));
    assert(list.entries()[j].0 == GlyphonLabelId(j as u32));
}

} // verus!
