use vstd::prelude::*;

verus! {

/// What a chunk stores for each voxel: `0` is empty space, any other value
/// names a registered voxel type.
pub type VoxelTypeIdentifier = u16;

/// A kind of voxel, told apart by its number.
#[derive(Debug, Clone, Copy, PartialEq, Eq, Structural, Hash)]
pub struct VoxelType {
    pub kind: u32,
}

/// The voxel types known to a chunk. Identifier `i + 1` names the `i`-th
/// registered type; no type is registered twice.
#[derive(Debug)]
pub struct VoxelRegistry {
    types: Vec<VoxelType>,
}

impl View for VoxelRegistry {
    type V = Seq<VoxelType>;

    closed spec fn view(&self) -> Seq<VoxelType> {
        self.types@
    }
}

/// No type occurs twice, and every identifier fits in a `u16`.
pub open spec fn registry_wf(types: Seq<VoxelType>) -> bool {
    &&& types.len() < 0x10000
    &&& forall|i: int, j: int| 0 <= i < j < types.len() ==> types[i] != types[j]
}

/// `id` names a registered type.
pub open spec fn id_registered(types: Seq<VoxelType>, id: int) -> bool {
    1 <= id <= types.len()
}

/// The type that `id` names, if any.
pub open spec fn type_of_id(types: Seq<VoxelType>, id: int) -> Option<VoxelType> {
    if id_registered(types, id) {
        Some(types[id - 1])
    } else {
        None
    }
}

/// The identifier of `t`, if it is registered.
pub open spec fn id_of_type(types: Seq<VoxelType>, t: VoxelType) -> Option<VoxelTypeIdentifier> {
    if types.contains(t) {
        Some((types.index_of(t) + 1) as VoxelTypeIdentifier)
    } else {
        None
    }
}

impl VoxelRegistry {
    #[verifier::type_invariant]
    closed spec fn inv(&self) -> bool {
        registry_wf(self.types@)
    }

    /// The number of registered types; the registry lists them without
    /// repeats.
    pub fn len(&self) -> (r: usize)
        ensures
            r == self@.len(),
            registry_wf(self@),
    {
        proof {
            use_type_invariant(self);
        }
        self.types.len()
    }

    /// The identifier of `voxel_type`, or `None` when it is not registered.
    pub fn get_id(&self, voxel_type: VoxelType) -> (r: Option<VoxelTypeIdentifier>)
        ensures
            r == id_of_type(self@, voxel_type),
            registry_wf(self@),
    {
        proof {
            use_type_invariant(self);
        }
        let mut i: usize = 0;
        while i < self.types.len()
            invariant
                i <= self.types@.len(),
                registry_wf(self.types@),
                forall|j: int| 0 <= j < i ==> self.types@[j] != voxel_type,
            decreases self.types@.len() - i,
        {
            if self.types[i] == voxel_type {
                proof {
                    lemma_index_of_unique(self.types@, voxel_type, i as int);
                }
                return Some((i + 1) as VoxelTypeIdentifier);
            }
            i += 1;
        }
        None
    }

    /// The type that `id` names, or `None` when `id` names none.
    pub fn get_type(&self, id: VoxelTypeIdentifier) -> (r: Option<VoxelType>)
        ensures
            r == type_of_id(self@, id as int),
            registry_wf(self@),
    {
        proof {
            use_type_invariant(self);
        }
        if id >= 1 && (id as usize) <= self.types.len() {
            Some(self.types[(id - 1) as usize])
        } else {
            None
        }
    }

    /// Registers `voxel_type` if it is new and hands back its identifier;
    /// `None` when the registry already names as many types as a `u16` can.
    pub fn register(&mut self, voxel_type: VoxelType) -> (r: Option<VoxelTypeIdentifier>)
        ensures
            old(self)@.contains(voxel_type) ==> final(self)@ == old(self)@ && r == id_of_type(old(self)@, voxel_type),
            !old(self)@.contains(voxel_type) && old(self)@.len() < 0xffff ==> final(self)@ == old(self)@.push(voxel_type)
                && r == Some((old(self)@.len() + 1) as VoxelTypeIdentifier),
            !old(self)@.contains(voxel_type) && old(self)@.len() >= 0xffff ==> final(self)@ == old(self)@ && r is None,
    {
        proof {
            use_type_invariant(&*self);
        }
        match self.get_id(voxel_type) {
            Some(id) => Some(id),
            None => {
                if self.types.len() < 0xffff {
                    let id = (self.types.len() + 1) as VoxelTypeIdentifier;
                    proof {
                        assert forall|i: int, j: int| 0 <= i < j < self.types@.push(voxel_type).len()
                            implies self.types@.push(voxel_type)[i] != self.types@.push(voxel_type)[j] by {
                            if j == self.types@.len() {
                                assert(self.types@[i] == self.types@.push(voxel_type)[i]);
                            }
                        }
                    }
                    let mut types = Vec::new();
                    std::mem::swap(&mut types, &mut self.types);
                    types.push(voxel_type);
                    self.types = types;
                    Some(id)
                } else {
                    None
                }
            }
        }
    }
}

impl Default for VoxelRegistry {
    fn default() -> (r: Self)
        ensures
            r@ == Seq::<VoxelType>::empty(),
    {
        VoxelRegistry { types: Vec::new() }
    }
}

/// In a sequence without repeats, `index_of` finds the one position of an
/// element.
pub proof fn lemma_index_of_unique(types: Seq<VoxelType>, t: VoxelType, i: int)
    requires
        registry_wf(types),
        0 <= i < types.len(),
        types[i] == t,
    ensures
        types.contains(t),
        types.index_of(t) == i,
{
    assert(types.contains(t));
    let k = types.index_of(t);
    assert(types[k] == t);
    if k != i {
        if k < i {
            assert(types[k] != types[i]);
        } else {
            assert(types[i] != types[k]);
        }
    }
}

/// Looking up the identifier of a registered type, then the type of that
/// identifier, gives the type back.
pub proof fn lemma_type_of_id_of_type(types: Seq<VoxelType>, t: VoxelType)
    requires
        registry_wf(types),
        types.contains(t),
    ensures
        id_of_type(types, t) matches Some(id) && id_registered(types, id as int)
            && type_of_id(types, id as int) == Some(t),
{
    let k = types.index_of(t);
    assert(types[k] == t);
}

/// Looking up the type of a registered identifier, then its identifier,
/// gives the identifier back.
pub proof fn lemma_id_of_type_of_id(types: Seq<VoxelType>, id: int)
    requires
        registry_wf(types),
        id_registered(types, id),
    ensures
        type_of_id(types, id) matches Some(t) && id_of_type(types, t) == Some(id as VoxelTypeIdentifier),
{
    lemma_index_of_unique(types, types[id - 1], id - 1);
}

} // verus!
