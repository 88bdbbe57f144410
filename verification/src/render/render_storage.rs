use vstd::prelude::*;

verus! {

/// Where a material sits in the render storage's material list.
#[derive(Clone, Copy, Debug)]
pub enum MaterialId {
    Index(usize),
}

/// Meshes and materials in the order they were stored.
pub struct RenderStorage<Me, Ma> {
    meshes: Vec<Me>,
    materials: Vec<Ma>,
}

impl<Me, Ma> RenderStorage<Me, Ma> {
    /// The meshes in the order they were stored.
    pub closed spec fn mesh_list(&self) -> Seq<Me> {
        self.meshes@
    }

    /// The materials in the order they were stored.
    pub closed spec fn material_list(&self) -> Seq<Ma> {
        self.materials@
    }

    pub fn new() -> (r: Self)
        ensures
            r.mesh_list() == Seq::<Me>::empty(),
            r.material_list() == Seq::<Ma>::empty(),
    {
        let meshes = Vec::new();
        let materials = Vec::new();

        Self { meshes, materials }
    }

    /// Appends `material` and returns where it now sits: the last index.
    pub fn push_material(&mut self, material: Ma) -> (r: MaterialId)
        ensures
            r == MaterialId::Index(old(self).material_list().len() as usize),
            final(self).material_list() == old(self).material_list().push(material),
            final(self).mesh_list() == old(self).mesh_list(),
    {
        self.materials.push(material);

        let idx = self.materials.len() - 1;
        MaterialId::Index(idx)
    }

    /// Appends `mesh`.
    pub fn push_mesh(&mut self, mesh: Me)
        ensures
            final(self).mesh_list() == old(self).mesh_list().push(mesh),
            final(self).material_list() == old(self).material_list(),
    {
        self.meshes.push(mesh);
    }

    pub fn meshes(&self) -> (r: &Vec<Me>)
        ensures
            r@ == self.mesh_list(),
    {
        &self.meshes
    }

    pub fn materials(&self) -> (r: &Vec<Ma>)
        ensures
            r@ == self.material_list(),
    {
        &self.materials
    }
}

impl<Me, Ma> Default for RenderStorage<Me, Ma> {
    fn default() -> (r: Self)
        ensures
            r.mesh_list() == Seq::<Me>::empty(),
            r.material_list() == Seq::<Ma>::empty(),
    {
        Self::new()
    }
}

/// The index that storing a material returns points at that material, and
/// the materials stored before it stay where they were.
pub proof fn lemma_stored_material_at_index<Me, Ma>(
    before: RenderStorage<Me, Ma>,
    after: RenderStorage<Me, Ma>,
    material: Ma,
    id: MaterialId,
    earlier: int,
)
    requires
        id == MaterialId::Index(before.material_list().len() as usize),
        after.material_list() == before.material_list().push(material),
        after.material_list().len() <= usize::MAX,
    ensures
        id->Index_0 < after.material_list().len(),
        after.material_list()[id->Index_0 as int] == material,
        0 <= earlier < before.material_list().len() ==> after.material_list()[earlier]
            == before.material_list()[earlier],
{
}

} // verus!
