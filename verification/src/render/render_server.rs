use vstd::prelude::*;

verus! {

/// Index of a material in the render server's material list.
pub type MaterialId = usize;

/// Index of a mesh in the render server's mesh list.
pub type MeshId = usize;

/// The model a mesh was loaded from, if any.
#[derive(Debug)]
pub struct ModelId(pub Option<usize>);

/// The meshes and materials uploaded so far, in upload order. Each one is
/// identified by its position in its list: the id handed out when it is
/// pushed.
pub struct RenderServer<Me, Ma> {
    meshes: Vec<Me>,
    materials: Vec<Ma>,
}

impl<Me, Ma> RenderServer<Me, Ma> {
    /// The meshes in upload order.
    pub closed spec fn mesh_list(&self) -> Seq<Me> {
        self.meshes@
    }

    /// The materials in upload order.
    pub closed spec fn material_list(&self) -> Seq<Ma> {
        self.materials@
    }

    pub fn new() -> (r: Self)
        ensures
            r.mesh_list() == Seq::<Me>::empty(),
            r.material_list() == Seq::<Ma>::empty(),
    {
        let meshes = Vec::new();
        let materials = Vec::new();

        Self { meshes, materials }
    }

    /// The id that the next material pushed will get.
    pub fn next_material_id(&self) -> (r: MaterialId)
        ensures
            r == self.material_list().len(),
    {
        self.materials.len()
    }

    /// Appends `material` and returns its id, its position in the list.
    pub fn push_material(&mut self, material: Ma) -> (r: MaterialId)
        ensures
            r == old(self).material_list().len(),
            final(self).material_list() == old(self).material_list().push(material),
            final(self).mesh_list() == old(self).mesh_list(),
    {
        let material_id = self.materials.len();
        self.materials.push(material);
        material_id
    }

    /// The id that the next mesh pushed will get.
    pub fn next_mesh_id(&self) -> (r: MeshId)
        ensures
            r == self.mesh_list().len(),
    {
        self.meshes.len()
    }

    /// Appends `mesh` and returns its id, its position in the list.
    pub fn push_mesh(&mut self, mesh: Me) -> (r: MeshId)
        ensures
            r == old(self).mesh_list().len(),
            final(self).mesh_list() == old(self).mesh_list().push(mesh),
            final(self).material_list() == old(self).material_list(),
    {
        let mesh_id = self.meshes.len();
        self.meshes.push(mesh);
        mesh_id
    }

    /// The material with id `material_id`.
    pub fn get_material(&self, material_id: MaterialId) -> (r: &Ma)
        requires
            material_id < self.material_list().len(),
        ensures
            *r == self.material_list()[material_id as int],
    {
        &self.materials[material_id]
    }

    pub fn meshes(&self) -> (r: &Vec<Me>)
        ensures
            r@ == self.mesh_list(),
    {
        &self.meshes
    }

    pub fn materials(&self) -> (r: &Vec<Ma>)
        ensures
            r@ == self.material_list(),
    {
        &self.materials
    }
}

impl<Me, Ma> Default for RenderServer<Me, Ma> {
    fn default() -> (r: Self)
        ensures
            r.mesh_list() == Seq::<Me>::empty(),
            r.material_list() == Seq::<Ma>::empty(),
    {
        Self::new()
    }
}

/// A material pushed onto the server is found again under the id it was
/// given, and every material pushed before it keeps its id.
pub proof fn lemma_pushed_material_found<Me, Ma>(
    before: RenderServer<Me, Ma>,
    after: RenderServer<Me, Ma>,
    material: Ma,
    id: MaterialId,
    earlier: MaterialId,
)
    requires
        id == before.material_list().len(),
        after.material_list() == before.material_list().push(material),
    ensures
        id < after.material_list().len(),
        after.material_list()[id as int] == material,
        earlier < id ==> after.material_list()[earlier as int] == before.material_list()[earlier as int],
{
}

/// A mesh pushed onto the server is found again under the id it was given,
/// and every mesh pushed before it keeps its id.
pub proof fn lemma_pushed_mesh_found<Me, Ma>(
    before: RenderServer<Me, Ma>,
    after: RenderServer<Me, Ma>,
    mesh: Me,
    id: MeshId,
    earlier: MeshId,
)
    requires
        id == before.mesh_list().len(),
        after.mesh_list() == before.mesh_list().push(mesh),
    ensures
        id < after.mesh_list().len(),
        after.mesh_list()[id as int] == mesh,
        earlier < id ==> after.mesh_list()[earlier as int] == before.mesh_list()[earlier as int],
{
}

} // verus!
