use vstd::prelude::*;

verus! {

/// A vector of three coordinates of type `S`.
#[derive(Clone, Copy)]
pub struct Vec3<S> {
    pub x: S,
    pub y: S,
    pub z: S,
}

/// Where a particle starts and how fast it starts moving.
#[derive(Clone, Copy)]
pub struct ParticleData<S> {
    pub start_position: Vec3<S>,
    pub start_velocity: Vec3<S>,
}

/// The data of a mesh held on the CPU: vertex positions as consecutive
/// `x, y, z` coordinates, optional triangle indices and optional texture
/// coordinates.
pub struct CPUMesh<S> {
    pub positions: Vec<S>,
    pub indices: Option<Vec<u32>>,
    pub uvs: Option<Vec<S>>,
}

/// The coordinates of `v`, in the order `x, y, z`.
pub open spec fn coordinates<S>(v: Vec3<S>) -> Seq<S> {
    seq![v.x, v.y, v.z]
}

/// The start positions of the particles, as consecutive `x, y, z`
/// coordinates.
pub open spec fn flat_start_positions<S>(data: Seq<ParticleData<S>>) -> Seq<S>
    decreases data.len(),
{
    if data.len() == 0 {
        Seq::empty()
    } else {
        flat_start_positions(data.drop_last()) + coordinates(data.last().start_position)
    }
}

/// The start velocities of the particles, as consecutive `x, y, z`
/// coordinates.
pub open spec fn flat_start_velocities<S>(data: Seq<ParticleData<S>>) -> Seq<S>
    decreases data.len(),
{
    if data.len() == 0 {
        Seq::empty()
    } else {
        flat_start_velocities(data.drop_last()) + coordinates(data.last().start_velocity)
    }
}

/// How a set of particles is drawn: each instance is the mesh, drawn with
/// its triangle indices if it has them and else as consecutive vertices.
#[derive(Clone, Copy, PartialEq, Eq, Structural, Debug)]
pub enum DrawCall {
    Elements { instance_count: u32 },
    Arrays { vertex_count: u32, instance_count: u32 },
}

/// A copy of `v`.
fn copy_vec<T: Copy>(v: &Vec<T>) -> (r: Vec<T>)
    ensures
        r@ == v@,
{
    let mut r: Vec<T> = Vec::new();
    for i in 0..v.len()
        invariant
            r@ == v@.take(i as int),
    {
        r.push(v[i]);
        assert(r@ =~= v@.take(i + 1));
    }
    assert(v@.take(v.len() as int) =~= v@);
    r
}

/// Many instances of one mesh, each starting at its own position with its
/// own velocity and all moving with the same acceleration. The buffers hold
/// the data that the vertex buffers of the mesh and of the instances are
/// filled with.
pub struct Particles<S> {
    start_position_buffer: Vec<S>,
    start_velocity_buffer: Vec<S>,
    position_buffer: Vec<S>,
    uv_buffer: Option<Vec<S>>,
    index_buffer: Option<Vec<u32>>,
    pub acceleration: Vec3<S>,
    instance_count: u32,
}

impl<S: Copy> Particles<S> {
    /// The start positions of the instances, as `x, y, z` coordinates.
    pub closed spec fn start_positions(&self) -> Seq<S> {
        self.start_position_buffer@
    }

    /// The start velocities of the instances, as `x, y, z` coordinates.
    pub closed spec fn start_velocities(&self) -> Seq<S> {
        self.start_velocity_buffer@
    }

    /// The vertex positions of the mesh.
    pub closed spec fn positions(&self) -> Seq<S> {
        self.position_buffer@
    }

    /// The texture coordinates of the mesh, if it has them.
    pub closed spec fn uvs(&self) -> Option<Seq<S>> {
        match self.uv_buffer {
            Some(v) => Some(v@),
            None => None,
        }
    }

    /// The triangle indices of the mesh, if it has them.
    pub closed spec fn indices(&self) -> Option<Seq<u32>> {
        match self.index_buffer {
            Some(v) => Some(v@),
            None => None,
        }
    }

    /// The acceleration of every particle.
    pub closed spec fn spec_acceleration(&self) -> Vec3<S> {
        self.acceleration
    }

    /// The number of instances drawn.
    pub closed spec fn spec_instance_count(&self) -> u32 {
        self.instance_count
    }

    /// Particles of the mesh `cpu_mesh` moving with `acceleration`; no
    /// instance is drawn until the first update.
    pub fn new(cpu_mesh: &CPUMesh<S>, acceleration: &Vec3<S>) -> (r: Self)
        ensures
            r.positions() == cpu_mesh.positions@,
            r.indices() == (match cpu_mesh.indices {
                Some(v) => Some(v@),
                None => None,
            }),
            r.uvs() == (match cpu_mesh.uvs {
                Some(v) => Some(v@),
                None => None,
            }),
            r.start_positions() == Seq::<S>::empty(),
            r.start_velocities() == Seq::<S>::empty(),
            r.spec_acceleration() == *acceleration,
            r.spec_instance_count() == 0,
    {
        let position_buffer = copy_vec(&cpu_mesh.positions);
        let index_buffer = if let Some(ref ind) = cpu_mesh.indices {
            Some(copy_vec(ind))
        } else {
            None
        };
        let uv_buffer = if let Some(ref uvs) = cpu_mesh.uvs {
            Some(copy_vec(uvs))
        } else {
            None
        };
        Particles {
            position_buffer,
            index_buffer,
            uv_buffer,
            start_position_buffer: Vec::new(),
            start_velocity_buffer: Vec::new(),
            acceleration: *acceleration,
            instance_count: 0,
        }
    }

    /// Sets the instances: one per particle of `data`, in its order. The
    /// instance count is the number of particles, truncated to 32 bits.
    pub fn update(&mut self, data: &[ParticleData<S>])
        ensures
            final(self).start_positions() == flat_start_positions(data@),
            final(self).start_velocities() == flat_start_velocities(data@),
            final(self).spec_instance_count() == data@.len() as u32,
            final(self).positions() == old(self).positions(),
            final(self).uvs() == old(self).uvs(),
            final(self).indices() == old(self).indices(),
            final(self).spec_acceleration() == old(self).spec_acceleration(),
    {
        let mut start_position: Vec<S> = Vec::new();
        let mut start_velocity: Vec<S> = Vec::new();
        for i in 0..data.len()
            invariant
                start_position@ == flat_start_positions(data@.take(i as int)),
                start_velocity@ == flat_start_velocities(data@.take(i as int)),
        {
            let particle = data[i];
            start_position.push(particle.start_position.x);
            start_position.push(particle.start_position.y);
            start_position.push(particle.start_position.z);
            start_velocity.push(particle.start_velocity.x);
            start_velocity.push(particle.start_velocity.y);
            start_velocity.push(particle.start_velocity.z);
            assert(data@.take(i + 1).drop_last() =~= data@.take(i as int));
            assert(start_position@ =~= flat_start_positions(data@.take(i + 1)));
            assert(start_velocity@ =~= flat_start_velocities(data@.take(i + 1)));
        }
        assert(data@.take(data@.len() as int) =~= data@);
        self.start_position_buffer = start_position;
        self.start_velocity_buffer = start_velocity;
        self.instance_count = data.len() as u32;
    }

    /// The start positions of the instances, as `x, y, z` coordinates.
    pub fn start_position_data(&self) -> (r: &[S])
        ensures
            r@ == self.start_positions(),
    {
        self.start_position_buffer.as_slice()
    }

    /// The start velocities of the instances, as `x, y, z` coordinates.
    pub fn start_velocity_data(&self) -> (r: &[S])
        ensures
            r@ == self.start_velocities(),
    {
        self.start_velocity_buffer.as_slice()
    }

    /// The vertex positions of the mesh.
    pub fn position_data(&self) -> (r: &[S])
        ensures
            r@ == self.positions(),
    {
        self.position_buffer.as_slice()
    }

    /// The texture coordinates of the mesh, if it has them.
    pub fn uv_data(&self) -> (r: Option<&[S]>)
        ensures
            match r {
                Some(u) => self.uvs() == Some(u@),
                None => self.uvs() is None,
            },
    {
        match &self.uv_buffer {
            Some(u) => Some(u.as_slice()),
            None => None,
        }
    }

    /// The triangle indices of the mesh, if it has them.
    pub fn index_data(&self) -> (r: Option<&[u32]>)
        ensures
            match r {
                Some(u) => self.indices() == Some(u@),
                None => self.indices() is None,
            },
    {
        match &self.index_buffer {
            Some(u) => Some(u.as_slice()),
            None => None,
        }
    }

    /// The draw call for the particles: with the mesh's indices if it has
    /// them, else with one vertex per three position coordinates.
    pub fn draw_call(&self) -> (r: DrawCall)
        ensures
            r == (match self.indices() {
                Some(_) => DrawCall::Elements { instance_count: self.spec_instance_count() },
                None => DrawCall::Arrays {
                    vertex_count: (self.positions().len() as u32) / 3,
                    instance_count: self.spec_instance_count(),
                },
            }),
    {
        if self.index_buffer.is_some() {
            DrawCall::Elements { instance_count: self.instance_count }
        } else {
            DrawCall::Arrays {
                vertex_count: self.position_buffer.len() as u32 / 3,
                instance_count: self.instance_count,
            }
        }
    }
}

/// The start positions hold three coordinates per particle: those of
/// particle `i` at `3 * i`, `3 * i + 1` and `3 * i + 2`. So do the start
/// velocities.
pub proof fn lemma_flat_layout<S>(data: Seq<ParticleData<S>>)
    ensures
        flat_start_positions(data).len() == 3 * data.len(),
        flat_start_velocities(data).len() == 3 * data.len(),
        forall|i: int, j: int|
            0 <= i < data.len() && 0 <= j < 3 ==> #[trigger] flat_start_positions(data)[3 * i + j]
                == coordinates(data[i].start_position)[j],
        forall|i: int, j: int|
            0 <= i < data.len() && 0 <= j < 3 ==> #[trigger] flat_start_velocities(data)[3 * i + j]
                == coordinates(data[i].start_velocity)[j],
    decreases data.len(),
{
    if data.len() > 0 {
        let front = data.drop_last();
        lemma_flat_layout(front);
        assert forall|i: int, j: int| 0 <= i < data.len() && 0 <= j < 3 implies #[trigger]
            flat_start_positions(data)[3 * i + j] == coordinates(data[i].start_position)[j] by {
            if i < front.len() {
                assert(front[i] == data[i]);
            }
        }
        assert forall|i: int, j: int| 0 <= i < data.len() && 0 <= j < 3 implies #[trigger]
            flat_start_velocities(data)[3 * i + j] == coordinates(data[i].start_velocity)[j] by {
            if i < front.len() {
                assert(front[i] == data[i]);
            }
        }
    }
}

} // verus!
