use crate::objectbuilder::{unit_cube, unit_cube_triangles};
use crate::render_system::scene::extend_copy;
use crate::vertex::mVertex;
use vstd::prelude::*;

verus! {

/// A mesh: a list of vertices, three to a triangle.
pub struct Object<V> {
    vertexes: Vec<V>,
}

impl<V> View for Object<V> {
    type V = Seq<V>;

    closed spec fn view(&self) -> Seq<V> {
        self.vertexes@
    }
}

impl<V> Object<V> {
    /// The object with the given vertices.
    pub fn new(vertexes: Vec<V>) -> (object: Object<V>)
        ensures
            object@ == vertexes@,
    {
        Object { vertexes }
    }

    /// The vertices of the object.
    pub fn vertexes(&self) -> (vertexes: &Vec<V>)
        ensures
            vertexes@ == self@,
    {
        &self.vertexes
    }
}

impl Object<mVertex> {
    /// The unit cube whose least corner is `(x, y, z)`.
    pub fn cube(x: i32, y: i32, z: i32) -> (object: Object<mVertex>)
        requires
            x < i32::MAX,
            y < i32::MAX,
            z < i32::MAX,
        ensures
            object@ == unit_cube_triangles(x as int, y as int, z as int),
    {
        Object::new(unit_cube(x as i64, y as i64, z as i64))
    }
}

/// The vertices of the first `count` of `objects`, one object after the
/// other.
pub open spec fn joined<V>(objects: Seq<Object<V>>, count: nat) -> Seq<V>
    decreases count,
{
    if count == 0 {
        Seq::empty()
    } else {
        joined(objects, (count - 1) as nat) + objects[count - 1]@
    }
}

/// A list of objects that are drawn together.
pub struct Scene<V> {
    objects: Vec<Object<V>>,
}

impl<V> View for Scene<V> {
    type V = Seq<Object<V>>;

    closed spec fn view(&self) -> Seq<Object<V>> {
        self.objects@
    }
}

impl<V: Copy> Scene<V> {
    /// The scene of the given objects.
    pub fn new(objects: Vec<Object<V>>) -> (scene: Scene<V>)
        ensures
            scene@ == objects@,
    {
        Scene { objects }
    }

    /// The vertices of all objects, one object after the other.
    pub fn vertexes(&self) -> (vertexes: Vec<V>)
        ensures
            vertexes@ == joined(self@, self@.len()),
    {
        let mut vertexes: Vec<V> = Vec::new();
        for i in 0..self.objects.len()
            invariant
                vertexes@ == joined(self@, i as nat),
        {
            extend_copy(&mut vertexes, self.objects[i].vertexes());
        }
        vertexes
    }
}

} // verus!
