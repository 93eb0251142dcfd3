use std::collections::HashMap;
use vstd::prelude::*;
use vstd::std_specs::iter::IteratorSpec;

verus! {

broadcast use vstd::std_specs::hash::group_hash_axioms;

/// The vertex lists of `objects`, joined in the order in which `order` names
/// their keys.
pub open spec fn flatten<V>(objects: Map<u32, Seq<V>>, order: Seq<u32>) -> Seq<V>
    decreases order.len(),
{
    if order.len() == 0 {
        Seq::empty()
    } else {
        flatten(objects, order.drop_last()) + objects[order.last()]
    }
}

/// `order` names every key of `objects` exactly once.
pub open spec fn is_key_order<V>(objects: Map<u32, Seq<V>>, order: Seq<u32>) -> bool {
    order.no_duplicates() && order.to_set() == objects.dom()
}

/// `buffer` is the vertex lists of `objects` laid end to end, each list whole
/// and each exactly once, in some order of the keys.
pub open spec fn is_flattening<V>(objects: Map<u32, Seq<V>>, buffer: Seq<V>) -> bool {
    exists|order: Seq<u32>| is_key_order(objects, order) && buffer == flatten(objects, order)
}

/// The vertex lists of a hash map of objects, as sequences.
pub open spec fn object_map<V>(objects: Map<u32, Vec<V>>) -> Map<u32, Seq<V>> {
    Map::new(|key: u32| objects.contains_key(key), |key: u32| objects[key]@)
}

/// What a scene batch holds.
pub struct SceneView<V> {
    /// The current vertex list of each object.
    pub objects: Map<u32, Seq<V>>,
    /// The flattened buffer as it was last built.
    pub buffer: Seq<V>,
    /// Whether `objects` has changed since `buffer` was built.
    pub dirty: bool,
}

impl<V> SceneView<V> {
    /// A clean batch holds a flattening of its objects.
    pub open spec fn wf(self) -> bool {
        !self.dirty ==> is_flattening(self.objects, self.buffer)
    }

    /// The batch after `object` was stored under `key`.
    pub open spec fn add_object(self, key: u32, object: Seq<V>) -> SceneView<V> {
        SceneView { objects: self.objects.insert(key, object), buffer: self.buffer, dirty: true }
    }

    /// `next` is this batch after its buffer was read: the objects are the
    /// same, the buffer is a flattening of them and no longer stale, and it
    /// is the old buffer unless that was stale.
    pub open spec fn read_as(self, next: SceneView<V>) -> bool {
        &&& next.objects == self.objects
        &&& !next.dirty
        &&& is_flattening(next.objects, next.buffer)
        &&& !self.dirty ==> next.buffer == self.buffer
    }

    /// The batch after the object under `key`, if any, was taken out.
    pub open spec fn remove_object(self, key: u32) -> SceneView<V> {
        SceneView {
            objects: self.objects.remove(key),
            buffer: self.buffer,
            dirty: self.dirty || self.objects.contains_key(key),
        }
    }
}

/// A batch of geometry: a vertex list per object key, and one flattened
/// vertex buffer that is rebuilt only when it is read after a change.
pub struct Scene<V> {
    objects: HashMap<u32, Vec<V>>,
    vertex_buffer: Vec<V>,
    vertex_buffer_needs_update: bool,
}

impl<V> View for Scene<V> {
    type V = SceneView<V>;

    closed spec fn view(&self) -> SceneView<V> {
        SceneView {
            objects: object_map(self.objects@),
            buffer: self.vertex_buffer@,
            dirty: self.vertex_buffer_needs_update,
        }
    }
}

/// One change to the objects of a batch.
pub enum SceneEdit<V> {
    /// `add_object` with this key and this vertex list.
    Add { key: u32, object: Seq<V> },
    /// `remove_object` with this key.
    Remove { key: u32 },
}

impl<V> SceneView<V> {
    /// The batch after `edit`.
    pub open spec fn edited(self, edit: SceneEdit<V>) -> SceneView<V> {
        match edit {
            SceneEdit::Add { key, object } => self.add_object(key, object),
            SceneEdit::Remove { key } => self.remove_object(key),
        }
    }

    /// The batch after `edits`, made one after the other.
    pub open spec fn edited_all(self, edits: Seq<SceneEdit<V>>) -> SceneView<V>
        decreases edits.len(),
    {
        if edits.len() == 0 {
            self
        } else {
            self.edited_all(edits.drop_last()).edited(edits.last())
        }
    }
}

/// `objects` after `edits`, made one after the other: what the last edit of
/// each key left there.
pub open spec fn edited_objects<V>(objects: Map<u32, Seq<V>>, edits: Seq<SceneEdit<V>>) -> Map<
    u32,
    Seq<V>,
>
    decreases edits.len(),
{
    if edits.len() == 0 {
        objects
    } else {
        let before = edited_objects(objects, edits.drop_last());
        match edits.last() {
            SceneEdit::Add { key, object } => before.insert(key, object),
            SceneEdit::Remove { key } => before.remove(key),
        }
    }
}

/// Storing and taking out objects keeps a batch well formed.
pub proof fn lemma_edit_keeps_wf<V>(scene: SceneView<V>, edit: SceneEdit<V>)
    requires
        scene.wf(),
    ensures
        scene.edited(edit).wf(),
{
    match edit {
        SceneEdit::Add { key, object } => {},
        SceneEdit::Remove { key } => {
            if !scene.objects.contains_key(key) {
                assert(scene.objects.remove(key) =~= scene.objects);
            }
        },
    }
}

/// However many objects were stored and taken out since the buffer was last
/// read, and in whatever order, the next read gives a flattening of the
/// objects as the edits left them.
pub proof fn lemma_read_after_edits<V>(scene: SceneView<V>, edits: Seq<SceneEdit<V>>, read: SceneView<V>)
    requires
        scene.wf(),
        scene.edited_all(edits).read_as(read),
    ensures
        scene.edited_all(edits).wf(),
        read.objects == edited_objects(scene.objects, edits),
        is_flattening(edited_objects(scene.objects, edits), read.buffer),
        read.wf(),
{
    lemma_edits(scene, edits);
}

/// A batch stays well formed through any edits, and they leave the buffer
/// alone.
pub proof fn lemma_edits<V>(scene: SceneView<V>, edits: Seq<SceneEdit<V>>)
    requires
        scene.wf(),
    ensures
        scene.edited_all(edits).wf(),
        scene.edited_all(edits).objects == edited_objects(scene.objects, edits),
        scene.edited_all(edits).buffer == scene.buffer,
    decreases edits.len(),
{
    if edits.len() > 0 {
        lemma_edits(scene, edits.drop_last());
        lemma_edit_keeps_wf(scene.edited_all(edits.drop_last()), edits.last());
    }
}

/// A read of a clean batch changes nothing: the buffer is rebuilt only when
/// it is stale.
pub proof fn lemma_read_clean<V>(scene: SceneView<V>, read: SceneView<V>)
    requires
        !scene.dirty,
        scene.read_as(read),
    ensures
        read == scene,
{
}

/// Taking the key at `index` out of `order` takes exactly the vertices of
/// its object out of the flattening.
pub proof fn lemma_flatten_without<V>(objects: Map<u32, Seq<V>>, order: Seq<u32>, index: int)
    requires
        0 <= index < order.len(),
    ensures
        flatten(objects, order).to_multiset() == flatten(
            objects,
            order.remove(index),
        ).to_multiset().add(objects[order[index]].to_multiset()),
    decreases order.len(),
{
    let rest = order.drop_last();
    vstd::seq_lib::lemma_multiset_commutative(flatten(objects, rest), objects[order.last()]);
    if index == order.len() - 1 {
        assert(order.remove(index) =~= rest);
    } else {
        let shorter = order.remove(index);
        assert(shorter.drop_last() =~= rest.remove(index));
        assert(shorter.last() == order.last());
        lemma_flatten_without(objects, rest, index);
        vstd::seq_lib::lemma_multiset_commutative(
            flatten(objects, shorter.drop_last()),
            objects[shorter.last()],
        );
        assert(flatten(objects, order).to_multiset() =~= flatten(objects, shorter).to_multiset().add(
            objects[order[index]].to_multiset(),
        ));
    }
}

/// The order of the keys decides where a vertex stands in the flattening,
/// not which vertices there are, nor how often: two orders of the same keys
/// give the same vertices with the same multiplicities.
pub proof fn lemma_flatten_any_order<V>(objects: Map<u32, Seq<V>>, first: Seq<u32>, second: Seq<u32>)
    requires
        first.no_duplicates(),
        second.no_duplicates(),
        first.to_set() == second.to_set(),
    ensures
        flatten(objects, first).to_multiset() == flatten(objects, second).to_multiset(),
    decreases first.len(),
{
    if first.len() == 0 {
        if second.len() > 0 {
            assert(second.to_set().contains(second[0]));
            assert(first.to_set().contains(second[0]));
        }
        assert(second =~= Seq::<u32>::empty());
    } else {
        let key = first.last();
        assert(first.to_set().contains(key));
        assert(second.to_set().contains(key));
        let index = choose|index: int| 0 <= index < second.len() && second[index] == key;
        let first_rest = first.drop_last();
        let second_rest = second.remove(index);
        assert(first_rest.no_duplicates());
        assert(second_rest.no_duplicates());
        assert forall|k: u32| first_rest.to_set().contains(k) <==> second_rest.to_set().contains(
            k,
        ) by {
            if first_rest.to_set().contains(k) {
                let i = choose|i: int| 0 <= i < first_rest.len() && first_rest[i] == k;
                assert(first[i] == k);
                assert(k != key);
                assert(first.to_set().contains(k));
                assert(second.to_set().contains(k));
                let j = choose|j: int| 0 <= j < second.len() && second[j] == k;
                if j < index {
                    assert(second_rest[j] == k);
                } else {
                    assert(second_rest[j - 1] == k);
                }
            }
            if second_rest.to_set().contains(k) {
                let j = choose|j: int| 0 <= j < second_rest.len() && second_rest[j] == k;
                if j < index {
                    assert(second[j] == k);
                } else {
                    assert(second[j + 1] == k);
                }
                assert(k != key);
                assert(second.to_set().contains(k));
                assert(first.to_set().contains(k));
                let i = choose|i: int| 0 <= i < first.len() && first[i] == k;
                assert(first_rest[i] == k);
            }
        }
        assert(first_rest.to_set() =~= second_rest.to_set());
        lemma_flatten_any_order(objects, first_rest, second_rest);
        lemma_flatten_without(objects, second, index);
        vstd::seq_lib::lemma_multiset_commutative(flatten(objects, first_rest), objects[key]);
    }
}

/// All flattenings of the same objects hold the same vertices with the same
/// multiplicities.
pub proof fn lemma_flattenings_agree<V>(objects: Map<u32, Seq<V>>, first: Seq<V>, second: Seq<V>)
    requires
        is_flattening(objects, first),
        is_flattening(objects, second),
    ensures
        first.to_multiset() == second.to_multiset(),
{
    let first_order = choose|order: Seq<u32>|
        is_key_order(objects, order) && first == flatten(objects, order);
    let second_order = choose|order: Seq<u32>|
        is_key_order(objects, order) && second == flatten(objects, order);
    lemma_flatten_any_order(objects, first_order, second_order);
}

/// Every vertex of a flattening stands in the vertex list of one of the
/// objects named by the order.
pub proof fn lemma_flatten_vertex<V>(objects: Map<u32, Seq<V>>, order: Seq<u32>, place: int) -> (found: (
    int,
    int,
))
    requires
        0 <= place < flatten(objects, order).len(),
    ensures
        0 <= found.0 < order.len(),
        0 <= found.1 < objects[order[found.0]].len(),
        flatten(objects, order)[place] == objects[order[found.0]][found.1],
    decreases order.len(),
{
    let rest = flatten(objects, order.drop_last());
    if place < rest.len() {
        lemma_flatten_vertex(objects, order.drop_last(), place)
    } else {
        (order.len() - 1, place - rest.len())
    }
}

/// The keys of `objects`, each once, in the order in which the map hands them out.
pub(crate) fn key_list<T>(objects: &HashMap<u32, T>) -> (keys: Vec<u32>)
    ensures
        keys@.no_duplicates(),
        keys@.to_set() == objects@.dom(),
{
    let ghost all = objects.keys().remaining();
    let mut keys: Vec<u32> = Vec::new();
    for k in it: objects.keys()
        invariant
            it.seq() == all,
            keys@ == all.unref().take(it.index()),
    {
        keys.push(*k);
    }
    assert(keys@ =~= all.unref());
    keys
}

/// Appends a copy of every vertex of `object` to `buffer`.
pub(crate) fn extend_copy<V: Copy>(buffer: &mut Vec<V>, object: &Vec<V>)
    ensures
        final(buffer)@ == old(buffer)@ + object@,
{
    let mut i: usize = 0;
    while i < object.len()
        invariant
            i <= object.len(),
            buffer@ == old(buffer)@ + object@.take(i as int),
        decreases object.len() - i,
    {
        buffer.push(object[i]);
        i += 1;
    }
    assert(object@.take(object.len() as int) =~= object@);
}

/// Lays the vertex lists of `objects` end to end, in the order in which the
/// map hands out its keys. `None` stands for a buffer without vertices.
pub fn vertex_buffer<V: Copy>(objects: &HashMap<u32, Vec<V>>) -> (buffer: Option<Vec<V>>)
    ensures
        match buffer {
            Some(vertexes) => vertexes@.len() > 0 && is_flattening(object_map(objects@), vertexes@),
            None => is_flattening(object_map(objects@), Seq::<V>::empty()),
        },
{
    let vertexes = flattened(objects);
    if vertexes.len() == 0 {
        assert(vertexes@ =~= Seq::<V>::empty());
        None
    } else {
        Some(vertexes)
    }
}

fn flattened<V: Copy>(objects: &HashMap<u32, Vec<V>>) -> (vertexes: Vec<V>)
    ensures
        is_flattening(object_map(objects@), vertexes@),
{
    let keys = key_list(objects);
    let mut vertexes: Vec<V> = Vec::new();
    let mut i: usize = 0;
    while i < keys.len()
        invariant
            i <= keys.len(),
            keys@.to_set() == objects@.dom(),
            vertexes@ == flatten(object_map(objects@), keys@.take(i as int)),
        decreases keys.len() - i,
    {
        let key = keys[i];
        assert(keys@.to_set().contains(key));
        match objects.get(&key) {
            Some(object) => {
                extend_copy(&mut vertexes, object);
            },
            None => {},
        }
        i += 1;
        assert(keys@.take(i as int).drop_last() =~= keys@.take(i - 1));
    }
    assert(keys@.take(keys.len() as int) =~= keys@);
    assert(object_map(objects@).dom() =~= objects@.dom());
    assert(is_key_order(object_map(objects@), keys@));
    vertexes
}

impl<V: Copy> Scene<V> {
    /// A batch that holds `objects`, with its buffer already built.
    pub fn new(objects: HashMap<u32, Vec<V>>) -> (scene: Scene<V>)
        ensures
            scene@.objects == object_map(objects@),
            !scene@.dirty,
            scene@.wf(),
    {
        let vertex_buffer = flattened(&objects);
        Scene { objects, vertex_buffer, vertex_buffer_needs_update: false }
    }

    /// Stores `object` under `key`, in place of what was there, and marks
    /// the buffer stale. The buffer itself is left alone until it is read.
    pub fn add_object(&mut self, key: u32, object: Vec<V>)
        ensures
            final(self)@ == old(self)@.add_object(key, object@),
            final(self)@.wf(),
    {
        self.objects.insert(key, object);
        self.vertex_buffer_needs_update = true;
        assert(final(self)@.objects =~= old(self)@.objects.insert(key, object@));
    }

    /// Takes out the object under `key`. The buffer is marked stale only if
    /// there was such an object.
    pub fn remove_object(&mut self, key: u32)
        requires
            old(self)@.wf(),
        ensures
            final(self)@ == old(self)@.remove_object(key),
            final(self)@.wf(),
    {
        let removed = self.objects.remove(&key);
        if removed.is_some() {
            self.vertex_buffer_needs_update = true;
        }
        assert(final(self)@.objects =~= old(self)@.objects.remove(key));
        assert(!old(self)@.objects.contains_key(key) ==> final(self)@.objects =~= old(self)@.objects);
    }

    /// The objects of the batch.
    pub fn objects(&self) -> (objects: &HashMap<u32, Vec<V>>)
        ensures
            object_map(objects@) == self@.objects,
    {
        &self.objects
    }

    /// Whether the buffer is stale: an object was stored or taken out since
    /// the buffer was last read.
    pub fn needs_update(&self) -> (dirty: bool)
        ensures
            dirty == self@.dirty,
    {
        self.vertex_buffer_needs_update
    }

    /// The flattened buffer of the objects as they are now. It is rebuilt if
    /// and only if it was stale; `None` stands for a buffer without vertices.
    pub fn vertex_buffer(&mut self) -> (buffer: Option<&Vec<V>>)
        requires
            old(self)@.wf(),
        ensures
            old(self)@.read_as(final(self)@),
            final(self)@.wf(),
            match buffer {
                Some(vertexes) => vertexes@.len() > 0 && vertexes@ == final(self)@.buffer,
                None => final(self)@.buffer.len() == 0,
            },
    {
        if self.vertex_buffer_needs_update {
            self.vertex_buffer = flattened(&self.objects);
            self.vertex_buffer_needs_update = false;
        }
        if self.vertex_buffer.len() == 0 {
            None
        } else {
            Some(&self.vertex_buffer)
        }
    }
}

} // verus!
