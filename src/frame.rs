//! The UI frame protocol and the frame output it yields: draw primitives in
//! paint order and the texture delta of the frame.
use vstd::prelude::*;

verus! {

/// A texture of the UI engine's cache: one it manages itself (the font
/// atlas and the like) or one that the application registered.
#[derive(Clone, Copy, Debug, PartialEq, Eq, Structural)]
pub enum TextureKey {
    Managed(u64),
    User(u64),
}

/// The removals that are kept of a frame's delta: each removed texture that
/// the same frame does not add again, in the order of removal.
pub open spec fn released(removed: Seq<TextureKey>, added: Seq<TextureKey>) -> Seq<TextureKey>
    decreases removed.len(),
{
    if removed.len() == 0 {
        Seq::empty()
    } else {
        let kept = released(removed.drop_last(), added);
        if added.contains(removed.last()) {
            kept
        } else {
            kept.push(removed.last())
        }
    }
}

/// The kept removals are removals, and none of them is added again.
pub proof fn lemma_released_disjoint(removed: Seq<TextureKey>, added: Seq<TextureKey>)
    ensures
        forall|k: TextureKey| #[trigger]
            released(removed, added).contains(k) ==> removed.contains(k) && !added.contains(k),
    decreases removed.len(),
{
    if removed.len() > 0 {
        lemma_released_disjoint(removed.drop_last(), added);
        let kept = released(removed.drop_last(), added);
        assert forall|k: TextureKey| #[trigger]
            released(removed, added).contains(k) implies removed.contains(k) && !added.contains(
                k,
            ) by {
            if kept.contains(k) {
                let j = choose|j: int| 0 <= j < removed.drop_last().len() && removed.drop_last()[j] == k;
                assert(removed[j] == k);
            } else {
                assert(removed[removed.len() - 1] == k);
            }
        }
    }
}

/// Whether `keys` holds `key`.
pub fn contains_key(keys: &Vec<TextureKey>, key: TextureKey) -> (r: bool)
    ensures
        r == keys@.contains(key),
{
    let mut i: usize = 0;
    while i < keys.len()
        invariant
            i <= keys.len(),
            forall|j: int| 0 <= j < i ==> keys@[j] != key,
        decreases keys.len() - i,
    {
        if keys[i] == key {
            return true;
        }
        i = i + 1;
    }
    false
}

/// The removals of `removed` that `added` does not add again, in order.
pub fn release_list(removed: &Vec<TextureKey>, added: &Vec<TextureKey>) -> (r: Vec<TextureKey>)
    ensures
        r@ == released(removed@, added@),
{
    let mut kept: Vec<TextureKey> = Vec::new();
    let mut i: usize = 0;
    while i < removed.len()
        invariant
            i <= removed.len(),
            kept@ == released(removed@.subrange(0, i as int), added@),
        decreases removed.len() - i,
    {
        let key = removed[i];
        assert(removed@.subrange(0, i + 1).drop_last() =~= removed@.subrange(0, i as int));
        if !contains_key(added, key) {
            kept.push(key);
        }
        i = i + 1;
    }
    assert(removed@.subrange(0, removed.len() as int) =~= removed@);
    kept
}

/// What one UI frame yields: the tessellated draw primitives in paint order
/// (each named by its position in the tessellated list), the textures to
/// upload before painting, and those to release after it.
#[derive(Debug, PartialEq, Eq)]
pub struct FrameOutput {
    pub primitives: Vec<usize>,
    pub textures_set: Vec<TextureKey>,
    pub textures_free: Vec<TextureKey>,
}

impl FrameOutput {
    /// No texture is both uploaded and released in one frame.
    pub open spec fn wf(&self) -> bool {
        forall|k: TextureKey| self.textures_free@.contains(k) ==> !self.textures_set@.contains(k)
    }
}

/// The two states of the UI frame driver.
#[derive(Clone, Copy, Debug, PartialEq, Eq, Structural)]
pub enum DriverPhase {
    Idle,
    Building,
}

/// Bookkeeping of the UI frame protocol: between `begin_frame` and
/// `end_frame` the frame's draw primitives and texture changes accumulate.
#[derive(Debug, PartialEq, Eq)]
pub struct FrameDriver {
    pub phase: DriverPhase,
    pub primitives: Vec<usize>,
    pub added: Vec<TextureKey>,
    pub removed: Vec<TextureKey>,
}

impl FrameDriver {
    /// Texture changes accumulate only while a frame is being built.
    pub open spec fn wf(&self) -> bool {
        self.phase is Idle ==> (self.added@.len() == 0 && self.removed@.len() == 0)
    }

    /// What `end_frame` hands out from this state: the primitives, the
    /// added textures and the kept removals.
    pub open spec fn output_of(&self) -> (Seq<usize>, Seq<TextureKey>, Seq<TextureKey>) {
        (self.primitives@, self.added@, released(self.removed@, self.added@))
    }

    /// `self` is the state that `begin_frame` leaves behind from `before`.
    pub open spec fn begun_from(&self, before: &FrameDriver) -> bool {
        &&& self.phase is Building
        &&& self.primitives@.len() == 0
        &&& self.added@ == before.added@
        &&& self.removed@ == before.removed@
    }

    pub fn new() -> (r: FrameDriver)
        ensures
            r.wf(),
            r.phase is Idle,
            r.primitives@.len() == 0,
            r.added@.len() == 0,
            r.removed@.len() == 0,
    {
        FrameDriver {
            phase: DriverPhase::Idle,
            primitives: Vec::new(),
            added: Vec::new(),
            removed: Vec::new(),
        }
    }

    /// Idle to Building: starts a frame with an empty primitive list.
    pub fn begin_frame(&mut self)
        requires
            old(self).wf(),
            old(self).phase is Idle,
        ensures
            final(self).wf(),
            final(self).begun_from(old(self)),
    {
        self.phase = DriverPhase::Building;
        self.primitives = Vec::new();
    }

    /// Appends a draw primitive to the frame being built.
    pub fn push_primitive(&mut self, primitive: usize)
        requires
            old(self).wf(),
            old(self).phase is Building,
        ensures
            final(self).wf(),
            final(self).phase is Building,
            final(self).primitives@ == old(self).primitives@.push(primitive),
            final(self).added@ == old(self).added@,
            final(self).removed@ == old(self).removed@,
    {
        self.primitives.push(primitive);
    }

    /// Records a texture that the frame adds or replaces.
    pub fn add_texture(&mut self, key: TextureKey)
        requires
            old(self).wf(),
            old(self).phase is Building,
        ensures
            final(self).wf(),
            final(self).phase is Building,
            final(self).primitives@ == old(self).primitives@,
            final(self).added@ == old(self).added@.push(key),
            final(self).removed@ == old(self).removed@,
    {
        self.added.push(key);
    }

    /// Records a texture that the frame removes.
    pub fn remove_texture(&mut self, key: TextureKey)
        requires
            old(self).wf(),
            old(self).phase is Building,
        ensures
            final(self).wf(),
            final(self).phase is Building,
            final(self).primitives@ == old(self).primitives@,
            final(self).added@ == old(self).added@,
            final(self).removed@ == old(self).removed@.push(key),
    {
        self.removed.push(key);
    }

    /// Building to Idle: hands out the frame's primitives in the order they
    /// were recorded and the texture delta accumulated since the last call;
    /// a removal of a texture that the same frame adds again is dropped.
    pub fn end_frame(&mut self) -> (out: FrameOutput)
        requires
            old(self).wf(),
            old(self).phase is Building,
        ensures
            final(self).wf(),
            final(self).phase is Idle,
            final(self).primitives@.len() == 0,
            (out.primitives@, out.textures_set@, out.textures_free@) == old(self).output_of(),
            out.wf(),
    {
        proof {
            lemma_released_disjoint(self.removed@, self.added@);
        }
        let textures_free = release_list(&self.removed, &self.added);
        let mut primitives: Vec<usize> = Vec::new();
        std::mem::swap(&mut primitives, &mut self.primitives);
        let mut textures_set: Vec<TextureKey> = Vec::new();
        std::mem::swap(&mut textures_set, &mut self.added);
        self.removed = Vec::new();
        self.phase = DriverPhase::Idle;
        FrameOutput { primitives, textures_set, textures_free }
    }
}

} // verus!
