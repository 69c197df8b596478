//! Texture registry: a handle table mapping opaque texture identifiers to
//! the host's texture objects.
//!
//! Identifiers are allocated from a counter, so every identifier handed out
//! is fresh and distinct from the reserved font-atlas sentinel
//! [`crate::FONT_TEX_ID`] (the largest `usize`). The font atlas itself is
//! never stored here: the renderer keeps it in a slot of its own and routes
//! the sentinel identifier to that slot.

use crate::FONT_TEX_ID;
use std::collections::HashMap;
use vstd::prelude::*;

verus! {

broadcast use vstd::std_specs::hash::group_hash_axioms;

/// An opaque texture identifier.
#[derive(Clone, Copy, Debug, PartialEq, Eq, Hash, Structural)]
pub struct TextureId(pub usize);

impl TextureId {
    /// The raw identifier value.
    pub fn id(&self) -> (r: usize)
        ensures
            r == self.0,
    {
        self.0
    }
}

/// Handle table from texture identifiers to texture objects of type `T`.
#[verifier::reject_recursive_types(T)]
pub struct Textures<T> {
    textures: HashMap<usize, T>,
    next: usize,
}

/// One registration step: `post` extends `pre`'s table with `texture` under
/// the fresh identifier `id`, and the allocation counter advances by one.
pub open spec fn insert_step<T>(
    pre: Textures<T>,
    post: Textures<T>,
    id: TextureId,
    texture: T,
) -> bool {
    &&& id.0 == pre.spec_next()
    &&& post.spec_next() == pre.spec_next() + 1
    &&& post.spec_map() == pre.spec_map().insert(id.0, texture)
}

impl<T> Textures<T> {
    /// The registered textures, keyed by raw identifier.
    pub closed spec fn spec_map(&self) -> Map<usize, T> {
        self.textures@
    }

    /// The next raw identifier the registry will allocate.
    pub closed spec fn spec_next(&self) -> int {
        self.next as int
    }

    /// Every registered identifier was allocated below the counter.
    pub open spec fn wf(&self) -> bool {
        forall|k: usize| self.spec_map().contains_key(k) ==> k < self.spec_next()
    }

    /// An empty registry.
    pub fn new() -> (r: Self)
        ensures
            r.wf(),
            r.spec_map() == Map::<usize, T>::empty(),
            r.spec_next() == 0,
    {
        Textures { textures: HashMap::new(), next: 0 }
    }

    /// Registers a texture and returns a fresh identifier for it. The
    /// identifier is distinct from every identifier handed out before and
    /// from the font sentinel.
    pub fn insert(&mut self, texture: T) -> (id: TextureId)
        requires
            old(self).wf(),
            old(self).spec_next() < FONT_TEX_ID,
        ensures
            final(self).wf(),
            insert_step(*old(self), *final(self), id, texture),
            id.0 != FONT_TEX_ID,
            !old(self).spec_map().contains_key(id.0),
    {
        let id = self.next;
        self.textures.insert(id, texture);
        self.next = self.next + 1;
        proof {
            assert forall|k: usize| self.spec_map().contains_key(k) implies k
                < self.spec_next() by {
                if k != id {
                    assert(old(self).spec_map().contains_key(k));
                }
            }
        }
        TextureId(id)
    }

    /// Looks an identifier up: the registered texture, or `None` for an
    /// identifier this registry never handed out (the font sentinel
    /// included).
    pub fn get(&self, id: TextureId) -> (r: Option<&T>)
        ensures
            match r {
                Some(t) => self.spec_map().contains_key(id.0) && *t == self.spec_map()[id.0],
                None => !self.spec_map().contains_key(id.0),
            },
    {
        self.textures.get(&id.0)
    }

    /// The registered identifiers, in ascending order.
    pub fn ids(&self) -> (r: Vec<TextureId>)
        requires
            self.wf(),
        ensures
            forall|i: int|
                0 <= i < r@.len() ==> self.spec_map().contains_key(#[trigger] r@[i].0),
            forall|k: usize|
                self.spec_map().contains_key(k) ==> exists|i: int|
                    0 <= i < r@.len() && #[trigger] r@[i].0 == k,
            forall|i: int, j: int| 0 <= i < j < r@.len() ==> r@[i].0 < r@[j].0,
    {
        let mut r: Vec<TextureId> = Vec::new();
        let mut k: usize = 0;
        while k < self.next
            invariant
                k <= self.next,
                forall|i: int|
                    0 <= i < r@.len() ==> self.spec_map().contains_key(#[trigger] r@[i].0)
                        && r@[i].0 < k,
                forall|key: usize|
                    key < k && self.spec_map().contains_key(key) ==> exists|i: int|
                        0 <= i < r@.len() && #[trigger] r@[i].0 == key,
                forall|i: int, j: int| 0 <= i < j < r@.len() ==> r@[i].0 < r@[j].0,
            decreases self.next - k,
        {
            if self.textures.contains_key(&k) {
                let ghost r0 = r@;
                r.push(TextureId(k));
                proof {
                    assert forall|key: usize|
                        key < k + 1 && self.spec_map().contains_key(key) implies exists|i: int|
                        0 <= i < r@.len() && #[trigger] r@[i].0 == key by {
                        if key < k {
                            let i = choose|i: int| 0 <= i < r0.len() && #[trigger] r0[i].0 == key;
                            assert(r@[i].0 == key);
                        } else {
                            assert(r@[r@.len() - 1].0 == key);
                        }
                    }
                }
            }
            k = k + 1;
        }
        r
    }

    /// Removes a registration, returning the texture that was stored.
    pub fn remove(&mut self, id: TextureId) -> (r: Option<T>)
        requires
            old(self).wf(),
        ensures
            final(self).wf(),
            final(self).spec_map() == old(self).spec_map().remove(id.0),
            final(self).spec_next() == old(self).spec_next(),
            match r {
                Some(t) => old(self).spec_map().contains_key(id.0)
                    && t == old(self).spec_map()[id.0],
                None => !old(self).spec_map().contains_key(id.0),
            },
    {
        let r = self.textures.remove(&id.0);
        proof {
            assert forall|k: usize| self.spec_map().contains_key(k) implies k
                < self.spec_next() by {
                assert(old(self).spec_map().contains_key(k));
            }
        }
        r
    }
}

/// Law: a texture is found again under the identifier its registration
/// returned.
pub proof fn lemma_insert_then_get<T>(pre: Textures<T>, post: Textures<T>, id: TextureId, t: T)
    requires
        insert_step(pre, post, id, t),
    ensures
        post.spec_map().contains_key(id.0),
        post.spec_map()[id.0] == t,
{
}

/// Law: a registration made later in any run of operations returns a
/// strictly larger identifier. No operation ever decreases the allocation
/// counter, so `mid.spec_next() >= post1.spec_next()` holds between any
/// two registrations, and identifiers stay pairwise distinct however many
/// lookups, removals or other registrations come between them.
pub proof fn lemma_later_insert_returns_larger_id<T>(
    pre1: Textures<T>,
    post1: Textures<T>,
    mid: Textures<T>,
    post2: Textures<T>,
    t1: T,
    t2: T,
    id1: TextureId,
    id2: TextureId,
)
    requires
        insert_step(pre1, post1, id1, t1),
        insert_step(mid, post2, id2, t2),
        mid.spec_next() >= post1.spec_next(),
    ensures
        id2.0 > id1.0,
{
}

/// Law: identifiers returned by two successive registrations are distinct,
/// and neither is the font sentinel.
pub proof fn lemma_insert_ids_distinct<T>(
    r0: Textures<T>,
    r1: Textures<T>,
    r2: Textures<T>,
    t1: T,
    t2: T,
    id1: TextureId,
    id2: TextureId,
)
    requires
        insert_step(r0, r1, id1, t1),
        insert_step(r1, r2, id2, t2),
        r0.spec_next() < FONT_TEX_ID,
        r1.spec_next() < FONT_TEX_ID,
    ensures
        id1 != id2,
        id1.0 != FONT_TEX_ID,
        id2.0 != FONT_TEX_ID,
{
}

} // verus!
