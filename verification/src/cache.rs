//! Descriptor cache: memoizes the GPU binding object built for each texture
//! identifier.
//!
//! The font-atlas binding is tracked in a slot of its own, apart from the
//! identifier-keyed table, because its identifier is the reserved sentinel
//! and its lifecycle (font reload) is decoupled from user-texture churn. A
//! build function is invoked at most once per identifier between
//! invalidations; a failed build stores nothing and the error propagates.

use crate::textures::TextureId;
use crate::FONT_TEX_ID;
use std::collections::HashMap;
use std::sync::Arc;
use vstd::prelude::*;

verus! {

broadcast use vstd::std_specs::hash::group_hash_axioms;

/// Relies on `Arc::clone` from std: the clone is a second handle to the same
/// allocation, so as a value it equals the original.
#[verifier::external_body]
pub(crate) fn arc_clone<T>(v: &Arc<T>) -> (r: Arc<T>)
    ensures
        r == *v,
{
    Arc::clone(v)
}

/// Whether a cache with user table `cm` and font slot `font` already holds
/// a descriptor for `id`: the sentinel looks in the font slot, every other
/// identifier in the table.
pub open spec fn set_available<S>(
    cm: Map<usize, Arc<S>>,
    font: Option<Arc<S>>,
    id: TextureId,
) -> bool {
    if id.0 == FONT_TEX_ID {
        font is Some
    } else {
        cm.contains_key(id.0)
    }
}

/// The descriptor such a cache holds for `id`.
pub open spec fn resolved_set<S>(
    cm: Map<usize, Arc<S>>,
    font: Option<Arc<S>>,
    id: TextureId,
) -> Arc<S>
    recommends
        set_available(cm, font, id),
{
    if id.0 == FONT_TEX_ID {
        font.unwrap()
    } else {
        cm[id.0]
    }
}

/// Cache of descriptor objects of type `S`, keyed by texture identifier,
/// with a separate slot for the font-atlas descriptor.
#[verifier::reject_recursive_types(S)]
pub struct DescriptorSetCache<S> {
    cache: HashMap<usize, Arc<S>>,
    font_texture: Option<Arc<S>>,
}

impl<S> DescriptorSetCache<S> {
    /// The memoized user-texture descriptors, keyed by raw identifier.
    pub closed spec fn spec_map(&self) -> Map<usize, Arc<S>> {
        self.cache@
    }

    /// The memoized font-atlas descriptor, if one has been built.
    pub closed spec fn spec_font(&self) -> Option<Arc<S>> {
        self.font_texture
    }

    /// An empty cache.
    pub fn new() -> (r: Self)
        ensures
            r.spec_map() == Map::<usize, Arc<S>>::empty(),
            r.spec_font() is None,
    {
        DescriptorSetCache { cache: HashMap::new(), font_texture: None }
    }

    /// Returns the memoized descriptor for `texture_id`, or invokes
    /// `creation_fn` once, stores a successful result, and returns it. The
    /// sentinel identifier is served from the font slot, every other
    /// identifier from the keyed table. On a build error nothing is stored
    /// and the error is returned.
    pub fn get_or_insert<F, E>(&mut self, texture_id: TextureId, creation_fn: F) -> (r: Result<
        Arc<S>,
        E,
    >) where F: FnOnce(TextureId) -> Result<Arc<S>, E>
        requires
            call_requires(creation_fn, (texture_id,)),
        ensures
            texture_id.0 == FONT_TEX_ID ==> match old(self).spec_font() {
                Some(d) => r == Ok::<Arc<S>, E>(d) && *final(self) == *old(self),
                None => {
                    &&& call_ensures(creation_fn, (texture_id,), r)
                    &&& match r {
                        Ok(d) => final(self).spec_font() == Some(d) && final(self).spec_map()
                            == old(self).spec_map(),
                        Err(_) => *final(self) == *old(self),
                    }
                },
            },
            texture_id.0 != FONT_TEX_ID ==> if old(self).spec_map().contains_key(texture_id.0) {
                r == Ok::<Arc<S>, E>(old(self).spec_map()[texture_id.0]) && *final(self) == *old(
                    self,
                )
            } else {
                &&& call_ensures(creation_fn, (texture_id,), r)
                &&& match r {
                    Ok(d) => final(self).spec_map() == old(self).spec_map().insert(texture_id.0, d)
                        && final(self).spec_font() == old(self).spec_font(),
                    Err(_) => *final(self) == *old(self),
                }
            },
    {
        if texture_id.id() == FONT_TEX_ID {
            match &self.font_texture {
                Some(d) => Ok(arc_clone(d)),
                None => {
                    let set = match creation_fn(texture_id) {
                        Ok(s) => s,
                        Err(e) => {
                            return Err(e);
                        },
                    };
                    let out = arc_clone(&set);
                    self.font_texture = Some(set);
                    Ok(out)
                },
            }
        } else {
            match self.cache.get(&texture_id.0) {
                Some(d) => Ok(arc_clone(d)),
                None => {
                    let set = match creation_fn(texture_id) {
                        Ok(s) => s,
                        Err(e) => {
                            return Err(e);
                        },
                    };
                    self.cache.insert(texture_id.0, arc_clone(&set));
                    Ok(set)
                },
            }
        }
    }

    /// The memoized descriptor for `texture_id`, cloned, or `None` when
    /// none is cached yet.
    pub(crate) fn cached(&self, texture_id: TextureId) -> (r: Option<Arc<S>>)
        ensures
            match r {
                Some(d) => set_available(self.spec_map(), self.spec_font(), texture_id) && d
                    == resolved_set(self.spec_map(), self.spec_font(), texture_id),
                None => !set_available(self.spec_map(), self.spec_font(), texture_id),
            },
    {
        if texture_id.id() == FONT_TEX_ID {
            match &self.font_texture {
                Some(d) => Some(arc_clone(d)),
                None => None,
            }
        } else {
            match self.cache.get(&texture_id.0) {
                Some(d) => Some(arc_clone(d)),
                None => None,
            }
        }
    }

    /// Memoizes `set` as the descriptor for `texture_id`.
    pub(crate) fn store(&mut self, texture_id: TextureId, set: Arc<S>)
        ensures
            texture_id.0 == FONT_TEX_ID ==> final(self).spec_font() == Some(set)
                && final(self).spec_map() == old(self).spec_map(),
            texture_id.0 != FONT_TEX_ID ==> final(self).spec_map()
                == old(self).spec_map().insert(texture_id.0, set)
                && final(self).spec_font() == old(self).spec_font(),
    {
        if texture_id.id() == FONT_TEX_ID {
            self.font_texture = Some(set);
        } else {
            self.cache.insert(texture_id.0, set);
        }
    }

    /// Drops every user-texture entry, so each is rebuilt on next use. The
    /// font slot is untouched.
    pub fn clear(&mut self)
        ensures
            final(self).spec_map() == Map::<usize, Arc<S>>::empty(),
            final(self).spec_font() == old(self).spec_font(),
    {
        self.cache.clear();
    }

    /// Drops only the font-atlas entry; user-texture entries are untouched.
    pub fn clear_font_texture(&mut self)
        ensures
            final(self).spec_font() is None,
            final(self).spec_map() == old(self).spec_map(),
    {
        self.font_texture = None;
    }
}

impl<S> Default for DescriptorSetCache<S> {
    /// An empty cache.
    fn default() -> (r: Self)
        ensures
            r.spec_map() == Map::<usize, Arc<S>>::empty(),
            r.spec_font() is None,
    {
        DescriptorSetCache::new()
    }
}

} // verus!
