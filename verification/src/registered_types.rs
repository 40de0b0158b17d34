//! The type registry of the transaction generator: abstract types indexed
//! by the metadata that pertains to them.

use vstd::prelude::*;

use crate::abstract_state::AbstractMetadata;
use crate::abstract_state::AbstractType;
use crate::types::TypeTag;
use crate::types::TypeTagV;

verus! {

/// Abstract types, reachable both by metadata and by type tag.
#[derive(Debug, PartialEq, Eq)]
pub struct TypeRegistry {
    pub meta_to_type: Vec<(AbstractMetadata, Vec<AbstractType>)>,
    pub abstract_types: Vec<(TypeTag, AbstractType)>,
}

/// Some bucket for `meta` ends with a type carrying the given tag view.
pub open spec fn spec_bucket_joined(
    buckets: Seq<(AbstractMetadata, Vec<AbstractType>)>,
    meta: AbstractMetadata,
    t: TypeTagV,
) -> bool {
    exists|b: int|
        0 <= b < buckets.len() && (#[trigger] buckets[b]).0 == meta && buckets[b].1@.len() > 0
            && buckets[b].1@.last().type_@ == t
}

/// The index of the first metadata bucket for `meta`.
pub open spec fn spec_find_meta(
    buckets: Seq<(AbstractMetadata, Vec<AbstractType>)>,
    meta: AbstractMetadata,
    from: int,
) -> Option<int>
    decreases buckets.len() - from,
{
    if from < 0 || from >= buckets.len() {
        None
    } else if buckets[from].0 == meta {
        Some(from)
    } else {
        spec_find_meta(buckets, meta, from + 1)
    }
}

impl TypeRegistry {
    /// An empty registry.
    pub fn new() -> (r: TypeRegistry)
        ensures
            r.meta_to_type@.len() == 0,
            r.abstract_types@.len() == 0,
    {
        TypeRegistry { meta_to_type: Vec::new(), abstract_types: Vec::new() }
    }

    /// The index of the bucket for `meta`, if one exists.
    pub fn find_meta(&self, meta: &AbstractMetadata) -> (r: Option<usize>)
        ensures
            match spec_find_meta(self.meta_to_type@, *meta, 0) {
                Some(i) => r is Some && r->0 == i && 0 <= i < self.meta_to_type@.len(),
                None => r is None,
            },
    {
        let mut i: usize = 0;
        while i < self.meta_to_type.len()
            invariant
                i <= self.meta_to_type@.len(),
                spec_find_meta(self.meta_to_type@, *meta, 0) == spec_find_meta(
                    self.meta_to_type@,
                    *meta,
                    i as int,
                ),
            decreases self.meta_to_type@.len() - i,
        {
            if self.meta_to_type[i].0 == *meta {
                return Some(i);
            }
            i += 1;
        }
        None
    }

    /// Register a type: it joins the end of the bucket of each metadata
    /// that pertains to it, buckets of other metadata stay as they were,
    /// and it is appended to the tag index.
    pub fn add_ty(&mut self, ty: AbstractType) -> (r: ())
        ensures
            final(self).abstract_types@.len() == old(self).abstract_types@.len() + 1,
            final(self).abstract_types@.last().0@ == ty.type_@,
            final(self).abstract_types@.last().1 == ty,
            forall|k: int|
                0 <= k < old(self).abstract_types@.len() ==> #[trigger] final(self).abstract_types@[k] == old(self).abstract_types@[k],
            forall|mi: int|
                0 <= mi < ty.meta@.len() ==> spec_bucket_joined(
                    final(self).meta_to_type@,
                    #[trigger] ty.meta@[mi],
                    ty.type_@,
                ),
            forall|b: int|
                (0 <= b < old(self).meta_to_type@.len() && !(exists|mi: int|
                    0 <= mi < ty.meta@.len() && (#[trigger] ty.meta@[mi]) == old(self).meta_to_type@[b].0)) ==> #[trigger] final(self).meta_to_type@[b] == old(self).meta_to_type@[b],
    {
        let mut m: usize = 0;
        while m < ty.meta.len()
            invariant
                self.abstract_types@ == old(self).abstract_types@,
                m <= ty.meta@.len(),
                self.meta_to_type@.len() >= old(self).meta_to_type@.len(),
                forall|mi: int|
                    0 <= mi < m ==> spec_bucket_joined(
                        self.meta_to_type@,
                        #[trigger] ty.meta@[mi],
                        ty.type_@,
                    ),
                forall|b: int|
                    (0 <= b < old(self).meta_to_type@.len() && !(exists|mi: int|
                        0 <= mi < ty.meta@.len() && (#[trigger] ty.meta@[mi]) == old(self).meta_to_type@[b].0)) ==> #[trigger] self.meta_to_type@[b] == old(self).meta_to_type@[b],
            decreases ty.meta@.len() - m,
        {
            let meta = ty.meta[m];
            let found = self.find_meta(&meta);
            proof {
                lemma_find_meta_hit(self.meta_to_type@, meta, 0);
            }
            match found {
                Some(i) => {
                    let bucket = &self.meta_to_type[i];
                    let mut entry: Vec<AbstractType> = Vec::new();
                    let mut j: usize = 0;
                    while j < bucket.1.len()
                        invariant
                            self.abstract_types@ == old(self).abstract_types@,
                            self.meta_to_type@.len() >= old(self).meta_to_type@.len(),
                            m < ty.meta@.len(),
                            meta == ty.meta@[m as int],
                            0 <= i < self.meta_to_type@.len(),
                            self.meta_to_type@[i as int].0 == meta,
                            bucket == self.meta_to_type@[i as int],
                            forall|mi: int|
                                0 <= mi < m ==> spec_bucket_joined(
                                    self.meta_to_type@,
                                    #[trigger] ty.meta@[mi],
                                    ty.type_@,
                                ),
                            forall|b: int|
                                (0 <= b < old(self).meta_to_type@.len() && !(exists|mi: int|
                                    0 <= mi < ty.meta@.len() && (#[trigger] ty.meta@[mi]) == old(self).meta_to_type@[b].0)) ==> #[trigger] self.meta_to_type@[b]
                                    == old(self).meta_to_type@[b],
                        decreases bucket.1@.len() - j,
                    {
                        entry.push(bucket.1[j].clone_type());
                        j += 1;
                    }
                    entry.push(ty.clone_type());
                    let ghost pre = self.meta_to_type@;
                    self.meta_to_type.set(i, (meta, entry));
                    proof {
                        assert forall|mi: int| 0 <= mi < m + 1 implies spec_bucket_joined(
                            self.meta_to_type@,
                            #[trigger] ty.meta@[mi],
                            ty.type_@,
                        ) by {
                            if ty.meta@[mi] == meta {
                                assert(self.meta_to_type@[i as int].0 == meta);
                                assert(self.meta_to_type@[i as int].1@.last().type_@
                                    == ty.type_@);
                            } else {
                                assert(spec_bucket_joined(pre, ty.meta@[mi], ty.type_@));
                                let b = choose|b: int|
                                    0 <= b < pre.len() && (#[trigger] pre[b]).0 == ty.meta@[mi]
                                        && pre[b].1@.len() > 0 && pre[b].1@.last().type_@
                                        == ty.type_@;
                                assert(b != i);
                                assert(self.meta_to_type@[b] == pre[b]);
                            }
                        }
                    }
                },
                None => {
                    let mut entry: Vec<AbstractType> = Vec::new();
                    entry.push(ty.clone_type());
                    let ghost pre = self.meta_to_type@;
                    self.meta_to_type.push((meta, entry));
                    proof {
                        assert forall|mi: int| 0 <= mi < m + 1 implies spec_bucket_joined(
                            self.meta_to_type@,
                            #[trigger] ty.meta@[mi],
                            ty.type_@,
                        ) by {
                            if ty.meta@[mi] == meta {
                                assert(self.meta_to_type@.last().0 == meta);
                                assert(self.meta_to_type@.last().1@.last().type_@ == ty.type_@);
                                assert(self.meta_to_type@[self.meta_to_type@.len() - 1].0
                                    == meta);
                            } else {
                                assert(spec_bucket_joined(pre, ty.meta@[mi], ty.type_@));
                                let b = choose|b: int|
                                    0 <= b < pre.len() && (#[trigger] pre[b]).0 == ty.meta@[mi]
                                        && pre[b].1@.len() > 0 && pre[b].1@.last().type_@
                                        == ty.type_@;
                                assert(self.meta_to_type@[b] == pre[b]);
                            }
                        }
                    }
                },
            }
            m += 1;
        }
        self.abstract_types.push((ty.type_.clone_tag(), ty));
    }

    /// The registered abstract type of a tag. The tag must be registered.
    pub fn abstract_(&self, typ: &TypeTag) -> (r: Option<AbstractType>)
        ensures
            r matches Some(t) ==> t.type_@ == typ@,
    {
        let mut i: usize = 0;
        while i < self.abstract_types.len()
            decreases self.abstract_types@.len() - i,
        {
            if self.abstract_types[i].0.equals(typ) {
                let t = self.abstract_types[i].1.clone_type();
                if t.type_.equals(typ) {
                    return Some(t);
                }
                return None;
            }
            i += 1;
        }
        None
    }

    /// A random registered type with the given metadata, or nothing when
    /// none has it.
    pub fn get_ty_from_meta(&self, meta: &AbstractMetadata, rng: &mut rand::rngs::StdRng) -> (r:
        Option<AbstractType>)
        ensures
            r matches Some(t) ==> exists|i: int, j: int|
                0 <= i < self.meta_to_type@.len() && 0 <= j < self.meta_to_type@[i].1@.len()
                    && self.meta_to_type@[i].0 == *meta && (#[trigger] self.meta_to_type@[i].1@[
                    j]).type_@ == t.type_@,
            r is None ==> (spec_find_meta(self.meta_to_type@, *meta, 0) is None || (
            spec_find_meta(self.meta_to_type@, *meta, 0) matches Some(i)
                && self.meta_to_type@[i].1@.len() == 0)),
    {
        let i = match self.find_meta(meta) {
            Some(i) => i,
            None => {
                return None;
            },
        };
        let bucket_len = self.meta_to_type[i].1.len();
        if bucket_len == 0 {
            return None;
        }
        let j = crate::fuzzer_rng::random_index(rng, bucket_len);
        let t = self.meta_to_type[i].1[j].clone_type();
        proof {
            lemma_find_meta_hit(self.meta_to_type@, *meta, 0);
            assert((self.meta_to_type@[i as int].1@[j as int]).type_@ == t.type_@);
        }
        Some(t)
    }
}

/// A found metadata bucket names the queried metadata.
pub proof fn lemma_find_meta_hit(
    buckets: Seq<(AbstractMetadata, Vec<AbstractType>)>,
    meta: AbstractMetadata,
    from: int,
)
    ensures
        spec_find_meta(buckets, meta, from) matches Some(i) ==> from <= i < buckets.len()
            && buckets[i].0 == meta,
    decreases buckets.len() - from,
{
    if 0 <= from < buckets.len() && buckets[from].0 != meta {
        lemma_find_meta_hit(buckets, meta, from + 1);
    }
}

/// Build a registry from tags and the metadata that pertains to each.
pub fn build_type_registry(registries: Vec<(TypeTag, Vec<AbstractMetadata>)>) -> (r: TypeRegistry) {
    let mut type_registry = TypeRegistry::new();
    let mut registries = registries;
    while registries.len() > 0
        decreases registries@.len(),
    {
        let (tag, metas) = match registries.pop() {
            Some(x) => x,
            None => {
                return type_registry;
            },
        };
        let mut ty = AbstractType::new(tag);
        let mut m: usize = 0;
        while m < metas.len()
            decreases metas@.len() - m,
        {
            ty.add_meta(metas[m]);
            m += 1;
        }
        type_registry.add_ty(ty);
    }
    type_registry
}

} // verus!
