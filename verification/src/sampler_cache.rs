//! A cache of sampler objects, keyed by the parameters of the sampler.

use crate::backend::{lemma_key_injective, SamplerInfo};
use crate::error::ResourceError;
use crate::vk::{
    border_float_opaque_white, float_opaque_white_border, linear_mipmap_mode, mipmap_linear,
};
use std::collections::HashMap;
use vstd::prelude::*;
use vstd::std_specs::hash::{axiom_spec_values_iter, spec_values_iter};
use vstd::std_specs::iter::IteratorSpec;

verus! {

/// What a sampler is created with.
#[derive(Debug, Copy, Clone, PartialEq, Eq)]
pub struct SamplerCreateInfo {
    pub border_color: i32,
    pub compare_enable: bool,
    pub anisotropy_enable: bool,
    pub max_anisotropy: u32,
    pub max_lod: u32,
    pub mipmap_mode: i32,
    pub min_filter: i32,
    pub mag_filter: i32,
    pub address_mode_u: i32,
    pub address_mode_v: i32,
    pub address_mode_w: i32,
    pub compare_op: i32,
}

/// The answer of the cache to a request for a sampler.
#[derive(Debug, Copy, Clone, PartialEq, Eq)]
pub enum SamplerRequest {
    /// The cache holds a sampler with these parameters: this one.
    Cached(u64),
    /// The cache holds none. A sampler is to be created with what is given
    /// here, and handed to the cache.
    Create(SamplerCreateInfo),
}

/// What a sampler with the parameters `info` is created with: an opaque
/// white border, linear interpolation between mip levels, as many levels of
/// detail as the texture has mip levels, and everything else as `info` says.
pub open spec fn sampler_create_info(info: SamplerInfo) -> SamplerCreateInfo {
    SamplerCreateInfo {
        border_color: border_float_opaque_white(),
        compare_enable: info.enable_compare,
        anisotropy_enable: info.enable_anisotropy,
        max_anisotropy: info.anisotropy,
        max_lod: info.mip_levels,
        mipmap_mode: mipmap_linear(),
        min_filter: info.min_filter.code(),
        mag_filter: info.mag_filter.code(),
        address_mode_u: info.addr_mode_u.code(),
        address_mode_v: info.addr_mode_v.code(),
        address_mode_w: info.addr_mode_w.code(),
        compare_op: info.compare_op.code(),
    }
}

/// What becomes of a cache and which sampler is handed out when a sampler
/// with the parameters `info` is asked for, and `fresh` is the sampler that
/// is created where the cache holds none.
pub open spec fn get_or_create(cache: Map<SamplerInfo, u64>, info: SamplerInfo, fresh: u64) -> (
    Map<SamplerInfo, u64>,
    u64,
) {
    if cache.contains_key(info) {
        (cache, cache[info])
    } else {
        (cache.insert(info, fresh), fresh)
    }
}

/// No sampler of the cache is filed under two sets of parameters.
pub open spec fn samplers_distinct(cache: Map<SamplerInfo, u64>) -> bool {
    forall|a: SamplerInfo, b: SamplerInfo|
        cache.contains_key(a) && cache.contains_key(b) && a != b ==> cache[a] != cache[b]
}

/// A cache for sampler objects. Allows for re-using the same samplers which
/// fit the requested sampler parameters rather than creating new samplers
/// on each request. Also, simplifies the destruction at the point of
/// termination: the samplers go together, with the cache.
///
/// The cache changes through `&mut self` alone. An owner that shares it
/// between threads has to put it behind a lock: the borrow rules leave no
/// other way to reach [`SamplerCache::insert`].
pub struct SamplerCache {
    samplers: HashMap<u128, u64>,
}

impl View for SamplerCache {
    type V = Map<SamplerInfo, u64>;

    closed spec fn view(&self) -> Map<SamplerInfo, u64> {
        Map::new(
            |info: SamplerInfo| self.samplers@.contains_key(info.key() as u128),
            |info: SamplerInfo| self.samplers@[info.key() as u128],
        )
    }
}

impl SamplerCache {
    #[verifier::type_invariant]
    closed spec fn well_formed(&self) -> bool {
        forall|key: u128| #[trigger]
            self.samplers@.contains_key(key) ==> exists|info: SamplerInfo| info.key() == key
    }

    /// The number of samplers in the cache.
    pub closed spec fn count(&self) -> nat {
        self.samplers@.dom().len()
    }

    /// An empty cache.
    pub fn new() -> (cache: Self)
        ensures
            cache@ == Map::<SamplerInfo, u64>::empty(),
            cache.count() == 0,
    {
        let cache = Self { samplers: HashMap::new() };
        assert(cache@ =~= Map::<SamplerInfo, u64>::empty());
        cache
    }

    /// What a sampler with the parameters `info` is created with.
    pub fn create_info(info: &SamplerInfo) -> (create_info: SamplerCreateInfo)
        ensures
            create_info == sampler_create_info(*info),
    {
        SamplerCreateInfo {
            border_color: float_opaque_white_border(),
            compare_enable: info.enable_compare,
            anisotropy_enable: info.enable_anisotropy,
            max_anisotropy: info.anisotropy,
            max_lod: info.mip_levels,
            mipmap_mode: linear_mipmap_mode(),
            min_filter: info.min_filter.to_vk(),
            mag_filter: info.mag_filter.to_vk(),
            address_mode_u: info.addr_mode_u.to_vk(),
            address_mode_v: info.addr_mode_v.to_vk(),
            address_mode_w: info.addr_mode_w.to_vk(),
            compare_op: info.compare_op.to_vk(),
        }
    }

    /// Asks for the sampler with the parameters `info`.
    ///
    /// Where the cache holds one, it is handed out as it is. Where it holds
    /// none, the answer says what to create; the outcome goes to
    /// [`SamplerCache::insert`].
    pub fn get_or_create_sampler(&self, info: &SamplerInfo) -> (request: SamplerRequest)
        ensures
            request == if self@.contains_key(*info) {
                SamplerRequest::Cached(self@[*info])
            } else {
                SamplerRequest::Create(sampler_create_info(*info))
            },
    {
        let key = info.hash_key();
        match self.samplers.get(&key) {
            Some(sampler) => SamplerRequest::Cached(*sampler),
            None => SamplerRequest::Create(Self::create_info(info)),
        }
    }

    /// Takes up the outcome of creating the sampler with the parameters
    /// `info`.
    ///
    /// A rejection by the driver becomes [`ResourceError::SamplerCreation`]
    /// with the driver's result code. A sampler for parameters that the
    /// cache holds already is refused with
    /// [`ResourceError::SamplerAlreadyCached`]. In both cases the cache
    /// stays as it was. Otherwise the sampler is filed and handed out.
    pub fn insert(&mut self, info: &SamplerInfo, created: Result<u64, i32>) -> (sampler: Result<
        u64,
        ResourceError,
    >)
        ensures
            sampler == match created {
                Err(code) => Err::<u64, ResourceError>(ResourceError::SamplerCreation(code)),
                Ok(handle) => if old(self)@.contains_key(*info) {
                    Err(ResourceError::SamplerAlreadyCached)
                } else {
                    Ok(handle)
                },
            },
            final(self)@ == match sampler {
                Ok(handle) => old(self)@.insert(*info, handle),
                Err(_) => old(self)@,
            },
            sampler matches Ok(handle) ==> (final(self)@, handle) == get_or_create(
                old(self)@,
                *info,
                handle,
            ),
            final(self).count() == old(self).count() + if sampler is Ok {
                1nat
            } else {
                0nat
            },
    {
        proof {
            use_type_invariant(&*self);
        }
        let handle = match created {
            Ok(handle) => handle,
            Err(code) => {
                return Err(ResourceError::SamplerCreation(code));
            },
        };
        let key = info.hash_key();
        if self.samplers.contains_key(&key) {
            return Err(ResourceError::SamplerAlreadyCached);
        }
        let ghost view_before = self@;
        // The map is taken out while it changes and put back when it is whole again.
        let mut samplers: HashMap<u128, u64> = HashMap::new();
        std::mem::swap(&mut self.samplers, &mut samplers);
        samplers.insert(key, handle);
        std::mem::swap(&mut self.samplers, &mut samplers);
        proof {
            assert forall|other: SamplerInfo|
                other != *info implies other.key() as u128 != info.key() as u128 by {
                if other.key() == info.key() {
                    lemma_key_injective(other, *info);
                }
            }
            assert(self@ =~= view_before.insert(*info, handle));
        }
        Ok(handle)
    }

    /// The number of samplers in the cache.
    pub fn len(&self) -> (count: usize)
        ensures
            count == self.count(),
    {
        self.samplers.len()
    }

    /// Empties the cache and returns its samplers, which are to be
    /// destroyed. Samplers leave the cache only this way, all at once.
    ///
    /// Each entry of the cache gives one sampler; the order in which they
    /// are returned is not stated.
    pub fn destroy(&mut self) -> (samplers: Vec<u64>)
        ensures
            final(self)@ == Map::<SamplerInfo, u64>::empty(),
            final(self).count() == 0,
            samplers@.len() == old(self).count(),
            forall|sampler: u64| #[trigger]
                samplers@.contains(sampler) <==> old(self)@.contains_value(sampler),
    {
        proof {
            use_type_invariant(&*self);
        }
        let ghost view_before = self@;
        let mut cached: HashMap<u128, u64> = HashMap::new();
        std::mem::swap(&mut self.samplers, &mut cached);
        assert(self@ =~= Map::<SamplerInfo, u64>::empty());
        let mut samplers: Vec<u64> = Vec::new();
        let ghost walk: Seq<u64> = spec_values_iter(&cached).remaining().unref();
        proof {
            axiom_spec_values_iter(&cached);
        }
        for sampler in it: cached.values()
            invariant
                it.seq().unref() == walk,
                samplers@ == walk.take(it.index() as int),
        {
            assert(walk.take(it.index() + 1) =~= walk.take(it.index() as int).push(*sampler));
            samplers.push(*sampler);
        }
        proof {
            assert(samplers@ =~= walk);
            assert forall|sampler: u64| #[trigger]
                samplers@.contains(sampler) <==> view_before.contains_value(sampler) by {
                if samplers@.contains(sampler) {
                    assert(walk.to_set().contains(sampler));
                    assert(cached@.values().contains(sampler));
                    let key = choose|key: u128| #[trigger]
                        cached@.contains_key(key) && cached@[key] == sampler;
                    let info = choose|info: SamplerInfo| info.key() == key;
                    assert(view_before.contains_key(info) && view_before[info] == sampler);
                }
                if view_before.contains_value(sampler) {
                    let info = choose|info: SamplerInfo| #[trigger]
                        view_before.contains_key(info) && view_before[info] == sampler;
                    assert(cached@.contains_key(info.key() as u128));
                    assert(cached@.values().contains(sampler));
                    assert(walk.to_set().contains(sampler));
                }
            }
        }
        samplers
    }
}

/// Asking twice gives the same sampler: once a sampler was handed out for
/// some parameters, every later request with these parameters gets that
/// sampler, nothing is created for it, and the cache stays as it is.
pub proof fn lemma_get_or_create_reuses(
    cache: Map<SamplerInfo, u64>,
    info: SamplerInfo,
    fresh: u64,
    later: u64,
)
    ensures
        ({
            let (first_cache, first) = get_or_create(cache, info, fresh);
            get_or_create(first_cache, info, later) == (first_cache, first)
        }),
{
}

/// A request leaves what the cache holds for other parameters alone.
pub proof fn lemma_get_or_create_keeps(
    cache: Map<SamplerInfo, u64>,
    info: SamplerInfo,
    fresh: u64,
    other: SamplerInfo,
)
    requires
        cache.contains_key(other),
    ensures
        get_or_create(cache, info, fresh).0.contains_key(other),
        get_or_create(cache, info, fresh).0[other] == cache[other],
{
}

/// Different parameters get different samplers. As long as every sampler
/// that is created is one that the cache does not hold yet, no sampler is
/// ever handed out for two sets of parameters that differ in a field.
pub proof fn lemma_get_or_create_tells_apart(
    cache: Map<SamplerInfo, u64>,
    a: SamplerInfo,
    b: SamplerInfo,
    fresh_a: u64,
    fresh_b: u64,
)
    requires
        a != b,
        samplers_distinct(cache),
        !cache.contains_value(fresh_a),
        !get_or_create(cache, a, fresh_a).0.contains_value(fresh_b),
    ensures
        ({
            let (cache_a, sampler_a) = get_or_create(cache, a, fresh_a);
            let (cache_b, sampler_b) = get_or_create(cache_a, b, fresh_b);
            &&& sampler_a != sampler_b
            &&& samplers_distinct(cache_a)
            &&& samplers_distinct(cache_b)
            &&& cache_b[a] == sampler_a
            &&& cache_b[b] == sampler_b
        }),
{
    let (cache_a, sampler_a) = get_or_create(cache, a, fresh_a);
    let (cache_b, sampler_b) = get_or_create(cache_a, b, fresh_b);
    assert(samplers_distinct(cache_a)) by {
        assert forall|x: SamplerInfo, y: SamplerInfo|
            cache_a.contains_key(x) && cache_a.contains_key(y) && x != y implies cache_a[x]
            != cache_a[y] by {
            if !cache.contains_key(a) {
                if x == a {
                    assert(cache.contains_key(y));
                } else if y == a {
                    assert(cache.contains_key(x));
                }
            }
        }
    }
    assert(cache_a.contains_key(a) && cache_a[a] == sampler_a);
    assert(samplers_distinct(cache_b)) by {
        assert forall|x: SamplerInfo, y: SamplerInfo|
            cache_b.contains_key(x) && cache_b.contains_key(y) && x != y implies cache_b[x]
            != cache_b[y] by {
            if !cache_a.contains_key(b) {
                if x == b {
                    assert(cache_a.contains_key(y));
                } else if y == b {
                    assert(cache_a.contains_key(x));
                }
            }
        }
    }
    assert(cache_b.contains_key(a) && cache_b.contains_key(b));
}

/// The key under which parameters are filed takes every field into account:
/// parameters that differ in a field are filed under different keys.
pub proof fn lemma_keys_tell_apart(a: SamplerInfo, b: SamplerInfo)
    requires
        a != b,
    ensures
        a.key() != b.key(),
{
    if a.key() == b.key() {
        lemma_key_injective(a, b);
    }
}

} // verus!
