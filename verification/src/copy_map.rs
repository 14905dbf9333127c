use vstd::prelude::*;
use linear_map::LinearMap;
use crate::memory::MemoryCopy;

verus! {

#[verifier::external_type_specification]
#[verifier::external_body]
#[verifier::reject_recursive_types(K)]
#[verifier::reject_recursive_types(V)]
pub struct ExLinearMap<K, V>(LinearMap<K, V>);

/// The key-value contents of a copy map.
pub uninterp spec fn copy_map_model(m: LinearMap<u64, MemoryCopy>) -> Map<u64, MemoryCopy>;

/// Relies on `linear_map::LinearMap::new`: a map with no entries.
#[verifier::external_body]
pub(crate) fn copy_map_new() -> (m: LinearMap<u64, MemoryCopy>)
    ensures
        copy_map_model(m) =~= Map::empty(),
{
    LinearMap::new()
}

/// Relies on `linear_map::LinearMap::get`: the value stored under an equal
/// key, if the map holds one.
#[verifier::external_body]
pub(crate) fn copy_map_get<'a>(m: &'a LinearMap<u64, MemoryCopy>, key: u64) -> (r: Option<
    &'a MemoryCopy,
>)
    ensures
        match r {
            Some(c) => copy_map_model(*m).contains_key(key) && *c == copy_map_model(*m)[key],
            None => !copy_map_model(*m).contains_key(key),
        },
{
    m.get(&key)
}

/// Relies on `linear_map::LinearMap::insert`: after the call the map holds
/// `value` under `key`, displacing any earlier value there; other entries are
/// untouched.
#[verifier::external_body]
pub(crate) fn copy_map_insert(m: &mut LinearMap<u64, MemoryCopy>, key: u64, value: MemoryCopy)
    ensures
        copy_map_model(*final(m)) == copy_map_model(*old(m)).insert(key, value),
{
    m.insert(key, value);
}

/// Relies on `linear_map::LinearMap::remove`: takes the value under an equal
/// key out of the map; a map without such a key is left untouched.
#[verifier::external_body]
pub(crate) fn copy_map_remove(m: &mut LinearMap<u64, MemoryCopy>, key: u64) -> (r: Option<
    MemoryCopy,
>)
    ensures
        match r {
            Some(c) => copy_map_model(*old(m)).contains_key(key) && c == copy_map_model(*old(m))[key]
                && copy_map_model(*final(m)) == copy_map_model(*old(m)).remove(key),
            None => !copy_map_model(*old(m)).contains_key(key) && *final(m) == *old(m),
        },
{
    m.remove(&key)
}

} // verus!
