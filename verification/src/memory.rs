//! Choosing the memory type for a buffer or an image.

use vstd::prelude::*;

verus! {

/// Largest number of memory types that a device reports.
pub const MAX_MEMORY_TYPES: usize = 32;

/// Bit `i` of `type_filter` is set.
pub open spec fn type_allowed(type_filter: u32, i: int) -> bool {
    0 <= i < MAX_MEMORY_TYPES && (type_filter >> (i as u32)) & 1u32 == 1u32
}

/// Every property flag of `wanted` is among `flags`.
pub open spec fn has_properties(flags: u32, wanted: u32) -> bool {
    flags & wanted == wanted
}

/// Memory type `i` may be used and has the wanted properties.
pub open spec fn suitable(memory_types: Seq<u32>, type_filter: u32, properties: u32, i: int) -> bool {
    &&& 0 <= i < memory_types.len()
    &&& type_allowed(type_filter, i)
    &&& has_properties(memory_types[i], properties)
}

/// Finds the first memory type that `type_filter` allows and that has all of
/// `properties`.
///
/// `memory_types` holds the property flags of each memory type of the
/// device, `type_filter` has bit `i` set where type `i` may be used. The
/// result is `None` exactly where no type is suitable.
pub fn find_memory_type(memory_types: &[u32], type_filter: u32, properties: u32) -> (r: Option<
    u32,
>)
    ensures
        match r {
            Some(i) => suitable(memory_types@, type_filter, properties, i as int) && forall|k: int|
                0 <= k < i ==> !suitable(memory_types@, type_filter, properties, k),
            None => forall|k: int| !suitable(memory_types@, type_filter, properties, k),
        },
{
    let mut i: u32 = 0;
    while (i as usize) < MAX_MEMORY_TYPES && (i as usize) < memory_types.len()
        invariant
            i <= 32,
            i <= memory_types@.len(),
            forall|k: int| 0 <= k < i ==> !suitable(memory_types@, type_filter, properties, k),
        decreases 32 - i,
    {
        if (type_filter >> i) & 1 == 1 && memory_types[i as usize] & properties == properties {
            return Some(i);
        }
        i += 1;
    }
    None
}

} // verus!
