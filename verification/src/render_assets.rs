//! The asset cache: a keyed store from image handles to GPU-resident
//! textures, read by the readiness check and the binding resolver.

use vstd::prelude::*;

use crate::handle::Handle;
use crate::texture::GpuImage;

verus! {

/// The map denoted by a sequence of key/value entries, later entries
/// shadowing earlier ones with the same key.
pub open spec fn entries_map(s: Seq<(u128, GpuImage)>) -> Map<u128, GpuImage>
    decreases s.len(),
{
    if s.len() == 0 {
        Map::empty()
    } else {
        entries_map(s.drop_last()).insert(s.last().0, s.last().1)
    }
}

/// Entries at positions `i` and beyond never mention key `k`, so dropping
/// them does not change what the sequence says about `k`.
proof fn lemma_entries_map_prefix(s: Seq<(u128, GpuImage)>, i: int, k: u128)
    requires
        0 <= i <= s.len(),
        forall|j: int| i <= j < s.len() ==> s[j].0 != k,
    ensures
        entries_map(s).contains_key(k) == entries_map(s.take(i)).contains_key(k),
        entries_map(s).contains_key(k) ==> entries_map(s)[k] == entries_map(s.take(i))[k],
    decreases s.len(),
{
    if i == s.len() {
        assert(s.take(i) =~= s);
    } else {
        let t = s.drop_last();
        lemma_entries_map_prefix(t, i, k);
        assert(t.take(i) =~= s.take(i));
    }
}

/// The store of textures that have finished loading, keyed by the id of the
/// handle that names them. Lookup misses for assets that are not resident.
#[derive(Clone, Debug)]
pub struct RenderAssets {
    entries: Vec<(u128, GpuImage)>,
}

impl View for RenderAssets {
    type V = Map<u128, GpuImage>;

    closed spec fn view(&self) -> Map<u128, GpuImage> {
        entries_map(self.entries@)
    }
}

impl RenderAssets {
    /// A cache with no resident textures.
    pub fn new() -> (r: Self)
        ensures
            r@ == Map::<u128, GpuImage>::empty(),
    {
        RenderAssets { entries: Vec::new() }
    }

    /// Makes `image` resident under `handle`, replacing any texture the
    /// handle already resolved to.
    pub fn insert(&mut self, handle: Handle, image: GpuImage)
        ensures
            final(self)@ == old(self)@.insert(handle.id, image),
    {
        self.entries.push((handle.id, image));
        proof {
            assert(self.entries@.drop_last() =~= old(self).entries@);
        }
    }

    /// Looks a handle up: the resident texture it resolves to, or `None` when
    /// the asset has not finished loading or the handle is unregistered.
    pub fn get(&self, handle: &Handle) -> (r: Option<GpuImage>)
        ensures
            self@.contains_key(handle.id) ==> r == Some(self@[handle.id]),
            !self@.contains_key(handle.id) ==> r == Option::<GpuImage>::None,
    {
        let mut i: usize = self.entries.len();
        while i > 0
            invariant
                i <= self.entries.len(),
                forall|j: int| i <= j < self.entries@.len() ==> self.entries@[j].0 != handle.id,
            decreases i,
        {
            i = i - 1;
            if self.entries[i].0 == handle.id {
                proof {
                    lemma_entries_map_prefix(self.entries@, i + 1, handle.id);
                    assert(self.entries@.take(i + 1).last() == self.entries@[i as int]);
                }
                return Some(self.entries[i].1);
            }
        }
        proof {
            lemma_entries_map_prefix(self.entries@, 0, handle.id);
            assert(self.entries@.take(0) =~= Seq::<(u128, GpuImage)>::empty());
        }
        None
    }
}

} // verus!
