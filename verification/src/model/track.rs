//! Track kinds, and the index that finds a plugin of a track's chain by id.
use vstd::prelude::*;

use std::collections::HashMap;

verus! {

broadcast use vstd::std_specs::hash::group_hash_axioms;

/// The kind of a track.
#[derive(Debug, Clone, Copy, PartialEq, Eq, Structural)]
pub enum TrackType {
    Audio,
    Midi,
    Bus,
}

/// The index of a plugin chain, given the ids of its plugins in order: each
/// nonzero id maps to its position (to the last, if it occurs twice); id 0
/// marks a plugin without an id and is left out.
pub open spec fn chain_index(ids: Seq<u64>) -> Map<u64, usize>
    decreases ids.len(),
{
    if ids.len() == 0 {
        Map::empty()
    } else {
        let m = chain_index(ids.drop_last());
        if ids.last() != 0 {
            m.insert(ids.last(), (ids.len() - 1) as usize)
        } else {
            m
        }
    }
}

/// Finds a plugin of a track's chain by its id.
pub struct PluginIndex {
    plugin_by_id: HashMap<u64, usize>,
}

impl PluginIndex {
    /// Plugin ids and the positions they are found at.
    pub closed spec fn positions(self) -> Map<u64, usize> {
        self.plugin_by_id@
    }

    /// An index that finds nothing.
    pub fn new() -> (r: Self)
        ensures
            r.positions() == Map::<u64, usize>::empty(),
    {
        PluginIndex { plugin_by_id: HashMap::new() }
    }

    /// Index a chain anew from the ids of its plugins, in order.
    pub fn rebuild_plugin_index(&mut self, plugin_ids: &Vec<u64>)
        ensures
            final(self).positions() == chain_index(plugin_ids@),
    {
        self.plugin_by_id.clear();
        let mut idx: usize = 0;
        while idx < plugin_ids.len()
            invariant
                idx <= plugin_ids@.len(),
                self.plugin_by_id@ == chain_index(plugin_ids@.take(idx as int)),
            decreases plugin_ids@.len() - idx,
        {
            proof {
                assert(plugin_ids@.take(idx + 1).drop_last() =~= plugin_ids@.take(idx as int));
            }
            let id = plugin_ids[idx];
            if id != 0 {
                self.plugin_by_id.insert(id, idx);
            }
            idx = idx + 1;
        }
        assert(plugin_ids@.take(plugin_ids@.len() as int) =~= plugin_ids@);
    }

    /// The position of the plugin with an id in a chain of `chain_len`
    /// plugins: the indexed position, if there is one and it lies in the
    /// chain.
    pub fn find_plugin(&self, chain_len: usize, plugin_id: u64) -> (r: Option<usize>)
        ensures
            r == (if self.positions().contains_key(plugin_id) && self.positions()[plugin_id]
                < chain_len {
                Some(self.positions()[plugin_id])
            } else {
                None
            }),
    {
        match self.plugin_by_id.get(&plugin_id) {
            Some(idx) => if *idx < chain_len {
                Some(*idx)
            } else {
                None
            },
            None => None,
        }
    }
}

/// An index built from a chain finds each plugin whose id is nonzero and
/// occurs once at its position, and finds nothing for an id that does not
/// occur.
pub proof fn lemma_rebuilt_index_finds_plugins(ids: Seq<u64>, id: u64)
    requires
        ids.len() <= usize::MAX,
    ensures
        !ids.contains(id) || id == 0 ==> !chain_index(ids).contains_key(id),
        forall|k: int|
            0 <= k < ids.len() && ids[k] == id && id != 0 && (forall|j: int|
                0 <= j < ids.len() && j != k ==> ids[j] != id) ==> chain_index(ids).contains_key(id)
                && chain_index(ids)[id] == k,
    decreases ids.len(),
{
    if ids.len() > 0 {
        let init = ids.drop_last();
        lemma_rebuilt_index_finds_plugins(init, id);
        if !ids.contains(id) {
            assert(!init.contains(id)) by {
                if init.contains(id) {
                    let j = choose|j: int| 0 <= j < init.len() && init[j] == id;
                    assert(ids[j] == id);
                }
            }
        }
        assert forall|k: int|
            0 <= k < ids.len() && ids[k] == id && id != 0 && (forall|j: int|
                0 <= j < ids.len() && j != k ==> ids[j] != id) implies chain_index(
            ids,
        ).contains_key(id) && chain_index(ids)[id] == k by {
            if k < ids.len() - 1 {
                assert(init[k] == id);
                assert forall|j: int| 0 <= j < init.len() && j != k implies init[j] != id by {
                    assert(init[j] == ids[j]);
                }
                assert(ids.last() != id);
            }
        }
    }
}

} // verus!
