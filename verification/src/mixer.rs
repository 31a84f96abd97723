//! Routing of the mixer: buses, the tracks that feed them, and where they
//! output.
use vstd::prelude::*;

verus! {

/// Where a send goes.
#[derive(Debug, Clone, Copy, PartialEq, Eq, Structural)]
pub enum SendDestination {
    Bus(usize),
    /// A hardware output.
    External(usize),
}

/// The shape of an equaliser band.
#[derive(Debug, Clone, Copy, PartialEq, Eq, Structural)]
pub enum EQBandType {
    HighPass,
    LowPass,
    Bell,
    HighShelf,
    LowShelf,
    Notch,
}

/// The routing of one bus.
pub struct BusRoute {
    id: usize,
    name: String,
    input_tracks: Vec<usize>,
    /// `None` means the master output.
    output_bus: Option<usize>,
}

/// The routing of a mixer: its buses, numbered in order of creation.
pub struct MixerRouting {
    buses: Vec<BusRoute>,
}

impl BusRoute {
    /// The id of the bus.
    pub closed spec fn bus_id(self) -> usize {
        self.id
    }

    /// The name of the bus.
    pub closed spec fn bus_name(self) -> Seq<char> {
        self.name@
    }

    /// The tracks that feed the bus, in the order they were routed.
    pub closed spec fn inputs(self) -> Seq<usize> {
        self.input_tracks@
    }

    /// The bus this bus outputs to, or `None` for the master.
    pub closed spec fn output(self) -> Option<usize> {
        self.output_bus
    }
}

impl MixerRouting {
    /// The buses, by id.
    pub closed spec fn buses(self) -> Seq<BusRoute> {
        self.buses@
    }

    /// Each bus has its position as id and lists no track twice.
    pub closed spec fn wf(self) -> bool {
        forall|i: int|
            0 <= i < self.buses@.len() ==> (#[trigger] self.buses@[i]).id == i
                && self.buses@[i].input_tracks@.no_duplicates()
    }

    /// A routing without buses.
    pub fn new() -> (r: Self)
        ensures
            r.wf(),
            r.buses() == Seq::<BusRoute>::empty(),
    {
        MixerRouting { buses: Vec::new() }
    }

    /// Add a bus that no track feeds and that outputs to the master; its id
    /// (its position) is returned.
    pub fn create_bus(&mut self, name: String) -> (id: usize)
        requires
            old(self).wf(),
            old(self).buses().len() < usize::MAX,
        ensures
            final(self).wf(),
            id == old(self).buses().len(),
            final(self).buses().len() == id + 1,
            final(self).buses().drop_last() == old(self).buses(),
            final(self).buses().last().bus_id() == id,
            final(self).buses().last().bus_name() == name@,
            final(self).buses().last().inputs() == Seq::<usize>::empty(),
            final(self).buses().last().output() is None,
    {
        let id = self.buses.len();
        self.buses.push(BusRoute { id, name, input_tracks: Vec::new(), output_bus: None });
        assert(self.buses@.drop_last() =~= old(self).buses@);
        id
    }

    /// Feed a bus from a track, unless the bus does not exist or the track
    /// already feeds it.
    pub fn route_track_to_bus(&mut self, track_id: usize, bus_id: usize)
        requires
            old(self).wf(),
        ensures
            final(self).wf(),
            final(self).buses().len() == old(self).buses().len(),
            forall|i: int|
                0 <= i < old(self).buses().len() && i != bus_id ==> #[trigger] final(self).buses()[i]
                    == old(self).buses()[i],
            bus_id < old(self).buses().len() ==> ({
                let pre = old(self).buses()[bus_id as int];
                let post = final(self).buses()[bus_id as int];
                &&& post.bus_id() == pre.bus_id()
                &&& post.bus_name() == pre.bus_name()
                &&& post.output() == pre.output()
                &&& post.inputs() == if pre.inputs().contains(track_id) {
                    pre.inputs()
                } else {
                    pre.inputs().push(track_id)
                }
            }),
    {
        if bus_id < self.buses.len() {
            let mut present = false;
            let mut i: usize = 0;
            let n = self.buses[bus_id].input_tracks.len();
            while i < n
                invariant
                    bus_id < self.buses@.len(),
                    n == self.buses@[bus_id as int].input_tracks@.len(),
                    i <= n,
                    present == exists|j: int|
                        0 <= j < i && self.buses@[bus_id as int].input_tracks@[j] == track_id,
                decreases n - i,
            {
                if self.buses[bus_id].input_tracks[i] == track_id {
                    present = true;
                }
                i = i + 1;
            }
            proof {
                let ins = self.buses@[bus_id as int].input_tracks@;
                if present {
                    let j = choose|j: int| 0 <= j < i && ins[j] == track_id;
                    assert(ins.contains(track_id));
                } else {
                    assert(!ins.contains(track_id));
                }
            }
            if !present {
                let ghost before = self.buses@[bus_id as int].input_tracks@;
                self.buses[bus_id].input_tracks.push(track_id);
                proof {
                    let after = self.buses@[bus_id as int].input_tracks@;
                    assert(after == before.push(track_id));
                    assert forall|a: int, b: int|
                        0 <= a < after.len() && 0 <= b < after.len() && a != b implies after[a]
                        != after[b] by {
                        if a < before.len() && b < before.len() {
                        } else if a == before.len() {
                            assert(before[b] != track_id);
                        } else {
                            assert(before[a] != track_id);
                        }
                    }
                    assert(after.no_duplicates());
                }
            }
        }
    }

    /// Whether some bus is fed by a track (tracks that feed no bus go
    /// straight to the master).
    pub fn is_routed_to_bus(&self, track_id: usize) -> (r: bool)
        ensures
            r == exists|i: int|
                0 <= i < self.buses().len() && (#[trigger] self.buses()[i]).inputs().contains(
                    track_id,
                ),
    {
        let mut i: usize = 0;
        while i < self.buses.len()
            invariant
                i <= self.buses@.len(),
                forall|j: int|
                    0 <= j < i ==> !(#[trigger] self.buses@[j]).input_tracks@.contains(track_id),
            decreases self.buses@.len() - i,
        {
            let n = self.buses[i].input_tracks.len();
            let mut k: usize = 0;
            while k < n
                invariant
                    i < self.buses@.len(),
                    n == self.buses@[i as int].input_tracks@.len(),
                    k <= n,
                    forall|m: int| 0 <= m < k ==> self.buses@[i as int].input_tracks@[m] != track_id,
                decreases n - k,
            {
                if self.buses[i].input_tracks[k] == track_id {
                    assert(self.buses()[i as int].inputs()[k as int] == track_id);
                    assert(self.buses()[i as int].inputs().contains(track_id));
                    return true;
                }
                k = k + 1;
            }
            assert(!self.buses@[i as int].input_tracks@.contains(track_id));
            i = i + 1;
        }
        false
    }

    /// Whether the bus at a position outputs to the master.
    pub fn outputs_to_master(&self, bus_id: usize) -> (r: bool)
        requires
            bus_id < self.buses().len(),
        ensures
            r == self.buses()[bus_id as int].output() is None,
    {
        self.buses[bus_id].output_bus.is_none()
    }

    /// The tracks that feed the bus at a position, in the order they were
    /// routed.
    pub fn bus_inputs(&self, bus_id: usize) -> (r: &[usize])
        requires
            bus_id < self.buses().len(),
        ensures
            r@ == self.buses()[bus_id as int].inputs(),
    {
        self.buses[bus_id].input_tracks.as_slice()
    }

    /// The number of buses.
    pub fn bus_count(&self) -> (r: usize)
        ensures
            r == self.buses().len(),
    {
        self.buses.len()
    }
}

} // verus!
