//! The bus registry: discovery of device nodes and the process-lifetime
//! collection of opened bus handles.
//!
//! Discovery filters a directory listing by a filename prefix, attempts to
//! open each candidate, assigns the next sequential index to each successful
//! open, skips failures, and stops early once `MAX_BUSES` buses are open.
//! Entries are taken in the order they were listed — not sorted by numeric
//! suffix — so index assignment follows enumeration order by design.
//! An unreadable directory yields an empty registry: the service still
//! starts, and every bus-indexed request then fails validation.

use vstd::prelude::*;
use vstd::string::StrSliceExecFns;
use vstd::string::StringExecFns;

use crate::bus::BusInfo;
use crate::error::HardwareError;
use crate::message::MessageShape;

verus! {

/// Discovery stops, without error, once this many buses have been opened: a
/// single deployment cannot practically drive more independent controllers.
pub const MAX_BUSES: usize = 127;

/// Index and device path of one bus, as handed out to callers listing the
/// registry.
#[derive(Debug, Clone, PartialEq, Eq)]
pub struct BusDescriptor {
    pub id: usize,
    pub path: String,
}

/// Whether `prefix` is a prefix of `s`.
pub fn starts_with_prefix(s: &str, prefix: &str) -> (r: bool)
    ensures
        r == prefix@.is_prefix_of(s@),
{
    let n = prefix.unicode_len();
    if n > s.unicode_len() {
        return false;
    }
    for i in 0..n
        invariant
            n == prefix@.len(),
            n <= s@.len(),
            forall|j: int| 0 <= j < i ==> s@[j] == prefix@[j],
    {
        if s.get_char(i) != prefix.get_char(i) {
            return false;
        }
    }
    proof {
        assert(s@.subrange(0, n as int) =~= prefix@);
    }
    true
}

/// The views of a sequence of strings.
pub open spec fn names_view(names: Seq<String>) -> Seq<Seq<char>> {
    names.map_values(|s: String| s@)
}

/// The device paths that discovery will attempt to open, in listing order:
/// for each directory entry whose name starts with `prefix`, the directory
/// path followed by the entry name.
pub open spec fn spec_candidates(
    dir: Seq<char>,
    prefix: Seq<char>,
    names: Seq<Seq<char>>,
) -> Seq<Seq<char>>
    decreases names.len(),
{
    if names.len() == 0 {
        Seq::empty()
    } else {
        let head: Seq<Seq<char>> = if prefix.is_prefix_of(names[0]) {
            seq![dir + names[0]]
        } else {
            Seq::empty()
        };
        head + spec_candidates(dir, prefix, names.drop_first())
    }
}

proof fn lemma_candidates_snoc(dir: Seq<char>, prefix: Seq<char>, names: Seq<Seq<char>>, x: Seq<char>)
    ensures
        spec_candidates(dir, prefix, names.push(x)) == spec_candidates(dir, prefix, names) + (
        if prefix.is_prefix_of(x) {
            seq![dir + x]
        } else {
            Seq::<Seq<char>>::empty()
        }),
    decreases names.len(),
{
    let tail: Seq<Seq<char>> = if prefix.is_prefix_of(x) {
        seq![dir + x]
    } else {
        Seq::empty()
    };
    if names.len() == 0 {
        assert(names.push(x).len() == 1);
        assert(names.push(x)[0] == x);
        assert(names.push(x).drop_first() =~= Seq::<Seq<char>>::empty());
        assert(spec_candidates(dir, prefix, Seq::<Seq<char>>::empty()) =~= Seq::<
            Seq<char>,
        >::empty());
        assert(spec_candidates(dir, prefix, names.push(x)) =~= tail);
        assert(spec_candidates(dir, prefix, names.push(x)) =~= spec_candidates(dir, prefix, names)
            + tail);
    } else {
        lemma_candidates_snoc(dir, prefix, names.drop_first(), x);
        assert(names.push(x).drop_first() =~= names.drop_first().push(x));
        assert(names.push(x)[0] == names[0]);
        assert(spec_candidates(dir, prefix, names.push(x)) =~= spec_candidates(dir, prefix, names)
            + tail);
    }
}

/// Lists the device paths discovery will attempt, in listing order: one for
/// each entry whose name starts with `prefix`, formed as `dir` followed by
/// the entry name.
pub fn discovery_paths(dir: &str, prefix: &str, entries: &Vec<String>) -> (r: Vec<String>)
    ensures
        names_view(r@) == spec_candidates(dir@, prefix@, names_view(entries@)),
{
    let mut out: Vec<String> = Vec::new();
    let n = entries.len();
    proof {
        assert(names_view(entries@).take(0) =~= Seq::<Seq<char>>::empty());
        assert(names_view(out@) =~= Seq::<Seq<char>>::empty());
    }
    for k in 0..n
        invariant
            n == entries@.len(),
            names_view(out@) == spec_candidates(dir@, prefix@, names_view(entries@).take(k as int)),
    {
        let ghost prev = names_view(out@);
        if starts_with_prefix(entries[k].as_str(), prefix) {
            let path = String::from_str(dir).concat(entries[k].as_str());
            out.push(path);
            proof {
                assert(names_view(out@) =~= prev.push(dir@ + entries@[k as int]@));
            }
        }
        proof {
            lemma_candidates_snoc(
                dir@,
                prefix@,
                names_view(entries@).take(k as int),
                names_view(entries@)[k as int],
            );
            assert(names_view(entries@).take(k + 1) =~= names_view(entries@).take(
                k as int,
            ).push(names_view(entries@)[k as int]));
            assert(names_view(out@) =~= spec_candidates(
                dir@,
                prefix@,
                names_view(entries@).take(k + 1),
            ));
        }
    }
    proof {
        assert(names_view(entries@).take(n as int) =~= names_view(entries@));
    }
    out
}

/// The registry: the ordered collection of opened bus handles, fixed once
/// discovery completes.  An index is valid exactly when it is below the
/// collection's length.  Every transaction goes through `&mut Registry`, so
/// transactions are mutually exclusive with each other, even across
/// physically independent buses.
pub struct Registry {
    buses: Vec<BusInfo>,
}

impl View for Registry {
    type V = Seq<Seq<char>>;

    /// A registry is abstractly the sequence of its bus device paths, in
    /// index order: the bus at position `i` carries index `i`.
    closed spec fn view(&self) -> Seq<Seq<char>> {
        self.buses@.map_values(|b: BusInfo| b.path@)
    }
}

impl Registry {
    /// The bus at position `i` carries index `i`, and the collection never
    /// exceeds the discovery bound.
    pub closed spec fn wf(&self) -> bool {
        &&& self.buses@.len() <= MAX_BUSES
        &&& forall|i: int| 0 <= i < self.buses@.len() ==> (#[trigger] self.buses@[i]).id == i
    }

    /// The exchange log of every bus, in index order: for each bus, the plan
    /// shape of every exchange issued on it since discovery, oldest first.
    pub closed spec fn logs(&self) -> Seq<Seq<Seq<MessageShape>>> {
        self.buses@.map_values(|b: BusInfo| b.exchanged@)
    }

    /// An empty registry.
    pub fn empty() -> (r: Registry)
        ensures
            r.wf(),
            r@.len() == 0,
            r.logs().len() == 0,
    {
        let r = Registry { buses: Vec::new() };
        proof {
            assert(r@ =~= Seq::<Seq<char>>::empty());
            assert(r.logs() =~= Seq::<Seq<Seq<MessageShape>>>::empty());
        }
        r
    }

    /// How many buses discovery opened.
    pub fn len(&self) -> (n: usize)
        ensures
            n == self@.len(),
    {
        proof {
            assert(self@.len() == self.buses@.len());
        }
        self.buses.len()
    }

    /// Index and path of every bus, in index order.
    pub fn descriptors(&self) -> (r: Vec<BusDescriptor>)
        requires
            self.wf(),
        ensures
            r@.len() == self@.len(),
            forall|i: int| 0 <= i < r@.len() ==> (#[trigger] r@[i]).id == i && r@[i].path@
                == self@[i],
    {
        let mut out: Vec<BusDescriptor> = Vec::new();
        let n = self.buses.len();
        for k in 0..n
            invariant
                self.wf(),
                n == self.buses@.len(),
                out@.len() == k,
                forall|i: int| 0 <= i < k ==> (#[trigger] out@[i]).id == i && out@[i].path@
                    == self@[i],
        {
            out.push(BusDescriptor { id: self.buses[k].id, path: self.buses[k].path.clone() });
        }
        proof {
            assert(self@.len() == self.buses@.len());
        }
        out
    }

    /// Hands out the bus at position `i` for one transaction.
    fn bus_at_mut(&mut self, i: usize) -> (b: &mut BusInfo)
        requires
            i < old(self).buses@.len(),
        ensures
            *b == old(self).buses@[i as int],
            final(self).buses@ == old(self).buses@.update(i as int, *final(b)),
    {
        &mut self.buses[i]
    }

    /// Writes a single byte to the device at `addr` on the bus at `bus_id`:
    /// exactly one exchange of one outbound message `[value]` is issued on
    /// that bus, and no other bus is touched.
    pub fn write_byte(&mut self, bus_id: usize, addr: u16, value: u8) -> (r: Result<
        i32,
        HardwareError,
    >)
        requires
            old(self).wf(),
            bus_id < old(self)@.len(),
        ensures
            final(self).wf(),
            final(self)@ == old(self)@,
            final(self).logs() == old(self).logs().update(
                bus_id as int,
                old(self).logs()[bus_id as int].push(seq![MessageShape::Write(seq![value])]),
            ),
            r matches Ok(n) ==> 0 <= n <= 1,
    {
        proof {
            assert(self@.len() == self.buses@.len());
            assert(self.logs()[bus_id as int] == self.buses@[bus_id as int].exchanged@);
        }
        let b = self.bus_at_mut(bus_id);
        let r = b.write_byte(addr, value);
        proof {
            lemma_bus_update_keeps_registry(
                old(self).buses@,
                self.buses@,
                bus_id as int,
                seq![MessageShape::Write(seq![value])],
            );
        }
        r
    }

    /// Writes the payload verbatim to the device at `addr` on the bus at
    /// `bus_id`: exactly one exchange of one outbound message carrying the
    /// payload is issued on that bus, and no other bus is touched.
    pub fn write_bytes(&mut self, bus_id: usize, addr: u16, values: Vec<u8>) -> (r: Result<
        i32,
        HardwareError,
    >)
        requires
            old(self).wf(),
            bus_id < old(self)@.len(),
        ensures
            final(self).wf(),
            final(self)@ == old(self)@,
            final(self).logs() == old(self).logs().update(
                bus_id as int,
                old(self).logs()[bus_id as int].push(seq![MessageShape::Write(values@)]),
            ),
            r matches Ok(n) ==> 0 <= n <= 1,
    {
        let ghost plan = seq![MessageShape::Write(values@)];
        proof {
            assert(self@.len() == self.buses@.len());
            assert(self.logs()[bus_id as int] == self.buses@[bus_id as int].exchanged@);
        }
        let b = self.bus_at_mut(bus_id);
        let r = b.write_bytes(addr, values);
        proof {
            lemma_bus_update_keeps_registry(old(self).buses@, self.buses@, bus_id as int, plan);
        }
        r
    }

    /// Writes a single byte value to the register of the device at `addr`
    /// on the bus at `bus_id`: one outbound message with payload
    /// `[reg, value]`.
    pub fn write_reg(&mut self, bus_id: usize, addr: u16, reg: u8, value: u8) -> (r: Result<
        i32,
        HardwareError,
    >)
        requires
            old(self).wf(),
            bus_id < old(self)@.len(),
        ensures
            final(self).wf(),
            final(self)@ == old(self)@,
            final(self).logs() == old(self).logs().update(
                bus_id as int,
                old(self).logs()[bus_id as int].push(
                    seq![MessageShape::Write(seq![reg, value])],
                ),
            ),
            r matches Ok(n) ==> 0 <= n <= 1,
    {
        proof {
            assert(self@.len() == self.buses@.len());
            assert(self.logs()[bus_id as int] == self.buses@[bus_id as int].exchanged@);
        }
        let b = self.bus_at_mut(bus_id);
        let r = b.write_reg(addr, reg, value);
        proof {
            lemma_bus_update_keeps_registry(
                old(self).buses@,
                self.buses@,
                bus_id as int,
                seq![MessageShape::Write(seq![reg, value])],
            );
        }
        r
    }

    /// Reads `num_bytes` bytes from the device at `addr` on the bus at
    /// `bus_id`.
    pub fn read_bytes(&mut self, bus_id: usize, addr: u16, num_bytes: u8) -> (r: Result<
        (i32, Vec<u8>),
        HardwareError,
    >)
        requires
            old(self).wf(),
            bus_id < old(self)@.len(),
        ensures
            final(self).wf(),
            final(self)@ == old(self)@,
            final(self).logs() == old(self).logs().update(
                bus_id as int,
                old(self).logs()[bus_id as int].push(
                    seq![MessageShape::Read(num_bytes as nat)],
                ),
            ),
            r matches Ok(p) ==> p.1@.len() == num_bytes as nat && 0 <= p.0 <= 1,
    {
        proof {
            assert(self@.len() == self.buses@.len());
            assert(self.logs()[bus_id as int] == self.buses@[bus_id as int].exchanged@);
        }
        let b = self.bus_at_mut(bus_id);
        let r = b.read_bytes(addr, num_bytes);
        proof {
            lemma_bus_update_keeps_registry(
                old(self).buses@,
                self.buses@,
                bus_id as int,
                seq![MessageShape::Read(num_bytes as nat)],
            );
        }
        r
    }

    /// Reads `num_bytes` bytes from the register of the device at `addr` on
    /// the bus at `bus_id`: a write of the register byte and the read, in
    /// one atomic exchange.
    pub fn read_reg(&mut self, bus_id: usize, addr: u16, reg: u8, num_bytes: u8) -> (r: Result<
        (i32, Vec<u8>),
        HardwareError,
    >)
        requires
            old(self).wf(),
            bus_id < old(self)@.len(),
        ensures
            final(self).wf(),
            final(self)@ == old(self)@,
            final(self).logs() == old(self).logs().update(
                bus_id as int,
                old(self).logs()[bus_id as int].push(
                    seq![MessageShape::Write(seq![reg]), MessageShape::Read(num_bytes as nat)],
                ),
            ),
            r matches Ok(p) ==> p.1@.len() == num_bytes as nat && 0 <= p.0 <= 2,
    {
        proof {
            assert(self@.len() == self.buses@.len());
            assert(self.logs()[bus_id as int] == self.buses@[bus_id as int].exchanged@);
        }
        let b = self.bus_at_mut(bus_id);
        let r = b.read_reg(addr, reg, num_bytes);
        proof {
            lemma_bus_update_keeps_registry(
                old(self).buses@,
                self.buses@,
                bus_id as int,
                seq![MessageShape::Write(seq![reg]), MessageShape::Read(num_bytes as nat)],
            );
        }
        r
    }
}

proof fn lemma_bus_update_keeps_registry(olds: Seq<BusInfo>, news: Seq<BusInfo>, i: int, plan: Seq<MessageShape>)
    requires
        0 <= i < olds.len(),
        news == olds.update(i, news[i]),
        news[i].id == olds[i].id,
        news[i].path == olds[i].path,
        news[i].exchanged@ == olds[i].exchanged@.push(plan),
        olds.len() <= MAX_BUSES,
        forall|j: int| 0 <= j < olds.len() ==> (#[trigger] olds[j]).id == j,
    ensures
        news.len() == olds.len(),
        news.map_values(|b: BusInfo| b.path@) == olds.map_values(|b: BusInfo| b.path@),
        news.map_values(|b: BusInfo| b.exchanged@) == olds.map_values(
            |b: BusInfo| b.exchanged@,
        ).update(i, olds[i].exchanged@.push(plan)),
        forall|j: int| 0 <= j < news.len() ==> (#[trigger] news[j]).id == j,
{
    assert(news.map_values(|b: BusInfo| b.path@) =~= olds.map_values(|b: BusInfo| b.path@));
    assert(news.map_values(|b: BusInfo| b.exchanged@) =~= olds.map_values(
        |b: BusInfo| b.exchanged@,
    ).update(i, olds[i].exchanged@.push(plan)));
}

/// That `sub` is `full` with some elements left out, order kept: `picks`
/// names, strictly increasing, the position in `full` that each element of
/// `sub` came from.
pub open spec fn subsequence_witness(picks: Seq<int>, sub: Seq<Seq<char>>, full: Seq<Seq<char>>) -> bool {
    &&& picks.len() == sub.len()
    &&& forall|i: int| 0 <= i < picks.len() ==> 0 <= #[trigger] picks[i] < full.len()
    &&& forall|i: int, j: int| 0 <= i < j < picks.len() ==> #[trigger] picks[i] < #[trigger] picks[j]
    &&& forall|i: int| 0 <= i < picks.len() ==> sub[i] == full[#[trigger] picks[i]]
}

/// Builds the registry from a directory listing.  `entries` is `None` when
/// the directory itself could not be read: discovery then yields an empty
/// registry rather than failing, so the service still starts and every
/// bus-indexed request fails validation consistently.  Otherwise each entry
/// whose name starts with `prefix` is opened in listing order; a failed open
/// is skipped; each successful open receives the next sequential index,
/// starting at 0; discovery stops early once `MAX_BUSES` buses are open.
/// The registry's paths are thus the candidate paths with the failed opens
/// left out, in the order the entries were listed.
pub fn init_buses(dir: &str, prefix: &str, entries: Option<&Vec<String>>) -> (r: Registry)
    ensures
        r.wf(),
        r@.len() <= MAX_BUSES,
        r.logs().len() == r@.len(),
        forall|i: int| 0 <= i < r@.len() ==> #[trigger] r.logs()[i] == Seq::<
            Seq<MessageShape>,
        >::empty(),
        match entries {
            None => r@.len() == 0,
            Some(es) => {
                &&& r@.len() <= spec_candidates(dir@, prefix@, names_view(es@)).len()
                &&& exists|picks: Seq<int>|
                    subsequence_witness(picks, r@, spec_candidates(dir@, prefix@, names_view(es@)))
            },
        },
{
    let es = match entries {
        None => {
            return Registry::empty();
        },
        Some(es) => es,
    };
    let paths = discovery_paths(dir, prefix, es);
    let ghost cands = spec_candidates(dir@, prefix@, names_view(es@));
    let mut buses: Vec<BusInfo> = Vec::new();
    let ghost mut picks: Seq<int> = Seq::empty();
    let n = paths.len();
    proof {
        assert(names_view(paths@).len() == paths@.len());
    }
    let mut k: usize = 0;
    while k < n && buses.len() < MAX_BUSES
        invariant
            n == paths@.len(),
            names_view(paths@) == cands,
            k <= n,
            buses@.len() <= k,
            buses@.len() <= MAX_BUSES,
            forall|i: int| 0 <= i < buses@.len() ==> (#[trigger] buses@[i]).id == i,
            forall|i: int| 0 <= i < buses@.len() ==> (#[trigger] buses@[i]).exchanged@ == Seq::<
                Seq<MessageShape>,
            >::empty(),
            forall|i: int| 0 <= i < picks.len() ==> #[trigger] picks[i] < k,
            subsequence_witness(picks, buses@.map_values(|b: BusInfo| b.path@), cands),
        decreases n - k,
    {
        match BusInfo::new(buses.len(), paths[k].clone()) {
            Ok(b) => {
                let ghost prev = buses@.map_values(|b: BusInfo| b.path@);
                buses.push(b);
                proof {
                    picks = picks.push(k as int);
                    assert(names_view(paths@)[k as int] == paths@[k as int]@);
                    assert(buses@.map_values(|b: BusInfo| b.path@) =~= prev.push(
                        paths@[k as int]@,
                    ));
                }
            },
            Err(_) => {
                // The open failed: this node is omitted from the collection
                // for the process lifetime; discovery carries on.
            },
        }
        k += 1;
    }
    let r = Registry { buses };
    proof {
        assert(r@ == r.buses@.map_values(|b: BusInfo| b.path@));
        assert(cands.len() == paths@.len());
        assert(subsequence_witness(picks, r@, cands));
        assert(r.logs().len() == r@.len());
        assert(forall|i: int| 0 <= i < r@.len() ==> #[trigger] r.logs()[i] == r.buses@[i].exchanged@);
    }
    r
}

} // verus!
