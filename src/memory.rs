use vstd::prelude::*;

verus! {

/// Size of a virtual page in bytes.
pub const PAGE_SIZE: usize = 4096;
/// First address of the range in which the user stack may grow on demand.
pub const STACK_GROWTH_START: usize = 0x7ff0_0000;
/// End (exclusive) of the on-demand stack growth range.
pub const STACK_GROWTH_END: usize = 0x7fff_f000;

/// What a memory area of a task is used for.
#[derive(Clone, Copy, Debug, PartialEq, Eq, Structural)]
pub enum MemType {
    CodeSection,
    Stack,
    Mmap,
    Shared,
    /// Pages shared with another task until one of them writes.
    Clone,
}

impl MemType {
    /// Whether two area types are the same.
    pub fn same(&self, other: &MemType) -> (r: bool)
        ensures
            r == (*self == *other),
    {
        match (self, other) {
            (MemType::CodeSection, MemType::CodeSection) => true,
            (MemType::Stack, MemType::Stack) => true,
            (MemType::Mmap, MemType::Mmap) => true,
            (MemType::Shared, MemType::Shared) => true,
            (MemType::Clone, MemType::Clone) => true,
            _ => false,
        }
    }
}

/// One mapped virtual page and the physical frame behind it.
#[derive(Clone, Copy, Debug, PartialEq, Eq, Structural)]
pub struct FrameTracker {
    pub vpn: usize,
    pub ppn: usize,
}

/// A region of a task's address space and the frames mapped in it.
pub struct MemArea {
    pub mtype: MemType,
    pub mtrackers: Vec<FrameTracker>,
}

/// Number of frames mapped in all of `areas`.
pub open spec fn frame_count(areas: Seq<MemArea>) -> nat
    decreases areas.len(),
{
    if areas.len() == 0 {
        0
    } else {
        frame_count(areas.drop_last()) + areas.last().mtrackers@.len()
    }
}

/// Whether some area of type `mtype` maps `vpn` to `ppn`.
pub open spec fn maps(areas: Seq<MemArea>, mtype: MemType, vpn: usize, ppn: usize) -> bool {
    exists|i: int, j: int|
        #![trigger areas[i].mtrackers@[j]]
        0 <= i < areas.len() && 0 <= j < areas[i].mtrackers@.len() && areas[i].mtype == mtype
            && areas[i].mtrackers@[j] == (FrameTracker { vpn, ppn })
}

/// Whether a copy-on-write area holds a frame for page `vpn`.
pub open spec fn has_clone_frame(areas: Seq<MemArea>, vpn: usize) -> bool {
    exists|i: int, j: int|
        #![trigger areas[i].mtrackers@[j]]
        0 <= i < areas.len() && 0 <= j < areas[i].mtrackers@.len() && areas[i].mtype == MemType::Clone
            && areas[i].mtrackers@[j].vpn == vpn
}

/// The page that holds `addr`.
pub open spec fn page_of(addr: usize) -> usize {
    (addr / PAGE_SIZE) as usize
}

/// Whether a fault at `addr` may be served by growing the stack.
pub open spec fn in_stack_growth_range(addr: usize) -> bool {
    STACK_GROWTH_START <= addr < STACK_GROWTH_END
}

/// The frame record of a copy-on-write area for page `vpn`, if any.
pub fn find_clone_frame(areas: &Vec<MemArea>, vpn: usize) -> (r: Option<FrameTracker>)
    ensures
        r is None <==> !has_clone_frame(areas@, vpn),
        r matches Some(t) ==> t.vpn == vpn && maps(areas@, MemType::Clone, vpn, t.ppn),
{
    let mut i: usize = 0;
    while i < areas.len()
        invariant
            i <= areas@.len(),
            forall|k: int, j: int|
                #![trigger areas@[k].mtrackers@[j]]
                0 <= k < i && 0 <= j < areas@[k].mtrackers@.len() && areas@[k].mtype == MemType::Clone
                    ==> areas@[k].mtrackers@[j].vpn != vpn,
        decreases areas@.len() - i,
    {
        let area = &areas[i];
        if area.mtype.same(&MemType::Clone) {
            let mut j: usize = 0;
            while j < area.mtrackers.len()
                invariant
                    i < areas@.len(),
                    area == areas@[i as int],
                    area.mtype == MemType::Clone,
                    j <= area.mtrackers@.len(),
                    forall|m: int| 0 <= m < j ==> area.mtrackers@[m].vpn != vpn,
                decreases area.mtrackers@.len() - j,
            {
                let t = area.mtrackers[j];
                if t.vpn == vpn {
                    assert(areas@[i as int].mtrackers@[j as int] == (FrameTracker { vpn, ppn: t.ppn }));
                    return Some(t);
                }
                j = j + 1;
            }
        }
        i = i + 1;
    }
    None
}

/// How a store page fault is resolved.
#[derive(Clone, Copy, Debug, PartialEq, Eq, Structural)]
pub enum FaultResolution {
    /// The page belongs to a copy-on-write area and is backed by this frame:
    /// give the task a private copy of it.
    CopyOnWrite(FrameTracker),
    /// The page is unmapped stack: map one fresh frame at this page.
    GrowStack(usize),
    /// No policy covers the fault: the task cannot go on.
    Invalid,
}

/// The resolution that the fault policy gives a store fault at `addr`.
pub open spec fn fault_policy(areas: Seq<MemArea>, addr: usize, r: FaultResolution) -> bool {
    let vpn = page_of(addr);
    if has_clone_frame(areas, vpn) {
        r matches FaultResolution::CopyOnWrite(t) && t.vpn == vpn && maps(areas, MemType::Clone, vpn, t.ppn)
    } else if in_stack_growth_range(addr) {
        r == FaultResolution::GrowStack(vpn)
    } else {
        r == FaultResolution::Invalid
    }
}

/// Decide how to resolve a store fault at `addr`: copy-on-write pages are
/// copied, faults in the stack growth range get one new stack frame, and
/// anything else is fatal to the task.
pub fn resolve_page_fault(areas: &Vec<MemArea>, addr: usize) -> (r: FaultResolution)
    ensures
        fault_policy(areas@, addr, r),
{
    let vpn = addr / PAGE_SIZE;
    match find_clone_frame(areas, vpn) {
        Some(t) => FaultResolution::CopyOnWrite(t),
        None => {
            if STACK_GROWTH_START <= addr && addr < STACK_GROWTH_END {
                FaultResolution::GrowStack(vpn)
            } else {
                FaultResolution::Invalid
            }
        },
    }
}

proof fn lemma_frame_count_update(areas: Seq<MemArea>, i: int, a: MemArea)
    requires
        0 <= i < areas.len(),
    ensures
        frame_count(areas.update(i, a)) + areas[i].mtrackers@.len() == frame_count(areas) + a.mtrackers@.len(),
    decreases areas.len(),
{
    let u = areas.update(i, a);
    if i == areas.len() - 1 {
        assert(u.drop_last() =~= areas.drop_last());
    } else {
        assert(u.drop_last() =~= areas.drop_last().update(i, a));
        lemma_frame_count_update(areas.drop_last(), i, a);
    }
}

/// Record that `vpn` is now backed by frame `ppn` in an area of type
/// `mtype`: the tracker joins the first area of that type, or a new area
/// is added when there is none.
pub fn map_frame(areas: &mut Vec<MemArea>, vpn: usize, ppn: usize, mtype: MemType)
    ensures
        frame_count(final(areas)@) == frame_count(old(areas)@) + 1,
        maps(final(areas)@, mtype, vpn, ppn),
        forall|t: MemType, v: usize, p: usize| maps(old(areas)@, t, v, p) ==> maps(final(areas)@, t, v, p),
        forall|t: MemType, v: usize, p: usize|
            maps(final(areas)@, t, v, p) ==> maps(old(areas)@, t, v, p) || (t == mtype && v == vpn && p == ppn),
{
    let ghost a0 = areas@;
    let tracker = FrameTracker { vpn, ppn };
    let mut i: usize = 0;
    while i < areas.len()
        invariant
            areas@ == a0,
            a0 == old(areas)@,
            tracker == (FrameTracker { vpn, ppn }),
            i <= a0.len(),
            forall|k: int| 0 <= k < i ==> a0[k].mtype != mtype,
        decreases a0.len() - i,
    {
        if areas[i].mtype.same(&mtype) {
            let mut area = areas.remove(i);
            assert(area == a0[i as int]);
            area.mtrackers.push(tracker);
            let ghost new_area = area;
            areas.insert(i, area);
            proof {
                let n = a0[i as int].mtrackers@.len() as int;
                assert(new_area.mtrackers@ == a0[i as int].mtrackers@.push(tracker));
                assert(areas@ =~= a0.update(i as int, new_area));
                lemma_frame_count_update(a0, i as int, new_area);
                assert(areas@[i as int].mtrackers@[n] == tracker);
                assert(areas@[i as int].mtype == mtype);
                assert(0 <= n < areas@[i as int].mtrackers@.len());
                assert(maps(areas@, mtype, vpn, ppn));
                assert forall|t: MemType, v: usize, p: usize| maps(a0, t, v, p) implies maps(areas@, t, v, p) by {
                    let (k, j) = choose|k: int, j: int|
                        #![trigger a0[k].mtrackers@[j]]
                        0 <= k < a0.len() && 0 <= j < a0[k].mtrackers@.len() && a0[k].mtype == t
                            && a0[k].mtrackers@[j] == (FrameTracker { vpn: v, ppn: p });
                    assert(areas@[k].mtrackers@[j] == a0[k].mtrackers@[j]);
                }
                assert forall|t: MemType, v: usize, p: usize| maps(areas@, t, v, p) implies
                    maps(a0, t, v, p) || (t == mtype && v == vpn && p == ppn) by {
                    let (k, j) = choose|k: int, j: int|
                        #![trigger areas@[k].mtrackers@[j]]
                        0 <= k < areas@.len() && 0 <= j < areas@[k].mtrackers@.len() && areas@[k].mtype == t
                            && areas@[k].mtrackers@[j] == (FrameTracker { vpn: v, ppn: p });
                    if k != i {
                        assert(a0[k] == areas@[k]);
                    } else if j < n {
                        assert(a0[k].mtype == new_area.mtype);
                        assert(a0[k].mtrackers@[j] == areas@[k].mtrackers@[j]);
                    } else {
                        assert(areas@[k].mtrackers@[j] == tracker);
                    }
                }
            }
            return;
        }
        i = i + 1;
    }
    let mut trackers: Vec<FrameTracker> = Vec::new();
    trackers.push(tracker);
    let area = MemArea { mtype, mtrackers: trackers };
    areas.push(area);
    proof {
        assert(areas@.drop_last() =~= a0);
        assert(areas@[a0.len() as int].mtrackers@[0] == tracker);
        assert forall|t: MemType, v: usize, p: usize| maps(a0, t, v, p) implies maps(areas@, t, v, p) by {
            let (k, j) = choose|k: int, j: int|
                #![trigger a0[k].mtrackers@[j]]
                0 <= k < a0.len() && 0 <= j < a0[k].mtrackers@.len() && a0[k].mtype == t
                    && a0[k].mtrackers@[j] == (FrameTracker { vpn: v, ppn: p });
            assert(areas@[k].mtrackers@[j] == a0[k].mtrackers@[j]);
        }
        assert forall|t: MemType, v: usize, p: usize| maps(areas@, t, v, p) implies
            maps(a0, t, v, p) || (t == mtype && v == vpn && p == ppn) by {
            let (k, j) = choose|k: int, j: int|
                #![trigger areas@[k].mtrackers@[j]]
                0 <= k < areas@.len() && 0 <= j < areas@[k].mtrackers@.len() && areas@[k].mtype == t
                    && areas@[k].mtrackers@[j] == (FrameTracker { vpn: v, ppn: p });
            if k < a0.len() {
                assert(a0[k].mtrackers@[j] == areas@[k].mtrackers@[j]);
            }
        }
    }
}

} // verus!
