use vstd::prelude::*;

use crate::error::InitError;

verus! {

/// Queue capability bit: graphics operations.
pub const GRAPHICS: u32 = 0x1;

/// Queue capability bit: compute operations.
pub const COMPUTE: u32 = 0x2;

/// Queue capability bit: transfer operations.
pub const TRANSFER: u32 = 0x4;

/// Whether a capability mask holds every bit of `bits`.
pub open spec fn has_flags(mask: u32, bits: u32) -> bool {
    mask & bits == bits
}

/// Tests a capability mask for every bit of `bits`, as the runtime's flag
/// types do.
pub fn contains_flags(mask: u32, bits: u32) -> (r: bool)
    ensures
        r == has_flags(mask, bits),
{
    mask & bits == bits
}

/// How the runtime classifies a physical accelerator.
#[derive(Clone, Copy, Debug, PartialEq, Eq, Structural)]
pub enum AcceleratorKind {
    Other,
    IntegratedGpu,
    DiscreteGpu,
    VirtualGpu,
    Cpu,
}

impl AcceleratorKind {
    /// The kind that the runtime's numeric device type denotes; unknown
    /// numbers are `Other`.
    pub open spec fn of_raw(raw: i32) -> AcceleratorKind {
        if raw == 1 {
            AcceleratorKind::IntegratedGpu
        } else if raw == 2 {
            AcceleratorKind::DiscreteGpu
        } else if raw == 3 {
            AcceleratorKind::VirtualGpu
        } else if raw == 4 {
            AcceleratorKind::Cpu
        } else {
            AcceleratorKind::Other
        }
    }

    /// Reads the runtime's numeric device type.
    pub fn from_raw(raw: i32) -> (r: AcceleratorKind)
        ensures
            r == Self::of_raw(raw),
    {
        if raw == 1 {
            AcceleratorKind::IntegratedGpu
        } else if raw == 2 {
            AcceleratorKind::DiscreteGpu
        } else if raw == 3 {
            AcceleratorKind::VirtualGpu
        } else if raw == 4 {
            AcceleratorKind::Cpu
        } else {
            AcceleratorKind::Other
        }
    }

    /// Only dedicated accelerators are eligible for selection.
    pub open spec fn is_dedicated(self) -> bool {
        self == AcceleratorKind::DiscreteGpu
    }
}

/// A snapshot of one queue family of an accelerator.
#[derive(Clone, Copy, Debug, PartialEq, Eq, Structural)]
pub struct QueueFamily {
    /// How many queues the family offers.
    pub queue_count: u32,
    /// Capability mask over `GRAPHICS`, `COMPUTE`, `TRANSFER` and further bits.
    pub flags: u32,
}

impl QueueFamily {
    pub open spec fn supports_graphics(self) -> bool {
        has_flags(self.flags, GRAPHICS)
    }

    pub open spec fn supports_transfer(self) -> bool {
        has_flags(self.flags, TRANSFER)
    }

    /// A family with queues and graphics capability: the one kind for which
    /// presentation support is asked of the runtime.
    pub open spec fn graphics_capable(self) -> bool {
        self.queue_count > 0 && self.supports_graphics()
    }

    /// A family with queues and transfer capability.
    pub open spec fn transfer_capable(self) -> bool {
        self.queue_count > 0 && self.supports_transfer()
    }

    /// A transfer-capable family without graphics capability.
    pub open spec fn transfer_only(self) -> bool {
        self.transfer_capable() && !self.supports_graphics()
    }

    /// Whether presentation support to the surface must be queried for this
    /// family.
    pub fn needs_present_query(&self) -> (r: bool)
        ensures
            r == self.graphics_capable(),
    {
        self.queue_count > 0 && contains_flags(self.flags, GRAPHICS)
    }
}

/// The family at `i` has queues, graphics capability and presentation support.
pub open spec fn graphics_candidate(fams: Seq<QueueFamily>, present: Seq<bool>, i: int) -> bool {
    fams[i].graphics_capable() && present[i]
}

/// What the graphics/present choice over `fams` is: the lowest candidate index,
/// or none when no family is a candidate.
pub open spec fn is_graphics_choice(
    fams: Seq<QueueFamily>,
    present: Seq<bool>,
    r: Option<u32>,
) -> bool {
    match r {
        Some(i) => {
            &&& i < fams.len()
            &&& graphics_candidate(fams, present, i as int)
            &&& forall|j: int| 0 <= j < i ==> !graphics_candidate(fams, present, j)
        },
        None => forall|j: int| 0 <= j < fams.len() ==> !graphics_candidate(fams, present, j),
    }
}

/// Some family below `n` is transfer-only.
pub open spec fn transfer_only_below(fams: Seq<QueueFamily>, n: int) -> bool {
    exists|j: int| 0 <= j < n && #[trigger] fams[j].transfer_only()
}

/// What the transfer choice over `fams` is: the last transfer-only family when
/// there is one; otherwise the first transfer-capable family; otherwise none.
pub open spec fn is_transfer_choice(fams: Seq<QueueFamily>, r: Option<u32>) -> bool {
    match r {
        Some(i) => {
            &&& i < fams.len()
            &&& fams[i as int].transfer_capable()
            &&& transfer_only_below(fams, fams.len() as int) ==> {
                &&& fams[i as int].transfer_only()
                &&& forall|j: int| i < j < fams.len() ==> !(#[trigger] fams[j].transfer_only())
            }
            &&& !transfer_only_below(fams, fams.len() as int) ==> forall|j: int|
                0 <= j < i ==> !(#[trigger] fams[j].transfer_capable())
        },
        None => forall|j: int| 0 <= j < fams.len() ==> !(#[trigger] fams[j].transfer_capable()),
    }
}

/// Picks the accelerator to use: the last dedicated one in enumeration order.
pub fn choose_accelerator(kinds: &Vec<AcceleratorKind>) -> (r: Result<usize, InitError>)
    ensures
        match r {
            Ok(i) => {
                &&& i < kinds@.len()
                &&& kinds@[i as int].is_dedicated()
                &&& forall|j: int| i < j < kinds@.len() ==> !(#[trigger] kinds@[j].is_dedicated())
            },
            Err(e) => {
                &&& e == InitError::NoSuitableAccelerator
                &&& forall|j: int| 0 <= j < kinds@.len() ==> !(#[trigger] kinds@[j].is_dedicated())
            },
        },
{
    let mut chosen: Option<usize> = None;
    let mut i: usize = 0;
    while i < kinds.len()
        invariant
            i <= kinds@.len(),
            match chosen {
                Some(c) => {
                    &&& c < i
                    &&& kinds@[c as int].is_dedicated()
                    &&& forall|j: int| c < j < i ==> !(#[trigger] kinds@[j].is_dedicated())
                },
                None => forall|j: int| 0 <= j < i ==> !(#[trigger] kinds@[j].is_dedicated()),
            },
        decreases kinds@.len() - i,
    {
        if kinds[i] == AcceleratorKind::DiscreteGpu {
            chosen = Some(i);
        }
        i += 1;
    }
    match chosen {
        Some(c) => Ok(c),
        None => Err(InitError::NoSuitableAccelerator),
    }
}

/// Picks the graphics/present family: the lowest index whose family has
/// queues, graphics capability and presentation support (`present[i]`).
pub fn graphics_family(families: &Vec<QueueFamily>, present: &Vec<bool>) -> (r: Option<u32>)
    requires
        present@.len() == families@.len(),
        families@.len() <= u32::MAX,
    ensures
        is_graphics_choice(families@, present@, r),
{
    let mut i: usize = 0;
    while i < families.len()
        invariant
            i <= families@.len(),
            present@.len() == families@.len(),
            families@.len() <= u32::MAX,
            forall|j: int| 0 <= j < i ==> !graphics_candidate(families@, present@, j),
        decreases families@.len() - i,
    {
        if families[i].needs_present_query() && present[i] {
            return Some(i as u32);
        }
        i += 1;
    }
    None
}

/// Picks the transfer family. A transfer-capable family replaces the running
/// choice when there is none yet, or when it lacks graphics capability; so a
/// transfer-only family is preferred over a combined one, whatever the order.
pub fn transfer_family(families: &Vec<QueueFamily>) -> (r: Option<u32>)
    requires
        families@.len() <= u32::MAX,
    ensures
        is_transfer_choice(families@, r),
{
    let mut chosen: Option<u32> = None;
    let mut i: usize = 0;
    while i < families.len()
        invariant
            i <= families@.len(),
            families@.len() <= u32::MAX,
            match chosen {
                Some(c) => {
                    &&& c < i
                    &&& families@[c as int].transfer_capable()
                    &&& transfer_only_below(families@, i as int) ==> {
                        &&& families@[c as int].transfer_only()
                        &&& forall|j: int| c < j < i ==> !(#[trigger] families@[j].transfer_only())
                    }
                    &&& !transfer_only_below(families@, i as int) ==> forall|j: int|
                        0 <= j < c ==> !(#[trigger] families@[j].transfer_capable())
                },
                None => forall|j: int| 0 <= j < i ==> !(#[trigger] families@[j].transfer_capable()),
            },
        decreases families@.len() - i,
    {
        let family = families[i];
        if family.queue_count > 0 && contains_flags(family.flags, TRANSFER) {
            if chosen.is_none() || !contains_flags(family.flags, GRAPHICS) {
                chosen = Some(i as u32);
            }
        }
        proof {
            if !families@[i as int].transfer_only() {
                assert(transfer_only_below(families@, i as int + 1) == transfer_only_below(
                    families@,
                    i as int,
                )) by {
                    if transfer_only_below(families@, i as int + 1) {
                        let j = choose|j: int|
                            0 <= j < i as int + 1 && #[trigger] families@[j].transfer_only();
                        assert(j < i);
                    }
                }
            } else {
                assert(transfer_only_below(families@, i as int + 1));
            }
        }
        i += 1;
    }
    chosen
}

/// The accelerator and the two queue families that the device is built with.
#[derive(Clone, Copy, Debug, PartialEq, Eq, Structural)]
pub struct Selection {
    /// Position of the accelerator in the runtime's enumeration.
    pub accelerator: usize,
    /// Family with graphics capability and presentation support.
    pub graphics_family: u32,
    /// Family with transfer capability.
    pub transfer_family: u32,
}

/// What selecting the families of accelerator `accelerator` yields.
pub open spec fn is_family_selection(
    accelerator: usize,
    fams: Seq<QueueFamily>,
    present: Seq<bool>,
    r: Result<Selection, InitError>,
) -> bool {
    match r {
        Ok(s) => {
            &&& s.accelerator == accelerator
            &&& is_graphics_choice(fams, present, Some(s.graphics_family))
            &&& is_transfer_choice(fams, Some(s.transfer_family))
        },
        Err(e) => {
            &&& e == InitError::NoSuitableAccelerator
            &&& (is_graphics_choice(fams, present, None) || is_transfer_choice(fams, None))
        },
    }
}

/// Completes the selection for the chosen accelerator from its queue families
/// and their presentation support. There is no fallback to another
/// accelerator: without a suitable family the selection fails.
pub fn select_families(accelerator: usize, families: &Vec<QueueFamily>, present: &Vec<bool>) -> (r:
    Result<Selection, InitError>)
    requires
        present@.len() == families@.len(),
        families@.len() <= u32::MAX,
    ensures
        is_family_selection(accelerator, families@, present@, r),
{
    let graphics = graphics_family(families, present);
    let transfer = transfer_family(families);
    match (graphics, transfer) {
        (Some(g), Some(t)) => Ok(Selection { accelerator, graphics_family: g, transfer_family: t }),
        _ => Err(InitError::NoSuitableAccelerator),
    }
}

/// Once an accelerator is chosen, the selection fails when none of its
/// families has queues, graphics capability and presentation support; it does
/// not fall back to another accelerator.
pub proof fn lemma_no_fallback(
    accelerator: usize,
    fams: Seq<QueueFamily>,
    present: Seq<bool>,
    r: Result<Selection, InitError>,
)
    requires
        present.len() == fams.len(),
        forall|j: int| 0 <= j < fams.len() ==> !graphics_candidate(fams, present, j),
        is_family_selection(accelerator, fams, present, r),
    ensures
        r == Err::<Selection, InitError>(InitError::NoSuitableAccelerator),
{
    if let Ok(s) = r {
        assert(graphics_candidate(fams, present, s.graphics_family as int));
    }
}

/// The distinct queue families that the logical device asks queues of: one
/// request per family, the graphics family first.
pub fn queue_family_requests(selection: &Selection) -> (r: Vec<u32>)
    ensures
        r@ == if selection.graphics_family == selection.transfer_family {
            seq![selection.graphics_family]
        } else {
            seq![selection.graphics_family, selection.transfer_family]
        },
{
    let mut requests: Vec<u32> = Vec::new();
    requests.push(selection.graphics_family);
    if selection.transfer_family != selection.graphics_family {
        requests.push(selection.transfer_family);
    }
    requests
}

} // verus!
