use crate::driver::{queue_flags_contain_graphics, QUEUE_GRAPHICS_BIT};
use vstd::prelude::*;

verus! {

/// One queue family of a device, as the selection reads it.
#[derive(Clone, Copy, Debug, PartialEq, Eq, Structural)]
pub struct QueueFamily {
    /// The family's capability bits.
    pub queue_flags: u32,
    /// The family can present to the surface in question.
    pub present_support: bool,
}

impl QueueFamily {
    /// The family takes graphics commands.
    pub open spec fn supports_graphics(self) -> bool {
        self.queue_flags & QUEUE_GRAPHICS_BIT == QUEUE_GRAPHICS_BIT
    }
}

/// The indices of the queue families chosen for drawing and for presenting.
#[derive(Clone, Copy, Debug, PartialEq, Eq, Structural)]
pub struct QueueFamilyIndices {
    pub graphics_family: Option<u32>,
    pub present_family: Option<u32>,
}

/// Some family takes graphics commands.
pub open spec fn has_graphics_family(families: Seq<QueueFamily>) -> bool {
    exists|j: int| 0 <= j < families.len() && (#[trigger] families[j]).supports_graphics()
}

/// Some family can present.
pub open spec fn has_present_family(families: Seq<QueueFamily>) -> bool {
    exists|j: int| 0 <= j < families.len() && (#[trigger] families[j]).present_support
}

/// No family with an index in `[from, to)` takes graphics commands.
pub open spec fn no_graphics_between(families: Seq<QueueFamily>, from: int, to: int) -> bool {
    forall|j: int|
        from <= j < to && 0 <= j < families.len() ==> !(#[trigger] families[j]).supports_graphics()
}

/// No family with an index in `[from, to)` can present.
pub open spec fn no_present_between(families: Seq<QueueFamily>, from: int, to: int) -> bool {
    forall|j: int|
        from <= j < to && 0 <= j < families.len() ==> !(#[trigger] families[j]).present_support
}

/// `found` is what a scan of `families` from the front finds, a scan that
/// ends as soon as both families are known.
///
/// The present family is the first that can present. The graphics family
/// is the last that takes graphics commands up to the present family;
/// where there is none that early, or no present family at all, it is
/// the first, respectively the last, of all that take graphics commands.
pub open spec fn is_scan_of(families: Seq<QueueFamily>, found: QueueFamilyIndices) -> bool {
    &&& match found.present_family {
        Some(p) => {
            &&& p < families.len()
            &&& families[p as int].present_support
            &&& no_present_between(families, 0, p as int)
        },
        None => no_present_between(families, 0, families.len() as int),
    }
    &&& match found.graphics_family {
        Some(g) => {
            &&& g < families.len()
            &&& families[g as int].supports_graphics()
            &&& match found.present_family {
                Some(p) => if g <= p {
                    no_graphics_between(families, g + 1, p + 1)
                } else {
                    no_graphics_between(families, 0, g as int)
                },
                None => no_graphics_between(families, g + 1, families.len() as int),
            }
        },
        None => no_graphics_between(families, 0, families.len() as int),
    }
}

impl QueueFamilyIndices {
    /// No family chosen yet.
    pub fn new() -> (r: Self)
        ensures
            r.graphics_family is None,
            r.present_family is None,
    {
        Self { graphics_family: None, present_family: None }
    }

    pub open spec fn spec_is_complete(&self) -> bool {
        self.graphics_family is Some && self.present_family is Some
    }

    /// Both a graphics and a present family are known.
    #[verifier::when_used_as_spec(spec_is_complete)]
    pub fn is_complete(&self) -> (r: bool)
        ensures
            r == self.spec_is_complete(),
    {
        self.graphics_family.is_some() && self.present_family.is_some()
    }

    /// Scans the families of a device for one that draws and one that
    /// presents, and stops as soon as both are known.
    pub fn find_queue_families(families: &Vec<QueueFamily>) -> (r: QueueFamilyIndices)
        requires
            families@.len() <= u32::MAX,
        ensures
            is_scan_of(families@, r),
            r.is_complete() <==> has_graphics_family(families@) && has_present_family(families@),
    {
        let mut indices = Self::new();
        let mut i: usize = 0;
        while i < families.len()
            invariant
                i <= families@.len() <= u32::MAX,
                !indices.is_complete(),
                match indices.present_family {
                    Some(p) => {
                        &&& p < i
                        &&& families@[p as int].present_support
                        &&& no_present_between(families@, 0, p as int)
                    },
                    None => no_present_between(families@, 0, i as int),
                },
                match indices.graphics_family {
                    Some(g) => {
                        &&& g < i
                        &&& families@[g as int].supports_graphics()
                        &&& no_graphics_between(families@, g + 1, i as int)
                    },
                    None => no_graphics_between(families@, 0, i as int),
                },
            decreases families@.len() - i,
        {
            let index = i as u32;
            let family = families[i];
            if queue_flags_contain_graphics(family.queue_flags) {
                indices.graphics_family = Some(index);
            }
            if family.present_support && indices.present_family.is_none() {
                indices.present_family = Some(index);
            }
            if indices.is_complete() {
                return indices;
            }
            i += 1;
        }
        indices
    }
}

/// A scan finds one thing only: two results of a scan of the same
/// families are the same.
pub proof fn lemma_scan_unique(
    families: Seq<QueueFamily>,
    first: QueueFamilyIndices,
    second: QueueFamilyIndices,
)
    requires
        is_scan_of(families, first),
        is_scan_of(families, second),
    ensures
        first == second,
{
}

} // verus!
