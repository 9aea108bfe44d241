use vstd::prelude::*;

verus! {

/// The index that stands for "no family found".
pub const NO_FAMILY: i32 = -1;

/// What one queue family of a physical device can do.
#[derive(Clone, Copy, Debug, PartialEq, Eq, Structural)]
pub struct QueueFamily {
    /// The family executes graphics work.
    pub supports_graphics: bool,
    /// The family can present to the surface.
    pub supports_present: bool,
}

/// The queue families chosen on one physical device: the family that
/// executes graphics work and the family that presents to the surface.
/// A negative index means that no family has been found for that role.
#[derive(Clone, Copy, Debug, PartialEq, Eq, Structural)]
pub struct QueueFamilyIndices {
    pub graphics_family: i32,
    pub present_family: i32,
}

/// How the images of a chain are shared between queue families.
#[derive(Clone, Copy, Debug, PartialEq, Eq, Structural)]
pub enum SharingMode {
    /// One family both draws and presents.
    Exclusive { family: i32 },
    /// Drawing and presenting are done by different families.
    Concurrent { graphics_family: i32, present_family: i32 },
}

impl QueueFamilyIndices {
    /// Both roles have been given a family.
    pub open spec fn complete(self) -> bool {
        self.graphics_family >= 0 && self.present_family >= 0
    }

    /// The indices after family `index` has been looked at: a family that
    /// can fill a role takes it over from an earlier one.
    pub open spec fn noting(self, index: int, family: QueueFamily) -> QueueFamilyIndices {
        QueueFamilyIndices {
            graphics_family: if family.supports_graphics {
                index as i32
            } else {
                self.graphics_family
            },
            present_family: if family.supports_present {
                index as i32
            } else {
                self.present_family
            },
        }
    }

    /// The indices after the first `count` families have been looked at in
    /// order, the search ending as soon as both roles are filled.
    pub open spec fn scanned(families: Seq<QueueFamily>, count: nat) -> QueueFamilyIndices
        decreases count,
    {
        if count == 0 {
            QueueFamilyIndices { graphics_family: NO_FAMILY, present_family: NO_FAMILY }
        } else {
            let before = Self::scanned(families, (count - 1) as nat);
            if before.complete() {
                before
            } else {
                before.noting(count - 1, families[count - 1])
            }
        }
    }

    /// The distinct families among the two roles, the graphics family first.
    pub open spec fn distinct_families(self) -> Seq<i32> {
        if self.graphics_family == self.present_family {
            seq![self.graphics_family]
        } else {
            seq![self.graphics_family, self.present_family]
        }
    }

    /// Exclusive to the one family where both roles share it, else concurrent.
    pub open spec fn sharing(self) -> SharingMode {
        if self.graphics_family != self.present_family {
            SharingMode::Concurrent {
                graphics_family: self.graphics_family,
                present_family: self.present_family,
            }
        } else {
            SharingMode::Exclusive { family: self.graphics_family }
        }
    }

    /// No family chosen for either role.
    pub fn new() -> (indices: Self)
        ensures
            indices.graphics_family == -1,
            indices.present_family == -1,
            !indices.complete(),
    {
        Self { graphics_family: NO_FAMILY, present_family: NO_FAMILY }
    }

    /// Whether both roles have been given a family.
    pub fn is_complete(&self) -> (complete: bool)
        ensures
            complete == self.complete(),
    {
        self.graphics_family >= 0 && self.present_family >= 0
    }

    /// The queue families that a logical device needs queues from, each once.
    pub fn unique_queue_families(&self) -> (families: Vec<i32>)
        ensures
            families@ == self.distinct_families(),
            families@.no_duplicates(),
    {
        let mut families: Vec<i32> = Vec::new();
        families.push(self.graphics_family);
        if self.present_family != self.graphics_family {
            families.push(self.present_family);
        }
        assert(families@ =~= self.distinct_families());
        families
    }

    /// How a chain's images are shared between the two roles.
    pub fn sharing_mode(&self) -> (mode: SharingMode)
        ensures
            mode == self.sharing(),
    {
        if self.graphics_family != self.present_family {
            SharingMode::Concurrent {
                graphics_family: self.graphics_family,
                present_family: self.present_family,
            }
        } else {
            SharingMode::Exclusive { family: self.graphics_family }
        }
    }
}

/// What a scan of the first `count` families has found: an index that is set
/// names a family with that ability, and an index that is not set means that
/// no family looked at has it.
pub proof fn lemma_scanned_families(families: Seq<QueueFamily>, count: nat)
    requires
        count <= families.len(),
        families.len() <= i32::MAX,
    ensures
        ({
            let found = QueueFamilyIndices::scanned(families, count);
            &&& -1 <= found.graphics_family < count
            &&& -1 <= found.present_family < count
            &&& found.graphics_family >= 0 ==> families[found.graphics_family as int].supports_graphics
            &&& found.present_family >= 0 ==> families[found.present_family as int].supports_present
            &&& found.graphics_family == -1 ==> forall|i: int|
                0 <= i < count ==> !(#[trigger] families[i]).supports_graphics
            &&& found.present_family == -1 ==> forall|i: int|
                0 <= i < count ==> !(#[trigger] families[i]).supports_present
        }),
    decreases count,
{
    if count > 0 {
        lemma_scanned_families(families, (count - 1) as nat);
    }
}

/// Finds the queue families for graphics work and for presenting among the
/// families of one device, taken in the device's order. The search stops at
/// the first family after which both roles are filled.
pub fn find_queue_families(families: &[QueueFamily]) -> (indices: QueueFamilyIndices)
    requires
        families@.len() <= i32::MAX,
    ensures
        indices == QueueFamilyIndices::scanned(families@, families@.len()),
        indices.graphics_family >= 0 <==> exists|i: int|
            0 <= i < families@.len() && (#[trigger] families@[i]).supports_graphics,
        indices.present_family >= 0 <==> exists|i: int|
            0 <= i < families@.len() && (#[trigger] families@[i]).supports_present,
        indices.graphics_family >= 0 ==> indices.graphics_family < families@.len()
            && families@[indices.graphics_family as int].supports_graphics,
        indices.present_family >= 0 ==> indices.present_family < families@.len()
            && families@[indices.present_family as int].supports_present,
{
    let mut indices = QueueFamilyIndices::new();
    let mut i: usize = 0;
    while i < families.len()
        invariant_except_break
            !indices.complete(),
        invariant
            i <= families@.len(),
            families@.len() <= i32::MAX,
            indices == QueueFamilyIndices::scanned(families@, i as nat),
        ensures
            indices == QueueFamilyIndices::scanned(families@, families@.len()),
        decreases families@.len() - i,
    {
        let family = families[i];
        if family.supports_graphics {
            indices.graphics_family = i as i32;
        }
        if family.supports_present {
            indices.present_family = i as i32;
        }
        i += 1;
        if indices.is_complete() {
            proof {
                lemma_scan_settled(families@, i as nat, families@.len());
            }
            break;
        }
    }
    proof {
        lemma_scanned_families(families@, families@.len());
    }
    indices
}

/// Once both roles are filled, looking at more families changes nothing.
proof fn lemma_scan_settled(families: Seq<QueueFamily>, at: nat, later: nat)
    requires
        at <= later,
        QueueFamilyIndices::scanned(families, at).complete(),
    ensures
        QueueFamilyIndices::scanned(families, later) == QueueFamilyIndices::scanned(families, at),
    decreases later,
{
    if at < later {
        lemma_scan_settled(families, at, (later - 1) as nat);
    }
}

} // verus!
