use vstd::prelude::*;

verus! {

/// Bit of a queue family's flags: the family supports graphics operations.
pub const GRAPHICS_BIT: u32 = 0x1;

/// Bit of a queue family's flags: the family supports compute operations.
pub const COMPUTE_BIT: u32 = 0x2;

/// Bit of a queue family's flags: the family supports transfer operations.
pub const TRANSFER_BIT: u32 = 0x4;

/// Bit of a queue family's flags: the family supports sparse binding.
pub const SPARSE_BINDING_BIT: u32 = 0x8;

/// What the classification reads of one queue family of a device: its
/// capability flags, as a raw bit mask, and how many queues it offers.
#[derive(Clone, Copy, Debug, PartialEq, Eq)]
pub struct QueueFamily {
    pub queue_flags: u32,
    pub queue_count: u32,
}

/// Every bit of `bit` is set in `flags`.
pub open spec fn has_flags(flags: u32, bit: u32) -> bool {
    flags & bit == bit
}

/// The family has at least one queue and carries the capability `bit`.
pub open spec fn offers(family: QueueFamily, bit: u32) -> bool {
    family.queue_count > 0 && has_flags(family.queue_flags, bit)
}

/// The indices, in enumeration order, of the families of one device that
/// offer the capability `bit`.
pub open spec fn device_bucket(families: Seq<QueueFamily>, bit: u32) -> Seq<usize>
    decreases families.len(),
{
    if families.len() == 0 {
        Seq::empty()
    } else {
        let i = families.len() - 1;
        device_bucket(families.drop_last(), bit) + if offers(families[i], bit) {
            seq![i as usize]
        } else {
            Seq::empty()
        }
    }
}

/// The buckets of every device, one after the other, in device order.
pub open spec fn bucket(devices: Seq<Vec<QueueFamily>>, bit: u32) -> Seq<usize>
    decreases devices.len(),
{
    if devices.len() == 0 {
        Seq::empty()
    } else {
        bucket(devices.drop_last(), bit) + device_bucket(devices.last()@, bit)
    }
}

/// Within one device, a bucket holds exactly the indices of the families
/// that have queues and carry the capability, each once, in increasing
/// (enumeration) order.
pub proof fn lemma_device_bucket_exact(families: Seq<QueueFamily>, bit: u32)
    requires
        families.len() <= usize::MAX,
    ensures
        forall|k: int|
            0 <= k < device_bucket(families, bit).len() ==> {
                let i = #[trigger] device_bucket(families, bit)[k];
                i < families.len() && offers(families[i as int], bit)
            },
        forall|i: int|
            0 <= i < families.len() && offers(#[trigger] families[i], bit) ==> device_bucket(
                families,
                bit,
            ).contains(i as usize),
        forall|j: int, k: int|
            0 <= j < k < device_bucket(families, bit).len() ==> device_bucket(families, bit)[j]
                < device_bucket(families, bit)[k],
    decreases families.len(),
{
    if families.len() > 0 {
        let prefix = families.drop_last();
        lemma_device_bucket_exact(prefix, bit);
        let last = families.len() - 1;
        let b = device_bucket(families, bit);
        let pb = device_bucket(prefix, bit);
        assert forall|k: int| 0 <= k < pb.len() implies b[k] == pb[k] && pb[k] < last by {
            assert(prefix[pb[k] as int] == families[pb[k] as int]);
        }
        assert forall|i: int|
            0 <= i < families.len() && offers(#[trigger] families[i], bit) implies b.contains(
            i as usize,
        ) by {
            if i < last {
                assert(prefix[i] == families[i]);
                let k = choose|k: int| 0 <= k < pb.len() && pb[k] == i as usize;
                assert(b[k] == i as usize);
            } else {
                assert(b[pb.len() as int] == i as usize);
            }
        }
        assert forall|k: int| 0 <= k < b.len() implies {
            let i = #[trigger] b[k];
            i < families.len() && offers(families[i as int], bit)
        } by {
            if k < pb.len() {
                assert(prefix[pb[k] as int] == families[pb[k] as int]);
            }
        }
    }
}

/// Across devices, every entry of a bucket is the index of a family of some
/// device that has queues and carries the capability, and every such
/// family's index is in the bucket.
pub proof fn lemma_bucket_members(devices: Seq<Vec<QueueFamily>>, bit: u32)
    requires
        forall|d: int| 0 <= d < devices.len() ==> (#[trigger] devices[d])@.len() <= usize::MAX,
    ensures
        forall|k: int|
            0 <= k < bucket(devices, bit).len() ==> exists|d: int|
                0 <= d < devices.len() && #[trigger] bucket(devices, bit)[k] < devices[d]@.len()
                    && offers(devices[d]@[bucket(devices, bit)[k] as int], bit),
        forall|d: int, i: int|
            0 <= d < devices.len() && 0 <= i < devices[d]@.len() && offers(
                #[trigger] devices[d]@[i],
                bit,
            ) ==> bucket(devices, bit).contains(i as usize),
    decreases devices.len(),
{
    if devices.len() > 0 {
        let prefix = devices.drop_last();
        let last = devices.len() - 1;
        lemma_bucket_members(prefix, bit);
        lemma_device_bucket_exact(devices[last]@, bit);
        let b = bucket(devices, bit);
        let pb = bucket(prefix, bit);
        let db = device_bucket(devices[last]@, bit);
        assert(b == pb + db);
        assert forall|k: int| 0 <= k < b.len() implies exists|d: int|
            0 <= d < devices.len() && #[trigger] b[k] < devices[d]@.len() && offers(
                devices[d]@[b[k] as int],
                bit,
            ) by {
            if k < pb.len() {
                assert(b[k] == pb[k]);
                let d = choose|d: int|
                    0 <= d < prefix.len() && #[trigger] pb[k] < prefix[d]@.len() && offers(
                        prefix[d]@[pb[k] as int],
                        bit,
                    );
                assert(prefix[d] == devices[d]);
            } else {
                assert(b[k] == db[k - pb.len()]);
                assert(db[k - pb.len()] < devices[last]@.len());
            }
        }
        assert forall|d: int, i: int|
            0 <= d < devices.len() && 0 <= i < devices[d]@.len() && offers(
                #[trigger] devices[d]@[i],
                bit,
            ) implies b.contains(i as usize) by {
            if d < last {
                assert(prefix[d] == devices[d]);
                assert(offers(prefix[d]@[i], bit));
                let k = choose|k: int| 0 <= k < pb.len() && pb[k] == i as usize;
                assert(b[k] == i as usize);
            } else {
                let k = choose|k: int| 0 <= k < db.len() && db[k] == i as usize;
                assert(b[pb.len() + k] == i as usize);
            }
        }
    }
}

/// Tells whether every bit of `bit` is set in `flags`.
pub fn contains_flags(flags: u32, bit: u32) -> (r: bool)
    ensures
        r == has_flags(flags, bit),
{
    flags & bit == bit
}

/// Tells whether the family has queues and carries the capability `bit`.
pub fn family_offers(family: &QueueFamily, bit: u32) -> (r: bool)
    ensures
        r == offers(*family, bit),
{
    family.queue_count > 0 && contains_flags(family.queue_flags, bit)
}

/// The queue family indices that offer each of the four capabilities.
pub struct QueueBuckets {
    pub graphics: Vec<usize>,
    pub compute: Vec<usize>,
    pub transfer: Vec<usize>,
    pub sparse_binding: Vec<usize>,
}

impl QueueBuckets {
    /// Four empty buckets.
    pub fn new() -> (r: QueueBuckets)
        ensures
            r.graphics@ == Seq::<usize>::empty(),
            r.compute@ == Seq::<usize>::empty(),
            r.transfer@ == Seq::<usize>::empty(),
            r.sparse_binding@ == Seq::<usize>::empty(),
    {
        QueueBuckets {
            graphics: Vec::new(),
            compute: Vec::new(),
            transfer: Vec::new(),
            sparse_binding: Vec::new(),
        }
    }

    /// Appends, to each bucket, the indices of the families of one device
    /// that offer the bucket's capability, in enumeration order.
    pub fn add_device(&mut self, families: &Vec<QueueFamily>)
        ensures
            final(self).graphics@ == old(self).graphics@ + device_bucket(families@, GRAPHICS_BIT),
            final(self).compute@ == old(self).compute@ + device_bucket(families@, COMPUTE_BIT),
            final(self).transfer@ == old(self).transfer@ + device_bucket(families@, TRANSFER_BIT),
            final(self).sparse_binding@ == old(self).sparse_binding@ + device_bucket(
                families@,
                SPARSE_BINDING_BIT,
            ),
    {
        let ghost g0 = self.graphics@;
        let ghost c0 = self.compute@;
        let ghost t0 = self.transfer@;
        let ghost s0 = self.sparse_binding@;
        let mut index: usize = 0;
        while index < families.len()
            invariant
                index <= families@.len(),
                self.graphics@ == g0 + device_bucket(families@.take(index as int), GRAPHICS_BIT),
                self.compute@ == c0 + device_bucket(families@.take(index as int), COMPUTE_BIT),
                self.transfer@ == t0 + device_bucket(families@.take(index as int), TRANSFER_BIT),
                self.sparse_binding@ == s0 + device_bucket(
                    families@.take(index as int),
                    SPARSE_BINDING_BIT,
                ),
            decreases families@.len() - index,
        {
            let family = &families[index];
            proof {
                assert(families@.take(index + 1).drop_last() =~= families@.take(index as int));
            }
            if family_offers(family, GRAPHICS_BIT) {
                self.graphics.push(index);
            }
            if family_offers(family, COMPUTE_BIT) {
                self.compute.push(index);
            }
            if family_offers(family, TRANSFER_BIT) {
                self.transfer.push(index);
            }
            if family_offers(family, SPARSE_BINDING_BIT) {
                self.sparse_binding.push(index);
            }
            index = index + 1;
            proof {
                assert(self.graphics@ =~= g0 + device_bucket(families@.take(index as int), GRAPHICS_BIT));
                assert(self.compute@ =~= c0 + device_bucket(families@.take(index as int), COMPUTE_BIT));
                assert(self.transfer@ =~= t0 + device_bucket(families@.take(index as int), TRANSFER_BIT));
                assert(self.sparse_binding@ =~= s0 + device_bucket(
                    families@.take(index as int),
                    SPARSE_BINDING_BIT,
                ));
            }
        }
        proof {
            assert(families@.take(families@.len() as int) =~= families@);
        }
    }
}

/// Sorts the queue families of every device into the four capability
/// buckets; `devices[d]` lists the families of device `d` in enumeration
/// order.
pub fn classify(devices: &Vec<Vec<QueueFamily>>) -> (r: QueueBuckets)
    ensures
        r.graphics@ == bucket(devices@, GRAPHICS_BIT),
        r.compute@ == bucket(devices@, COMPUTE_BIT),
        r.transfer@ == bucket(devices@, TRANSFER_BIT),
        r.sparse_binding@ == bucket(devices@, SPARSE_BINDING_BIT),
        devices@.len() == 0 ==> r.graphics@.len() == 0 && r.compute@.len() == 0
            && r.transfer@.len() == 0 && r.sparse_binding@.len() == 0,
{
    let mut buckets = QueueBuckets::new();
    let mut d: usize = 0;
    while d < devices.len()
        invariant
            d <= devices@.len(),
            buckets.graphics@ == bucket(devices@.take(d as int), GRAPHICS_BIT),
            buckets.compute@ == bucket(devices@.take(d as int), COMPUTE_BIT),
            buckets.transfer@ == bucket(devices@.take(d as int), TRANSFER_BIT),
            buckets.sparse_binding@ == bucket(devices@.take(d as int), SPARSE_BINDING_BIT),
        decreases devices@.len() - d,
    {
        proof {
            assert(devices@.take(d + 1).drop_last() =~= devices@.take(d as int));
            assert(devices@.take(0) =~= Seq::<Vec<QueueFamily>>::empty());
        }
        buckets.add_device(&devices[d]);
        d = d + 1;
    }
    proof {
        assert(devices@.take(devices@.len() as int) =~= devices@);
    }
    buckets
}

} // verus!
