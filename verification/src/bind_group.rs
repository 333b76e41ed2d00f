//! Lazy, build-once bind groups.
//!
//! A bind group is keyed by its layout together with the identities of the
//! resources it binds.  [`BindGroupCache::get_or_build`] serves a cached
//! handle when one exists, builds exactly once when every referenced
//! resource is resident on the device, and reports [`NotReady`] otherwise
//! so the pass skips binding for this frame and retries the next.

use vstd::prelude::*;

use crate::error::NotReady;

verus! {

/// What one slot of a bind-group layout binds.
#[derive(Clone, Copy, Debug, PartialEq, Eq, Structural)]
pub enum BindingType {
    /// A uniform buffer binding.
    UniformBuffer,
    /// A sampled texture binding.
    Texture,
    /// A sampler binding.
    Sampler,
}

/// Which shader stages may see a binding.
#[derive(Clone, Copy, Debug, PartialEq, Eq, Structural)]
pub struct StageVisibility {
    pub vertex: bool,
    pub fragment: bool,
}

/// One slot of a bind-group layout.
#[derive(Clone, Copy, Debug, PartialEq, Eq, Structural)]
pub struct LayoutEntry {
    /// The binding slot number.
    pub binding: u32,
    /// The stages that may read the binding.
    pub visibility: StageVisibility,
    /// What the slot binds.
    pub ty: BindingType,
}

/// A bind-group layout: its slots, in slot order.
pub struct BindGroupLayout {
    pub entries: Vec<LayoutEntry>,
}

/// The camera layout: a single uniform buffer at slot zero, visible to the
/// vertex and fragment stages.
pub fn camera_bind_group_layout() -> (l: BindGroupLayout)
    ensures
        l.entries@ =~= seq![
            (LayoutEntry {
                binding: 0,
                visibility: (StageVisibility { vertex: true, fragment: true }),
                ty: BindingType::UniformBuffer,
            }),
        ],
{
    let mut entries: Vec<LayoutEntry> = Vec::new();
    entries.push(LayoutEntry {
        binding: 0,
        visibility: StageVisibility { vertex: true, fragment: true },
        ty: BindingType::UniformBuffer,
    });
    BindGroupLayout { entries }
}

/// The material layout: a texture at slot zero and its sampler at slot
/// one, both visible to the fragment stage.
pub fn material_bind_group_layout() -> (l: BindGroupLayout)
    ensures
        l.entries@ =~= seq![
            (LayoutEntry {
                binding: 0,
                visibility: (StageVisibility { vertex: false, fragment: true }),
                ty: BindingType::Texture,
            }),
            (LayoutEntry {
                binding: 1,
                visibility: (StageVisibility { vertex: false, fragment: true }),
                ty: BindingType::Sampler,
            }),
        ],
{
    let mut entries: Vec<LayoutEntry> = Vec::new();
    entries.push(LayoutEntry {
        binding: 0,
        visibility: StageVisibility { vertex: false, fragment: true },
        ty: BindingType::Texture,
    });
    entries.push(LayoutEntry {
        binding: 1,
        visibility: StageVisibility { vertex: false, fragment: true },
        ty: BindingType::Sampler,
    });
    BindGroupLayout { entries }
}

/// A cached, device-resident bind group.
#[derive(Clone, Copy, Debug, PartialEq, Eq, Structural)]
pub struct BindGroupHandle {
    pub id: u64,
}

/// The identity a bind group is cached under: a layout identity plus the
/// identities of the resources bound, in slot order.
pub struct BindGroupKey {
    pub layout: u64,
    pub resources: Vec<u64>,
}

/// The mathematical form of a key.
#[verifier::ext_equal]
pub ghost struct BindGroupKeyModel {
    pub layout: u64,
    pub resources: Seq<u64>,
}

impl View for BindGroupKey {
    type V = BindGroupKeyModel;

    open spec fn view(&self) -> BindGroupKeyModel {
        BindGroupKeyModel { layout: self.layout, resources: self.resources@ }
    }
}

/// The mathematical state of the cache.
#[verifier::ext_equal]
pub ghost struct BindGroupCacheModel {
    /// The cached bind groups, oldest first.
    pub entries: Seq<(BindGroupKeyModel, BindGroupHandle)>,
    /// How many bind groups have been built.
    pub builds: int,
    /// The next handle to hand out.
    pub next_handle: u64,
}

/// The cache of built bind groups.
pub struct BindGroupCache {
    entries: Vec<(BindGroupKey, BindGroupHandle)>,
    builds: u64,
    next_handle: u64,
}

impl View for BindGroupCache {
    type V = BindGroupCacheModel;

    closed spec fn view(&self) -> BindGroupCacheModel {
        BindGroupCacheModel {
            entries: Seq::new(self.entries@.len(), |i: int| (self.entries@[i].0@, self.entries@[i].1)),
            builds: self.builds as int,
            next_handle: self.next_handle,
        }
    }
}

/// The handle cached under a key, if any: the first match, front to back.
pub open spec fn spec_lookup(
    entries: Seq<(BindGroupKeyModel, BindGroupHandle)>,
    k: BindGroupKeyModel,
) -> Option<BindGroupHandle>
    decreases entries.len(),
{
    if entries.len() == 0 {
        None
    } else if entries[0].0 == k {
        Some(entries[0].1)
    } else {
        spec_lookup(entries.drop_first(), k)
    }
}

/// Whether every resource a key references is resident on the device.
pub open spec fn spec_all_resident(k: BindGroupKeyModel, resident: Seq<u64>) -> bool {
    forall|i: int| 0 <= i < k.resources.len() ==> resident.contains(#[trigger] k.resources[i])
}

/// What one `get_or_build` request does to the model, and what it returns:
/// a cached key is served as is; an uncached key whose resources are all
/// resident is built once under a fresh handle; anything else is not ready
/// and leaves the cache unchanged.
pub open spec fn spec_get_or_build(
    m: BindGroupCacheModel,
    k: BindGroupKeyModel,
    resident: Seq<u64>,
) -> (BindGroupCacheModel, Result<BindGroupHandle, NotReady>) {
    match spec_lookup(m.entries, k) {
        Some(h) => (m, Ok(h)),
        None => {
            if spec_all_resident(k, resident) {
                let fresh = BindGroupHandle { id: m.next_handle };
                (
                    BindGroupCacheModel {
                        entries: m.entries.push((k, fresh)),
                        builds: m.builds + 1,
                        next_handle: (m.next_handle + 1) as u64,
                    },
                    Ok(fresh),
                )
            } else {
                (m, Err(NotReady))
            }
        },
    }
}

/// Whether `x` occurs in `v`.
fn contains_id(v: &Vec<u64>, x: u64) -> (r: bool)
    ensures
        r == v@.contains(x),
{
    let mut i: usize = 0;
    while i < v.len()
        invariant
            i <= v.len(),
            forall|j: int| 0 <= j < i ==> v@[j] != x,
        decreases v.len() - i,
    {
        if v[i] == x {
            return true;
        }
        i = i + 1;
    }
    false
}

/// Whether two keys are the same identity.
fn keys_match(a: &BindGroupKey, b: &BindGroupKey) -> (r: bool)
    ensures
        r == (a@ == b@),
{
    if a.layout != b.layout {
        return false;
    }
    if a.resources.len() != b.resources.len() {
        return false;
    }
    let mut i: usize = 0;
    while i < a.resources.len()
        invariant
            i <= a.resources.len(),
            a.resources.len() == b.resources.len(),
            a.layout == b.layout,
            forall|j: int| 0 <= j < i ==> a.resources@[j] == b.resources@[j],
        decreases a.resources.len() - i,
    {
        if a.resources[i] != b.resources[i] {
            return false;
        }
        i = i + 1;
    }
    proof {
        assert(a@.resources =~= b@.resources);
        assert(a@ =~= b@);
    }
    true
}

impl BindGroupCache {
    /// An empty cache: nothing built yet.
    pub fn new() -> (c: Self)
        ensures
            c@ == (BindGroupCacheModel { entries: Seq::empty(), builds: 0, next_handle: 0 }),
    {
        let c = BindGroupCache { entries: Vec::new(), builds: 0, next_handle: 0 };
        proof {
            assert(c@.entries =~= Seq::<(BindGroupKeyModel, BindGroupHandle)>::empty());
        }
        c
    }

    /// Serve the bind group cached under `key`, or build it once if every
    /// resource in `resident` covers the key's references; otherwise
    /// report [`NotReady`] and change nothing.
    pub fn get_or_build(&mut self, key: BindGroupKey, resident: &Vec<u64>) -> (r: Result<
        BindGroupHandle,
        NotReady,
    >)
        requires
            old(self)@.next_handle < u64::MAX,
            old(self)@.builds < u64::MAX,
        ensures
            final(self)@ == spec_get_or_build(old(self)@, key@, resident@).0,
            r == spec_get_or_build(old(self)@, key@, resident@).1,
    {
        let ghost m = self@;
        proof {
            assert(m.entries.skip(0) =~= m.entries);
        }
        let mut i: usize = 0;
        while i < self.entries.len()
            invariant
                i <= self.entries.len(),
                self@ == m,
                spec_lookup(m.entries, key@) == spec_lookup(
                    m.entries.skip(i as int),
                    key@,
                ),
            decreases self.entries.len() - i,
        {
            let hit = keys_match(&self.entries[i].0, &key);
            proof {
                assert(m.entries.skip(i as int).len() > 0);
                assert(m.entries.skip(i as int)[0] == m.entries[i as int]);
                assert(m.entries[i as int].0 == self.entries@[i as int].0@);
            }
            if hit {
                return Ok(self.entries[i].1);
            }
            proof {
                assert(m.entries.skip(i as int).drop_first() =~= m.entries.skip(i as int + 1));
            }
            i = i + 1;
        }
        proof {
            assert(m.entries.skip(i as int) =~= Seq::<(BindGroupKeyModel, BindGroupHandle)>::empty());
            assert(spec_lookup(m.entries, key@) is None);
        }
        let mut j: usize = 0;
        while j < key.resources.len()
            invariant
                j <= key.resources.len(),
                self@ == m,
                spec_lookup(m.entries, key@) is None,
                forall|t: int| 0 <= t < j ==> resident@.contains(#[trigger] key.resources@[t]),
            decreases key.resources.len() - j,
        {
            if !contains_id(resident, key.resources[j]) {
                proof {
                    assert(!spec_all_resident(key@, resident@)) by {
                        assert(!resident@.contains(key@.resources[j as int]));
                    }
                }
                return Err(NotReady);
            }
            j = j + 1;
        }
        assert(spec_all_resident(key@, resident@));
        let fresh = BindGroupHandle { id: self.next_handle };
        self.entries.push((key, fresh));
        self.builds = self.builds + 1;
        self.next_handle = self.next_handle + 1;
        proof {
            assert(self@.entries =~= m.entries.push((key@, fresh)));
            assert(self@ =~= spec_get_or_build(m, key@, resident@).0);
        }
        Ok(fresh)
    }

    /// Drop the bind group cached under `key`, so that the next request
    /// for it rebuilds.  A key that is not cached changes nothing.
    pub fn invalidate(&mut self, key: &BindGroupKey)
        ensures
            final(self)@ == (BindGroupCacheModel {
                entries: spec_invalidate(old(self)@.entries, key@),
                ..old(self)@
            }),
    {
        let ghost entries0 = self@.entries;
        let mut i: usize = 0;
        while i < self.entries.len()
            invariant
                i <= self.entries.len(),
                entries0 == old(self)@.entries,
                self@ == old(self)@,
                forall|t: int| 0 <= t < i ==> entries0[t].0 != key@,
            decreases self.entries.len() - i,
        {
            let hit = keys_match(&self.entries[i].0, key);
            if hit {
                proof {
                    lemma_invalidate_at(entries0, key@, i as int);
                }
                self.entries.remove(i);
                return ;
            }
            i = i + 1;
        }
        proof {
            lemma_invalidate_absent(entries0, key@);
        }
    }

    /// How many bind groups have been built since the cache was created.
    pub fn builds(&self) -> (n: u64)
        ensures
            n as int == self@.builds,
    {
        self.builds
    }

    /// How many handles the cache has handed out.
    pub fn handles_issued(&self) -> (n: u64)
        ensures
            n == self@.next_handle,
    {
        self.next_handle
    }
}

/// A cache's entries with the first entry under a key dropped; the
/// entries themselves when the key is not cached.
pub open spec fn spec_invalidate(
    entries: Seq<(BindGroupKeyModel, BindGroupHandle)>,
    k: BindGroupKeyModel,
) -> Seq<(BindGroupKeyModel, BindGroupHandle)>
    decreases entries.len(),
{
    if entries.len() == 0 {
        entries
    } else if entries[0].0 == k {
        entries.drop_first()
    } else {
        seq![entries[0]] + spec_invalidate(entries.drop_first(), k)
    }
}

/// Invalidation removes exactly the first entry under the key.
proof fn lemma_invalidate_at(
    entries: Seq<(BindGroupKeyModel, BindGroupHandle)>,
    k: BindGroupKeyModel,
    j: int,
)
    requires
        0 <= j < entries.len(),
        entries[j].0 == k,
        forall|t: int| 0 <= t < j ==> entries[t].0 != k,
    ensures
        spec_invalidate(entries, k) == entries.remove(j),
    decreases j,
{
    if j == 0 {
        assert(entries.drop_first() =~= entries.remove(0));
    } else {
        lemma_invalidate_at(entries.drop_first(), k, j - 1);
        assert(seq![entries[0]] + entries.drop_first().remove(j - 1) =~= entries.remove(j));
    }
}

/// Invalidating a key that is not cached changes nothing.
proof fn lemma_invalidate_absent(
    entries: Seq<(BindGroupKeyModel, BindGroupHandle)>,
    k: BindGroupKeyModel,
)
    requires
        forall|t: int| 0 <= t < entries.len() ==> entries[t].0 != k,
    ensures
        spec_invalidate(entries, k) == entries,
    decreases entries.len(),
{
    if entries.len() > 0 {
        lemma_invalidate_absent(entries.drop_first(), k);
        assert(seq![entries[0]] + entries.drop_first() =~= entries);
    }
}

/// After an uncached key is built, it is found in the cache.
proof fn lemma_lookup_after_build(
    entries: Seq<(BindGroupKeyModel, BindGroupHandle)>,
    k: BindGroupKeyModel,
    h: BindGroupHandle,
)
    requires
        spec_lookup(entries, k) is None,
    ensures
        spec_lookup(entries.push((k, h)), k) == Some(h),
    decreases entries.len(),
{
    if entries.len() == 0 {
        assert(entries.push((k, h))[0] == (k, h));
    } else {
        assert(entries.push((k, h)).drop_first() =~= entries.drop_first().push((k, h)));
        lemma_lookup_after_build(entries.drop_first(), k, h);
    }
}

/// Law: requesting a bind group before a referenced resource is resident
/// returns not ready and changes nothing; once the resources are resident
/// the same request builds the group exactly once; and repeating the
/// request afterwards serves the cached handle without a second build.
pub proof fn lemma_bind_group_lifecycle(
    m: BindGroupCacheModel,
    k: BindGroupKeyModel,
    scarce: Seq<u64>,
    rich: Seq<u64>,
)
    requires
        spec_lookup(m.entries, k) is None,
        !spec_all_resident(k, scarce),
        spec_all_resident(k, rich),
    ensures
        spec_get_or_build(m, k, scarce).0 == m,
        spec_get_or_build(m, k, scarce).1 == Err::<BindGroupHandle, NotReady>(NotReady),
        spec_get_or_build(m, k, rich).1 == Ok::<BindGroupHandle, NotReady>(
            BindGroupHandle { id: m.next_handle },
        ),
        spec_get_or_build(m, k, rich).0.builds == m.builds + 1,
        spec_get_or_build(spec_get_or_build(m, k, rich).0, k, rich).0 == spec_get_or_build(
            m,
            k,
            rich,
        ).0,
        spec_get_or_build(spec_get_or_build(m, k, rich).0, k, rich).1 == spec_get_or_build(
            m,
            k,
            rich,
        ).1,
{
    let built = spec_get_or_build(m, k, rich).0;
    lemma_lookup_after_build(m.entries, k, BindGroupHandle { id: m.next_handle });
    assert(spec_lookup(built.entries, k) == Some(BindGroupHandle { id: m.next_handle }));
}

} // verus!
