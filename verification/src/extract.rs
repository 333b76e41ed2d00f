//! The per-frame extraction phase.
//!
//! Extraction runs once per frame before any GPU work: it copies the
//! authoritative simulation-side state — cursor position, window
//! geometry, material reference, per-entity transforms — into isolated
//! render-side values, so render-side readers never observe a value
//! mid-mutation.  Entities are grouped by mesh handle into the per-mesh
//! instance lists the buffer stages consume.

use vstd::prelude::*;

use crate::instance::Instance;

verus! {

/// A stable reference to a mesh owned by the asset cache.
#[derive(Clone, Copy, Debug, PartialEq, Eq, Structural)]
pub struct MeshHandle {
    pub id: u64,
}

/// The render-side copy of the cursor position, in physical pixels.
/// Created as `(0, 0)` before the first extraction.
#[derive(Clone, Copy, Debug, PartialEq, Eq, Structural, Default)]
pub struct MousePosition {
    pub x: u32,
    pub y: u32,
}

/// The render-side copy of the window geometry, in physical pixels.
#[derive(Clone, Copy, Debug, PartialEq, Eq, Structural, Default)]
pub struct ExtractedWindow {
    pub physical_width: u32,
    pub physical_height: u32,
}

/// A stable reference to the material's texture asset.
#[derive(Clone, Copy, Debug, PartialEq, Eq, Structural)]
pub struct MaterialRef {
    pub image: u64,
}

/// Fold this frame's cursor events into the current position: the last
/// event wins; with no event the position is unchanged.
pub fn apply_cursor_events(current: &mut MousePosition, events: &Vec<MousePosition>)
    ensures
        *final(current) == if events@.len() > 0 {
            events@.last()
        } else {
            *old(current)
        },
{
    let mut i: usize = 0;
    while i < events.len()
        invariant
            i <= events.len(),
            *current == if i > 0 {
                events@[i - 1]
            } else {
                *old(current)
            },
        decreases events.len() - i,
    {
        *current = events[i];
        i = i + 1;
    }
}

/// Snapshot the simulation-side cursor position into the render side.
pub fn extract_mouse_position(render_position: &mut MousePosition, main_position: &MousePosition)
    ensures
        *final(render_position) == *main_position,
{
    *render_position = *main_position;
}

/// Snapshot the window geometry into the render side.
pub fn extract_window(extracted: &mut ExtractedWindow, width: u32, height: u32)
    ensures
        *final(extracted) == (ExtractedWindow { physical_width: width, physical_height: height }),
{
    extracted.physical_width = width;
    extracted.physical_height = height;
}

/// Copy the material reference to the render side once: a copy that
/// already exists is left alone.
pub fn extract_material(extracted: &mut Option<MaterialRef>, main_material: &MaterialRef)
    ensures
        *final(extracted) == if (*old(extracted)) is Some {
            *old(extracted)
        } else {
            Some(*main_material)
        },
{
    if extracted.is_none() {
        *extracted = Some(*main_material);
    }
}

/// The per-mesh instance lists of one frame: each mesh handle that
/// appeared, with the instances bearing it, in appearance order.
pub struct MeshInstances {
    pub groups: Vec<(MeshHandle, Vec<Instance>)>,
}

impl View for MeshInstances {
    type V = Seq<(MeshHandle, Seq<Instance>)>;

    open spec fn view(&self) -> Seq<(MeshHandle, Seq<Instance>)> {
        Seq::new(self.groups@.len(), |i: int| (self.groups@[i].0, self.groups@[i].1@))
    }
}

/// Whether some group carries the handle.
pub open spec fn spec_has_group(gs: Seq<(MeshHandle, Seq<Instance>)>, h: MeshHandle) -> bool {
    exists|j: int| 0 <= j < gs.len() && gs[j].0 == h
}

/// The index of the group carrying the handle (meaningful when the
/// handle has a group and group keys are unique).
pub open spec fn spec_group_index(gs: Seq<(MeshHandle, Seq<Instance>)>, h: MeshHandle) -> int {
    choose|j: int| 0 <= j < gs.len() && gs[j].0 == h
}

/// Whether no two groups carry the same handle.
pub open spec fn spec_keys_unique(gs: Seq<(MeshHandle, Seq<Instance>)>) -> bool {
    forall|i: int, j: int| 0 <= i < j < gs.len() ==> gs[i].0 != gs[j].0
}

/// One entity joining the grouping: appended to its handle's group, or
/// opening a new group at the end.
pub open spec fn spec_add_entity(
    gs: Seq<(MeshHandle, Seq<Instance>)>,
    h: MeshHandle,
    inst: Instance,
) -> Seq<(MeshHandle, Seq<Instance>)> {
    if spec_has_group(gs, h) {
        let j = spec_group_index(gs, h);
        gs.update(j, (h, gs[j].1.push(inst)))
    } else {
        gs.push((h, seq![inst]))
    }
}

/// The grouping of a whole entity sequence, first to last.
pub open spec fn spec_group(entities: Seq<(MeshHandle, Instance)>) -> Seq<
    (MeshHandle, Seq<Instance>),
>
    decreases entities.len(),
{
    if entities.len() == 0 {
        Seq::empty()
    } else {
        spec_add_entity(
            spec_group(entities.drop_last()),
            entities.last().0,
            entities.last().1,
        )
    }
}

/// The instances bearing a handle, in entity order.
pub open spec fn spec_instances_of(
    entities: Seq<(MeshHandle, Instance)>,
    h: MeshHandle,
) -> Seq<Instance>
    decreases entities.len(),
{
    if entities.len() == 0 {
        Seq::empty()
    } else if entities.last().0 == h {
        spec_instances_of(entities.drop_last(), h).push(entities.last().1)
    } else {
        spec_instances_of(entities.drop_last(), h)
    }
}

/// The total number of instances across all groups.
pub open spec fn spec_total(gs: Seq<(MeshHandle, Seq<Instance>)>) -> int
    decreases gs.len(),
{
    if gs.len() == 0 {
        0
    } else {
        spec_total(gs.drop_last()) + gs.last().1.len()
    }
}

/// An index that carries the handle is the group index, when keys are
/// unique.
proof fn lemma_index_unique(gs: Seq<(MeshHandle, Seq<Instance>)>, h: MeshHandle, j: int)
    requires
        spec_keys_unique(gs),
        0 <= j < gs.len(),
        gs[j].0 == h,
    ensures
        spec_has_group(gs, h),
        spec_group_index(gs, h) == j,
{
    assert(spec_has_group(gs, h));
    let cj = spec_group_index(gs, h);
    assert(0 <= cj < gs.len() && gs[cj].0 == h);
    if cj != j {
        if cj < j {
            assert(gs[cj].0 != gs[j].0);
        } else {
            assert(gs[j].0 != gs[cj].0);
        }
    }
}

/// Adding an entity keeps group keys unique.
proof fn lemma_add_keys_unique(gs: Seq<(MeshHandle, Seq<Instance>)>, h: MeshHandle, inst: Instance)
    requires
        spec_keys_unique(gs),
    ensures
        spec_keys_unique(spec_add_entity(gs, h, inst)),
{
    if spec_has_group(gs, h) {
        let j = spec_group_index(gs, h);
        let gs2 = gs.update(j, (h, gs[j].1.push(inst)));
        assert(forall|i: int| 0 <= i < gs.len() ==> gs2[i].0 == gs[i].0);
    }
}

/// The grouping of any entity sequence has unique keys.
proof fn lemma_group_keys_unique(entities: Seq<(MeshHandle, Instance)>)
    ensures
        spec_keys_unique(spec_group(entities)),
    decreases entities.len(),
{
    if entities.len() > 0 {
        lemma_group_keys_unique(entities.drop_last());
        lemma_add_keys_unique(
            spec_group(entities.drop_last()),
            entities.last().0,
            entities.last().1,
        );
    }
}

/// Updating one group changes the total by the change in that group.
proof fn lemma_total_update(
    gs: Seq<(MeshHandle, Seq<Instance>)>,
    j: int,
    p: (MeshHandle, Seq<Instance>),
)
    requires
        0 <= j < gs.len(),
    ensures
        spec_total(gs.update(j, p)) == spec_total(gs) - gs[j].1.len() + p.1.len(),
    decreases gs.len(),
{
    let gs2 = gs.update(j, p);
    if j == gs.len() - 1 {
        assert(gs2.drop_last() =~= gs.drop_last());
        assert(gs2.last() == p);
    } else {
        assert(gs2.drop_last() =~= gs.drop_last().update(j, p));
        assert(gs2.last() == gs.last());
        lemma_total_update(gs.drop_last(), j, p);
    }
}

/// Adding an entity grows the total by exactly one.
proof fn lemma_add_total(gs: Seq<(MeshHandle, Seq<Instance>)>, h: MeshHandle, inst: Instance)
    ensures
        spec_total(spec_add_entity(gs, h, inst)) == spec_total(gs) + 1,
{
    if spec_has_group(gs, h) {
        let j = spec_group_index(gs, h);
        lemma_total_update(gs, j, (h, gs[j].1.push(inst)));
    } else {
        let gs2 = gs.push((h, seq![inst]));
        assert(gs2.drop_last() =~= gs);
        assert(gs2.last() == (h, seq![inst]));
    }
}

/// Law, first half: grouping loses nothing and duplicates nothing — for
/// any entity sequence, the group totals sum to exactly the number of
/// entities, zero included.
pub proof fn lemma_extraction_total(entities: Seq<(MeshHandle, Instance)>)
    ensures
        spec_total(spec_group(entities)) == entities.len(),
    decreases entities.len(),
{
    if entities.len() > 0 {
        lemma_extraction_total(entities.drop_last());
        lemma_add_total(
            spec_group(entities.drop_last()),
            entities.last().0,
            entities.last().1,
        );
    }
}

/// Law, second half: the grouping partitions correctly — a handle has a
/// group exactly when some entity bears it, and that group holds exactly
/// the instances borne by the handle, in entity order.
pub proof fn lemma_extraction_partition(entities: Seq<(MeshHandle, Instance)>, h: MeshHandle)
    ensures
        spec_has_group(spec_group(entities), h) <==> spec_instances_of(entities, h).len() > 0,
        spec_has_group(spec_group(entities), h) ==> spec_group(entities)[spec_group_index(
            spec_group(entities),
            h,
        )].1 == spec_instances_of(entities, h),
    decreases entities.len(),
{
    lemma_group_keys_unique(entities);
    if entities.len() == 0 {
        assert(!spec_has_group(spec_group(entities), h));
    } else {
        let prev = entities.drop_last();
        let e = entities.last();
        let gs = spec_group(prev);
        lemma_group_keys_unique(prev);
        lemma_extraction_partition(prev, h);
        let gs2 = spec_group(entities);
        assert(gs2 == spec_add_entity(gs, e.0, e.1));
        if spec_has_group(gs, e.0) {
            let j = spec_group_index(gs, e.0);
            assert(0 <= j < gs.len() && gs[j].0 == e.0);
            let gs2e = gs.update(j, (e.0, gs[j].1.push(e.1)));
            assert(gs2 == gs2e);
            lemma_add_keys_unique(gs, e.0, e.1);
            if e.0 == h {
                lemma_index_unique(gs2e, h, j);
                assert(gs2e[j].1 == gs[j].1.push(e.1));
                lemma_extraction_partition(prev, e.0);
            } else {
                if spec_has_group(gs, h) {
                    let jh = spec_group_index(gs, h);
                    assert(jh != j);
                    lemma_index_unique(gs2e, h, jh);
                    assert(gs2e[jh] == gs[jh]);
                } else {
                    assert forall|t: int| 0 <= t < gs2e.len() implies gs2e[t].0 != h by {
                        assert(gs2e[t].0 == gs[t].0);
                    };
                    assert(!spec_has_group(gs2e, h));
                }
            }
        } else {
            let gs2p = gs.push((e.0, seq![e.1]));
            assert(gs2 == gs2p);
            lemma_add_keys_unique(gs, e.0, e.1);
            if e.0 == h {
                lemma_index_unique(gs2p, h, gs.len() as int);
                assert(gs2p[gs.len() as int].1 == seq![e.1]);
                assert(spec_instances_of(prev, h).len() == 0);
                assert(spec_instances_of(entities, h) =~= seq![e.1]);
            } else {
                if spec_has_group(gs, h) {
                    let jh = spec_group_index(gs, h);
                    assert(gs2p[jh] == gs[jh]);
                    lemma_index_unique(gs2p, h, jh);
                } else {
                    assert forall|t: int| 0 <= t < gs2p.len() implies gs2p[t].0 != h by {
                        if t < gs.len() {
                            assert(gs2p[t] == gs[t]);
                        }
                    };
                    assert(!spec_has_group(gs2p, h));
                }
            }
        }
    }
}

/// The index of the first group carrying `h`, if any.
fn find_group(groups: &Vec<(MeshHandle, Vec<Instance>)>, h: MeshHandle) -> (r: Option<usize>)
    ensures
        match r {
            Some(j) => j < groups@.len() && groups@[j as int].0 == h,
            None => forall|t: int| 0 <= t < groups@.len() ==> groups@[t].0 != h,
        },
{
    let mut i: usize = 0;
    while i < groups.len()
        invariant
            i <= groups.len(),
            forall|t: int| 0 <= t < i ==> groups@[t].0 != h,
        decreases groups.len() - i,
    {
        if groups[i].0.id == h.id {
            return Some(i);
        }
        i = i + 1;
    }
    None
}

/// Group this frame's entities by mesh handle: each handle that appears
/// gets one group holding, in order, the instances borne by it.
pub fn extract_mesh_entities(entities: &Vec<(MeshHandle, Instance)>) -> (g: MeshInstances)
    ensures
        g@ == spec_group(entities@),
{
    let mut groups: Vec<(MeshHandle, Vec<Instance>)> = Vec::new();
    let mut i: usize = 0;
    proof {
        assert(entities@.subrange(0, 0) =~= Seq::empty());
        assert(spec_group(entities@.subrange(0, 0)) =~= Seq::<(MeshHandle, Seq<Instance>)>::empty());
    }
    while i < entities.len()
        invariant
            i <= entities.len(),
            Seq::new(groups@.len(), |t: int| (groups@[t].0, groups@[t].1@)) == spec_group(
                entities@.subrange(0, i as int),
            ),
        decreases entities.len() - i,
    {
        let ghost prefix = entities@.subrange(0, i as int);
        let ghost gs = Seq::new(groups@.len(), |t: int| (groups@[t].0, groups@[t].1@));
        let h = entities[i].0;
        let inst = entities[i].1;
        proof {
            lemma_group_keys_unique(prefix);
            assert(entities@.subrange(0, i as int + 1).drop_last() =~= prefix);
            assert(entities@.subrange(0, i as int + 1).last() == (h, inst));
        }
        match find_group(&groups, h) {
            Some(j) => {
                let mut pair = groups.remove(j);
                pair.1.push(inst);
                groups.insert(j, pair);
                proof {
                    lemma_index_unique(gs, h, j as int);
                    let gs2 = Seq::new(
                        groups@.len(),
                        |t: int| (groups@[t].0, groups@[t].1@),
                    );
                    assert(gs2 =~= spec_add_entity(gs, h, inst));
                }
            },
            None => {
                let mut insts: Vec<Instance> = Vec::new();
                insts.push(inst);
                groups.push((h, insts));
                proof {
                    assert(!spec_has_group(gs, h));
                    let gs2 = Seq::new(
                        groups@.len(),
                        |t: int| (groups@[t].0, groups@[t].1@),
                    );
                    assert(insts@ =~= seq![inst]);
                    assert(gs2 =~= spec_add_entity(gs, h, inst));
                }
            },
        }
        i = i + 1;
    }
    proof {
        assert(entities@.subrange(0, entities@.len() as int) =~= entities@);
    }
    MeshInstances { groups }
}

} // verus!
