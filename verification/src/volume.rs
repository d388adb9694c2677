//! The volumes of an instance, and how one volume is put into a list of them.

use vstd::prelude::*;

verus! {

/// One file of a downward-API volume: the field of the object at
/// `field_path` is exposed at the relative path `path`.
#[derive(Debug, Clone)]
pub struct FieldProjection {
    pub path: String,
    pub field_path: String,
}

/// What a volume is backed by.
#[derive(Debug)]
pub enum VolumeSource {
    /// Fields of the object itself, projected into files.
    DownwardApi(Vec<FieldProjection>),
    /// Any other definition, kept as it came.
    Other(serde_json::Value),
}

/// A named volume.
#[derive(Debug)]
pub struct Volume {
    pub name: String,
    pub source: VolumeSource,
}

pub struct FieldProjectionView {
    pub path: Seq<char>,
    pub field_path: Seq<char>,
}

pub enum VolumeSourceView {
    DownwardApi(Seq<FieldProjectionView>),
    Other(serde_json::Value),
}

pub struct VolumeView {
    pub name: Seq<char>,
    pub source: VolumeSourceView,
}

impl View for FieldProjection {
    type V = FieldProjectionView;

    open spec fn view(&self) -> FieldProjectionView {
        FieldProjectionView { path: self.path@, field_path: self.field_path@ }
    }
}

impl View for VolumeSource {
    type V = VolumeSourceView;

    open spec fn view(&self) -> VolumeSourceView {
        match self {
            VolumeSource::DownwardApi(fields) => VolumeSourceView::DownwardApi(
                fields@.map_values(|f: FieldProjection| f@),
            ),
            VolumeSource::Other(value) => VolumeSourceView::Other(*value),
        }
    }
}

impl View for Volume {
    type V = VolumeView;

    open spec fn view(&self) -> VolumeView {
        VolumeView { name: self.name@, source: self.source@ }
    }
}

/// The views of a list of volumes, in its order.
pub open spec fn volume_views(volumes: Seq<Volume>) -> Seq<VolumeView> {
    volumes.map_values(|v: Volume| v@)
}

/// The index of the first volume called `name`, or the length of the list
/// where there is none.
pub open spec fn first_named(volumes: Seq<VolumeView>, name: Seq<char>) -> int
    decreases volumes.len(),
{
    if volumes.len() == 0 || volumes[0].name == name {
        0
    } else {
        1 + first_named(volumes.drop_first(), name)
    }
}

/// The list with `volume` in it: in place of the first volume of its name,
/// or at the end where no volume has that name.
pub open spec fn upsert(volumes: Seq<VolumeView>, volume: VolumeView) -> Seq<VolumeView> {
    let at = first_named(volumes, volume.name);
    if at < volumes.len() {
        volumes.update(at, volume)
    } else {
        volumes.push(volume)
    }
}

/// `first_named` is the one index before which no volume has the name and
/// at which, if it is inside the list, a volume has it.
pub proof fn lemma_first_named(volumes: Seq<VolumeView>, name: Seq<char>, at: int)
    ensures
        0 <= first_named(volumes, name) <= volumes.len(),
        (first_named(volumes, name) == at) <==> ({
            &&& 0 <= at <= volumes.len()
            &&& forall|j: int| 0 <= j < at ==> (#[trigger] volumes[j]).name != name
            &&& at < volumes.len() ==> volumes[at].name == name
        }),
    decreases volumes.len(),
{
    if volumes.len() == 0 || volumes[0].name == name {
        if 0 < at <= volumes.len() && volumes.len() > 0 {
            assert(volumes[0].name == name);
        }
    } else {
        let rest = volumes.drop_first();
        lemma_first_named(rest, name, at - 1);
        let found = first_named(rest, name);
        lemma_first_named(rest, name, found);
        if first_named(volumes, name) == at {
            assert forall|j: int| 0 <= j < at implies (#[trigger] volumes[j]).name != name by {
                if j > 0 {
                    assert(rest[j - 1].name != name);
                }
            }
            if at < volumes.len() {
                assert(rest[at - 1] == volumes[at]);
            }
        } else if 0 <= at <= volumes.len() && (forall|j: int|
            0 <= j < at ==> (#[trigger] volumes[j]).name != name) && (at < volumes.len()
            ==> volumes[at].name == name) {
            assert(at > 0);
            assert forall|j: int| 0 <= j < at - 1 implies (#[trigger] rest[j]).name != name by {
                assert(volumes[j + 1].name != name);
            }
            if at - 1 < rest.len() {
                assert(rest[at - 1] == volumes[at]);
            }
        }
    }
}

/// The volumes that are not called `name`, in their order.
pub open spec fn others(volumes: Seq<VolumeView>, name: Seq<char>) -> Seq<VolumeView> {
    volumes.filter(|v: VolumeView| v.name != name)
}

/// The volumes that are called `name`, in their order.
pub open spec fn namesakes(volumes: Seq<VolumeView>, name: Seq<char>) -> Seq<VolumeView> {
    volumes.filter(|v: VolumeView| v.name == name)
}

/// Putting a volume in leaves every volume of another name where it stands:
/// the list grows by at most one, at its end, and every index of the old
/// list holds a volume of the same name as before, which is the old volume
/// itself unless it is the first of the new volume's name.
pub proof fn lemma_upsert_in_place(volumes: Seq<VolumeView>, volume: VolumeView)
    ensures
        volumes.len() <= upsert(volumes, volume).len() <= volumes.len() + 1,
        forall|i: int|
            0 <= i < volumes.len() ==> (#[trigger] upsert(volumes, volume)[i]).name
                == volumes[i].name,
        forall|i: int|
            0 <= i < volumes.len() && i != first_named(volumes, volume.name) ==> (
            #[trigger] upsert(volumes, volume)[i]) == volumes[i],
        upsert(volumes, volume)[first_named(volumes, volume.name)] == volume,
{
    lemma_first_named(volumes, volume.name, first_named(volumes, volume.name));
}

/// Putting a volume in keeps the volumes of other names, and their order.
pub proof fn lemma_upsert_keeps_others(volumes: Seq<VolumeView>, volume: VolumeView)
    ensures
        others(upsert(volumes, volume), volume.name) == others(volumes, volume.name),
{
    let at = first_named(volumes, volume.name);
    let keep = |v: VolumeView| v.name != volume.name;
    lemma_first_named(volumes, volume.name, at);
    lemma_filter_one(volume, keep);
    if at < volumes.len() {
        let before = volumes.take(at);
        let after = volumes.skip(at + 1);
        lemma_filter_one(volumes[at], keep);
        assert(volumes == before + seq![volumes[at]] + after);
        assert(volumes.update(at, volume) == before + seq![volume] + after);
        Seq::filter_distributes_over_add(before + seq![volumes[at]], after, keep);
        Seq::filter_distributes_over_add(before, seq![volumes[at]], keep);
        Seq::filter_distributes_over_add(before + seq![volume], after, keep);
        Seq::filter_distributes_over_add(before, seq![volume], keep);
    } else {
        assert(volumes.push(volume) == volumes + seq![volume]);
        Seq::filter_distributes_over_add(volumes, seq![volume], keep);
    }
}

/// A list of one element, filtered.
proof fn lemma_filter_one(volume: VolumeView, keep: spec_fn(VolumeView) -> bool)
    ensures
        seq![volume].filter(keep) == (if keep(volume) {
            seq![volume]
        } else {
            Seq::<VolumeView>::empty()
        }),
{
    reveal_with_fuel(Seq::filter, 2);
    assert(seq![volume].drop_last() == Seq::<VolumeView>::empty());
}

/// No volume in the list, no namesake.
proof fn lemma_no_namesake(volumes: Seq<VolumeView>, name: Seq<char>)
    requires
        forall|j: int| 0 <= j < volumes.len() ==> (#[trigger] volumes[j]).name != name,
    ensures
        namesakes(volumes, name).len() == 0,
    decreases volumes.len(),
{
    reveal(Seq::filter);
    if volumes.len() > 0 {
        let front = volumes.drop_last();
        assert forall|j: int| 0 <= j < front.len() implies (#[trigger] front[j]).name != name by {
            assert(volumes[j].name != name);
        }
        lemma_no_namesake(front, name);
        assert(volumes[volumes.len() - 1].name != name);
    }
}

/// After a volume is put in, the list holds as many volumes of its name as
/// before, and one where it held none. So a list with at most one volume of
/// the name has exactly one afterwards.
pub proof fn lemma_upsert_namesakes(volumes: Seq<VolumeView>, volume: VolumeView)
    ensures
        namesakes(upsert(volumes, volume), volume.name).len() == (if namesakes(
            volumes,
            volume.name,
        ).len() == 0 {
            1
        } else {
            namesakes(volumes, volume.name).len()
        }),
        namesakes(upsert(volumes, volume), volume.name)[0] == volume,
{
    let at = first_named(volumes, volume.name);
    let same = |v: VolumeView| v.name == volume.name;
    lemma_first_named(volumes, volume.name, at);
    lemma_filter_one(volume, same);
    if at < volumes.len() {
        let before = volumes.take(at);
        let after = volumes.skip(at + 1);
        lemma_filter_one(volumes[at], same);
        lemma_no_namesake(before, volume.name);
        assert(volumes == before + seq![volumes[at]] + after);
        assert(volumes.update(at, volume) == before + seq![volume] + after);
        Seq::filter_distributes_over_add(before + seq![volumes[at]], after, same);
        Seq::filter_distributes_over_add(before, seq![volumes[at]], same);
        Seq::filter_distributes_over_add(before + seq![volume], after, same);
        Seq::filter_distributes_over_add(before, seq![volume], same);
    } else {
        lemma_no_namesake(volumes, volume.name);
        assert(volumes.push(volume) == volumes + seq![volume]);
        Seq::filter_distributes_over_add(volumes, seq![volume], same);
    }
}

/// Putting the same volume in a second time changes nothing.
pub proof fn lemma_upsert_idempotent(volumes: Seq<VolumeView>, volume: VolumeView)
    ensures
        upsert(upsert(volumes, volume), volume) == upsert(volumes, volume),
{
    let at = first_named(volumes, volume.name);
    let once = upsert(volumes, volume);
    lemma_first_named(volumes, volume.name, at);
    lemma_first_named(once, volume.name, at);
    assert(once.update(at, volume) == once);
}

/// Where the list already holds a volume of the name, putting one in
/// replaces the first such volume and nothing else.
pub proof fn lemma_upsert_replaces(volumes: Seq<VolumeView>, volume: VolumeView, at: int)
    requires
        0 <= at < volumes.len(),
        volumes[at].name == volume.name,
        forall|j: int| 0 <= j < at ==> (#[trigger] volumes[j]).name != volume.name,
    ensures
        upsert(volumes, volume) == volumes.update(at, volume),
{
    lemma_first_named(volumes, volume.name, at);
}

/// Finds the first volume called `name`.
pub fn position(volumes: &Vec<Volume>, name: &String) -> (at: usize)
    ensures
        at == first_named(volume_views(volumes@), name@),
{
    let mut at: usize = 0;
    while at < volumes.len()
        invariant
            at <= volumes@.len(),
            forall|j: int| 0 <= j < at ==> (#[trigger] volume_views(volumes@)[j]).name != name@,
        decreases volumes@.len() - at,
    {
        if volumes[at].name == *name {
            proof {
                assert(volume_views(volumes@)[at as int].name == name@);
                lemma_first_named(volume_views(volumes@), name@, at as int);
            }
            return at;
        }
        at += 1;
    }
    proof {
        lemma_first_named(volume_views(volumes@), name@, at as int);
    }
    at
}

/// Puts `volume` into the list: in place of the first volume of its name, or
/// at the end where no volume has that name. Every other volume stays where
/// it is.
pub fn put_volume(volumes: &mut Vec<Volume>, volume: Volume)
    ensures
        volume_views(final(volumes)@) == upsert(volume_views(old(volumes)@), volume@),
{
    let at = position(volumes, &volume.name);
    if at < volumes.len() {
        volumes[at] = volume;
    } else {
        volumes.push(volume);
    }
}

} // verus!
