//! The force-feedback replication engine: the effect manager that is the
//! single source of truth for uploaded effects, and the per-device state
//! that tracks which effects a physical controller currently holds.
//!
//! The device calls themselves (upload, play, stop, reopen) are I/O and are
//! made by the binary around the library; each call's outcome is handed
//! back in as an [`FfOutcome`], and every decision — what to upload, when to
//! recover, what a recovery must resync — is made and verified here.

use vstd::prelude::*;

verus! {

/// One uploaded force-feedback effect as the manager records it.
pub struct EffectRecord<D> {
    /// Effect id from the virtual device's point of view.
    pub id: i16,
    /// The opaque effect payload.
    pub data: D,
    /// Whether the effect is currently meant to be playing.
    pub playing: bool,
}

/// First record for `id` in a sequence of effect records.
pub open spec fn rec_entry<D>(s: Seq<EffectRecord<D>>, id: i16) -> Option<EffectRecord<D>>
    decreases s.len(),
{
    if s.len() == 0 {
        None
    } else if s[0].id == id {
        Some(s[0])
    } else {
        rec_entry(s.drop_first(), id)
    }
}

/// The ids of a record sequence, in order.
pub open spec fn rec_ids<D>(s: Seq<EffectRecord<D>>) -> Seq<i16> {
    s.map_values(|r: EffectRecord<D>| r.id)
}

/// The ids of the records marked playing, in order.
pub open spec fn playing_ids_of<D>(s: Seq<EffectRecord<D>>) -> Seq<i16>
    decreases s.len(),
{
    if s.len() == 0 {
        Seq::empty()
    } else {
        playing_ids_of(s.drop_last()) + (if s.last().playing {
            seq![s.last().id]
        } else {
            Seq::empty()
        })
    }
}

/// A sequence with its first occurrence of `id` removed.
pub open spec fn remove_first_id(s: Seq<i16>, id: i16) -> Seq<i16>
    decreases s.len(),
{
    if s.len() == 0 {
        s
    } else if s[0] == id {
        s.drop_first()
    } else {
        seq![s[0]] + remove_first_id(s.drop_first(), id)
    }
}

/// The ids of `ids` that are not in `have`: what a device still has to
/// upload to match the manager.
pub open spec fn missing_from(ids: Seq<i16>, have: Seq<i16>) -> Seq<i16>
    decreases ids.len(),
{
    if ids.len() == 0 {
        Seq::empty()
    } else {
        missing_from(ids.drop_last(), have) + (if have.contains(ids.last()) {
            Seq::empty()
        } else {
            seq![ids.last()]
        })
    }
}

/// Centralized record of all uploaded force-feedback effects and their
/// play/stop state, independent of which physical devices currently exist.
pub struct EffectManager<D> {
    records: Vec<EffectRecord<D>>,
}

impl<D> EffectManager<D> {
    /// The records, in upload order.
    pub closed spec fn recs(&self) -> Seq<EffectRecord<D>> {
        self.records@
    }

    /// The uploaded effect ids, in upload order.
    pub open spec fn ids(&self) -> Seq<i16> {
        rec_ids(self.recs())
    }

    /// No effect id is recorded twice.
    pub open spec fn wf(&self) -> bool {
        forall|i: int, j: int|
            0 <= i < j < self.recs().len() ==> (#[trigger] self.recs()[i]).id != (
            #[trigger] self.recs()[j]).id
    }

    pub open spec fn contains_id(&self, id: i16) -> bool {
        rec_entry(self.recs(), id) is Some
    }

    pub open spec fn data_of(&self, id: i16) -> D
        recommends
            self.contains_id(id),
    {
        rec_entry(self.recs(), id).unwrap().data
    }

    /// Whether `id` is recorded as playing; false for an unknown id.
    pub open spec fn playing_of(&self, id: i16) -> bool {
        match rec_entry(self.recs(), id) {
            Some(r) => r.playing,
            None => false,
        }
    }

    /// The playing effect ids, in upload order.
    pub open spec fn playing_ids(&self) -> Seq<i16> {
        playing_ids_of(self.recs())
    }

    /// An empty manager: no effects, nothing playing.
    pub fn new() -> (r: Self)
        ensures
            r.wf(),
            r.recs() == Seq::<EffectRecord<D>>::empty(),
    {
        EffectManager { records: Vec::new() }
    }

    /// Record an effect upload: inserts or overwrites the record, with the
    /// play state reset to stopped.
    pub fn upload(&mut self, id: i16, data: D)
        requires
            old(self).wf(),
        ensures
            final(self).wf(),
            final(self).contains_id(id),
            final(self).data_of(id) == data,
            final(self).playing_of(id) == false,
            forall|x: i16|
                x != id ==> rec_entry(final(self).recs(), x) == rec_entry(old(self).recs(), x),
            final(self).ids() == if old(self).contains_id(id) {
                old(self).ids()
            } else {
                old(self).ids().push(id)
            },
    {
        let e = EffectRecord { id, data, playing: false };
        let n = self.records.len();
        let mut i: usize = 0;
        while i < n
            invariant
                self.recs() == old(self).recs(),
                n == self.recs().len(),
                0 <= i <= n,
                forall|j: int| 0 <= j < i ==> (#[trigger] self.recs()[j]).id != id,
            decreases n - i,
        {
            if self.records[i].id == id {
                let ghost pre = self.recs();
                self.records.set(i, e);
                proof {
                    lemma_rec_entry_at(pre, i as int);
                    assert forall|x: i16| #![trigger rec_entry(self.recs(), x)]
                        rec_entry(self.recs(), x) == (if x == id {
                            Some(EffectRecord { id, data, playing: false })
                        } else {
                            rec_entry(pre, x)
                        }) by {
                        lemma_rec_entry_update(pre, i as int, EffectRecord { id, data, playing: false }, x);
                    }
                    assert forall|j: int| 0 <= j < self.recs().len() implies (
                    #[trigger] self.recs()[j]).id == pre[j].id by {
                        if j != i {
                            assert(self.recs()[j] == pre[j]);
                        }
                    }
                    assert(final(self).ids() =~= old(self).ids());
                }
                return ;
            }
            i = i + 1;
        }
        let ghost pre = self.recs();
        self.records.push(e);
        proof {
            lemma_no_id_means_no_entry(pre, id);
            assert forall|x: i16| #![trigger rec_entry(self.recs(), x)]
                rec_entry(self.recs(), x) == (if x == id {
                    Some(EffectRecord { id, data, playing: false })
                } else {
                    rec_entry(pre, x)
                }) by {
                lemma_rec_entry_push(pre, EffectRecord { id, data, playing: false }, x);
                if x == id {
                    lemma_no_id_means_no_entry(pre, id);
                }
            }
            assert forall|j: int, k: int| 0 <= j < k < self.recs().len() implies (
            #[trigger] self.recs()[j]).id != (#[trigger] self.recs()[k]).id by {
                assert(self.recs()[j] == pre[j]);
                if k < pre.len() {
                    assert(self.recs()[k] == pre[k]);
                } else {
                    assert(self.recs()[k] == e);
                }
            }
            assert(final(self).ids() =~= old(self).ids().push(id));
        }
    }

    /// Remove an effect.  Erasing an unknown id is a no-op.
    pub fn erase(&mut self, id: i16)
        requires
            old(self).wf(),
        ensures
            final(self).wf(),
            !final(self).contains_id(id),
            forall|x: i16|
                x != id ==> rec_entry(final(self).recs(), x) == rec_entry(old(self).recs(), x),
            final(self).ids() == remove_first_id(old(self).ids(), id),
    {
        let n = self.records.len();
        let mut i: usize = 0;
        while i < n
            invariant
                self.recs() == old(self).recs(),
                n == self.recs().len(),
                0 <= i <= n,
                forall|j: int| 0 <= j < i ==> (#[trigger] self.recs()[j]).id != id,
            decreases n - i,
        {
            if self.records[i].id == id {
                let ghost pre = self.recs();
                let _ = self.records.remove(i);
                proof {
                    lemma_rec_entry_remove(pre, i as int, id);
                    lemma_remove_first_ids(pre, i as int);
                }
                return ;
            }
            i = i + 1;
        }
        proof {
            lemma_no_id_means_no_entry(self.recs(), id);
            lemma_remove_first_id_absent(self.ids(), id);
            assert forall|k: int| 0 <= k < self.ids().len() implies #[trigger] self.ids()[k] != id by {
                assert(self.recs()[k].id != id);
            }
        }
    }

    /// Mark an effect as playing or stopped.  Unknown ids are a no-op,
    /// which tolerates races with erase.
    pub fn set_playing(&mut self, id: i16, playing: bool)
        requires
            old(self).wf(),
        ensures
            final(self).wf(),
            final(self).ids() == old(self).ids(),
            final(self).contains_id(id) == old(self).contains_id(id),
            old(self).contains_id(id) ==> final(self).data_of(id) == old(self).data_of(id)
                && final(self).playing_of(id) == playing,
            forall|x: i16|
                x != id ==> rec_entry(final(self).recs(), x) == rec_entry(old(self).recs(), x),
    {
        let n = self.records.len();
        let mut i: usize = 0;
        while i < n
            invariant
                self.recs() == old(self).recs(),
                n == self.recs().len(),
                0 <= i <= n,
                forall|j: int| 0 <= j < i ==> (#[trigger] self.recs()[j]).id != id,
            decreases n - i,
        {
            if self.records[i].id == id {
                let ghost pre = self.recs();
                let data = self.records.remove(i);
                let e = EffectRecord { id, data: data.data, playing };
                self.records.insert(i, e);
                proof {
                    assert(self.recs() =~= pre.update(i as int, e));
                    lemma_rec_entry_at(pre, i as int);
                    assert forall|x: i16| #![trigger rec_entry(self.recs(), x)]
                        rec_entry(self.recs(), x) == (if x == id {
                            Some(e)
                        } else {
                            rec_entry(pre, x)
                        }) by {
                        lemma_rec_entry_update(pre, i as int, e, x);
                    }
                    assert forall|j: int| 0 <= j < self.recs().len() implies (
                    #[trigger] self.recs()[j]).id == pre[j].id by {
                        if j != i {
                            assert(self.recs()[j] == pre[j]);
                        }
                    }
                    assert(final(self).ids() =~= old(self).ids());
                }
                return ;
            }
            i = i + 1;
        }
        proof {
            lemma_no_id_means_no_entry(self.recs(), id);
        }
    }

    /// The uploaded effect ids, for (re)synchronizing physical devices.
    pub fn effect_ids(&self) -> (r: Vec<i16>)
        ensures
            r@ == self.ids(),
    {
        let mut r: Vec<i16> = Vec::new();
        let n = self.records.len();
        let mut i: usize = 0;
        while i < n
            invariant
                n == self.recs().len(),
                0 <= i <= n,
                r@ =~= self.ids().take(i as int),
            decreases n - i,
        {
            r.push(self.records[i].id);
            proof {
                assert(r@ =~= self.ids().take(i + 1));
            }
            i = i + 1;
        }
        proof {
            assert(self.ids().take(n as int) =~= self.ids());
        }
        r
    }

    /// The payload of an uploaded effect, `None` for an unknown id.
    pub fn get_effect(&self, id: i16) -> (r: Option<&D>)
        ensures
            match r {
                Some(d) => self.contains_id(id) && *d == self.data_of(id),
                None => !self.contains_id(id),
            },
    {
        let n = self.records.len();
        let mut i: usize = 0;
        proof {
            assert(self.recs().skip(0) =~= self.recs());
        }
        while i < n
            invariant
                n == self.recs().len(),
                0 <= i <= n,
                rec_entry(self.recs(), id) == rec_entry(self.recs().skip(i as int), id),
            decreases n - i,
        {
            if self.records[i].id == id {
                proof {
                    assert(self.recs().skip(i as int)[0] == self.recs()[i as int]);
                }
                return Some(&self.records[i].data);
            }
            proof {
                assert(self.recs().skip(i as int).drop_first() =~= self.recs().skip(i + 1));
            }
            i = i + 1;
        }
        proof {
            assert(self.recs().skip(n as int).len() == 0);
        }
        None
    }

    /// The ids currently meant to be playing, in upload order.
    pub fn get_playing(&self) -> (r: Vec<i16>)
        ensures
            r@ == self.playing_ids(),
    {
        let mut r: Vec<i16> = Vec::new();
        let n = self.records.len();
        let mut i: usize = 0;
        proof {
            assert(self.recs().take(0) =~= Seq::<EffectRecord<D>>::empty());
        }
        while i < n
            invariant
                n == self.recs().len(),
                0 <= i <= n,
                r@ == playing_ids_of(self.recs().take(i as int)),
            decreases n - i,
        {
            let ghost prefix = r@;
            if self.records[i].playing {
                r.push(self.records[i].id);
            }
            proof {
                assert(self.recs().take(i + 1).drop_last() =~= self.recs().take(i as int));
                assert(self.recs().take(i + 1).last() == self.recs()[i as int]);
                if self.recs()[i as int].playing {
                    assert(r@ =~= prefix + seq![self.recs()[i as int].id]);
                } else {
                    assert(r@ =~= prefix + Seq::<i16>::empty());
                }
            }
            i = i + 1;
        }
        proof {
            assert(self.recs().take(n as int) =~= self.recs());
        }
        r
    }
}

/// The first record for the id at a first-occurrence position is that
/// record itself.
proof fn lemma_rec_entry_at<D>(s: Seq<EffectRecord<D>>, i: int)
    requires
        0 <= i < s.len(),
        forall|j: int| 0 <= j < i ==> (#[trigger] s[j]).id != s[i].id,
    ensures
        rec_entry(s, s[i].id) == Some(s[i]),
    decreases i,
{
    if i > 0 {
        lemma_rec_entry_at(s.drop_first(), i - 1);
        assert(s.drop_first()[i - 1] == s[i]);
    }
}

/// Overwriting the first record for an id rewrites exactly that id's lookup.
proof fn lemma_rec_entry_update<D>(s: Seq<EffectRecord<D>>, i: int, e: EffectRecord<D>, x: i16)
    requires
        0 <= i < s.len(),
        forall|j: int| 0 <= j < i ==> (#[trigger] s[j]).id != e.id,
        s[i].id == e.id,
    ensures
        rec_entry(s.update(i, e), x) == if x == e.id {
            Some(e)
        } else {
            rec_entry(s, x)
        },
    decreases i,
{
    if i == 0 {
        assert(s.update(i, e)[0] == e);
        if x != e.id {
            assert(s.update(i, e).drop_first() =~= s.drop_first());
        }
    } else {
        assert(s.update(i, e)[0] == s[0]);
        assert(s.update(i, e).drop_first() =~= s.drop_first().update(i - 1, e));
        lemma_rec_entry_update(s.drop_first(), i - 1, e, x);
        assert(s[0].id != e.id);
    }
}

/// If an id has no record, the lookup is `None`.
proof fn lemma_no_id_means_no_entry<D>(s: Seq<EffectRecord<D>>, id: i16)
    requires
        forall|j: int| 0 <= j < s.len() ==> (#[trigger] s[j]).id != id,
    ensures
        rec_entry(s, id) is None,
    decreases s.len(),
{
    if s.len() > 0 {
        lemma_no_id_means_no_entry(s.drop_first(), id);
    }
}

/// Appending a record only affects the lookup of an id that had none.
proof fn lemma_rec_entry_push<D>(s: Seq<EffectRecord<D>>, e: EffectRecord<D>, x: i16)
    ensures
        rec_entry(s.push(e), x) == if rec_entry(s, x) is Some {
            rec_entry(s, x)
        } else if x == e.id {
            Some(e)
        } else {
            None::<EffectRecord<D>>
        },
    decreases s.len(),
{
    if s.len() == 0 {
        assert(s.push(e)[0] == e);
        assert(s.push(e).drop_first() =~= Seq::<EffectRecord<D>>::empty());
    } else {
        assert(s.push(e)[0] == s[0]);
        assert(s.push(e).drop_first() =~= s.drop_first().push(e));
        lemma_rec_entry_push(s.drop_first(), e, x);
    }
}

/// Removing the first record for an id: that id's lookup becomes `None`
/// (under uniqueness), every other lookup is unchanged, and uniqueness is
/// preserved.
proof fn lemma_rec_entry_remove<D>(s: Seq<EffectRecord<D>>, i: int, id: i16)
    requires
        0 <= i < s.len(),
        forall|j: int| 0 <= j < i ==> (#[trigger] s[j]).id != id,
        s[i].id == id,
        forall|j: int, k: int| 0 <= j < k < s.len() ==> (#[trigger] s[j]).id != (#[trigger] s[k]).id,
    ensures
        rec_entry(s.remove(i), id) is None,
        forall|x: i16| x != id ==> rec_entry(s.remove(i), x) == rec_entry(s, x),
        forall|j: int, k: int|
            0 <= j < k < s.remove(i).len() ==> (#[trigger] s.remove(i)[j]).id != (
            #[trigger] s.remove(i)[k]).id,
    decreases i,
{
    assert forall|j: int, k: int|
        0 <= j < k < s.remove(i).len() implies (#[trigger] s.remove(i)[j]).id != (
    #[trigger] s.remove(i)[k]).id by {
        let j0 = if j < i {
            j
        } else {
            j + 1
        };
        let k0 = if k < i {
            k
        } else {
            k + 1
        };
        assert(s.remove(i)[j] == s[j0]);
        assert(s.remove(i)[k] == s[k0]);
    }
    assert forall|j: int| 0 <= j < s.remove(i).len() implies (#[trigger] s.remove(i)[j]).id != id by {
        let j0 = if j < i {
            j
        } else {
            j + 1
        };
        assert(s.remove(i)[j] == s[j0]);
        if j0 > i {
            assert(s[i].id != s[j0].id);
        }
    }
    lemma_no_id_means_no_entry(s.remove(i), id);
    assert forall|x: i16| x != id implies rec_entry(s.remove(i), x) == rec_entry(s, x) by {
        lemma_rec_entry_remove_other(s, i, x);
    }
}

/// Removing a record whose id is not `x` leaves `x`'s lookup unchanged.
proof fn lemma_rec_entry_remove_other<D>(s: Seq<EffectRecord<D>>, i: int, x: i16)
    requires
        0 <= i < s.len(),
        s[i].id != x,
    ensures
        rec_entry(s.remove(i), x) == rec_entry(s, x),
    decreases i,
{
    if i == 0 {
        assert(s.remove(0) =~= s.drop_first());
    } else {
        assert(s.remove(i)[0] == s[0]);
        assert(s.remove(i).drop_first() =~= s.drop_first().remove(i - 1));
        if s[0].id != x {
            lemma_rec_entry_remove_other(s.drop_first(), i - 1, x);
        }
    }
}

/// Removing record `i` removes the first occurrence of its id from the id
/// sequence.
proof fn lemma_remove_first_ids<D>(s: Seq<EffectRecord<D>>, i: int)
    requires
        0 <= i < s.len(),
        forall|j: int| 0 <= j < i ==> (#[trigger] s[j]).id != s[i].id,
    ensures
        rec_ids(s.remove(i)) == remove_first_id(rec_ids(s), s[i].id),
    decreases i,
{
    if i == 0 {
        assert(rec_ids(s)[0] == s[0].id);
        assert(remove_first_id(rec_ids(s), s[0].id) =~= rec_ids(s).drop_first());
        assert(rec_ids(s.remove(0)) =~= rec_ids(s).drop_first());
    } else {
        lemma_remove_first_ids(s.drop_first(), i - 1);
        assert(rec_ids(s)[0] == s[0].id);
        assert(s[0].id != s[i].id);
        assert(rec_ids(s).drop_first() =~= rec_ids(s.drop_first()));
        assert(s.drop_first()[i - 1] == s[i]);
        assert(remove_first_id(rec_ids(s), s[i].id) =~= seq![s[0].id] + remove_first_id(
            rec_ids(s.drop_first()),
            s[i].id,
        ));
        assert(rec_ids(s.remove(i)) =~= seq![s[0].id] + rec_ids(s.drop_first().remove(i - 1)));
        assert(s.remove(i).drop_first() =~= s.drop_first().remove(i - 1));
    }
}

/// Removing an id that does not occur changes nothing.
proof fn lemma_remove_first_id_absent(s: Seq<i16>, id: i16)
    requires
        forall|k: int| 0 <= k < s.len() ==> #[trigger] s[k] != id,
    ensures
        remove_first_id(s, id) == s,
    decreases s.len(),
{
    if s.len() > 0 {
        lemma_remove_first_id_absent(s.drop_first(), id);
        assert(remove_first_id(s, id) =~= seq![s[0]] + s.drop_first());
        assert(seq![s[0]] + s.drop_first() =~= s);
    }
}

/// Outcome of one force-feedback device call, as the caller saw it:
/// success, the disconnect signature (device gone), or any other failure.
#[derive(Clone, Copy, Debug, PartialEq, Eq, Structural)]
pub enum FfOutcome {
    Success,
    Disconnected,
    Failed,
}

/// What the engine decides after a playback call on one device.
#[derive(Clone, Copy, Debug, PartialEq, Eq, Structural)]
pub enum ControlStatus {
    Done,
    NeedsRecovery,
    Failed,
}

/// Decision after a playback call: a missing handle is a no-op success, the
/// disconnect signature triggers recovery, any other failure is contained
/// and logged by the caller.
pub open spec fn spec_control_status(outcome: Option<FfOutcome>) -> ControlStatus {
    match outcome {
        None => ControlStatus::Done,
        Some(FfOutcome::Success) => ControlStatus::Done,
        Some(FfOutcome::Disconnected) => ControlStatus::NeedsRecovery,
        Some(FfOutcome::Failed) => ControlStatus::Failed,
    }
}

/// One physical force-feedback device as the engine tracks it: the path it
/// can be reopened by after a disconnect, and the virtual effect ids it
/// currently holds a physical handle for.
pub struct PhysicalFFDev {
    path: String,
    handles: Vec<i16>,
}

impl PhysicalFFDev {
    /// The virtual effect ids with a live physical handle, oldest first.
    pub closed spec fn handle_ids(&self) -> Seq<i16> {
        self.handles@
    }

    /// The filesystem path of the device node.
    pub closed spec fn spec_path(&self) -> Seq<char> {
        self.path@
    }

    /// Filesystem path of the device node, used to reopen it after a
    /// disconnect.
    pub fn path(&self) -> (r: &str)
        ensures
            r@ == self.spec_path(),
    {
        self.path.as_str()
    }

    /// No id is tracked twice.
    pub open spec fn wf(&self) -> bool {
        forall|i: int, j: int|
            0 <= i < j < self.handle_ids().len() ==> self.handle_ids()[i] != self.handle_ids()[j]
    }

    pub open spec fn spec_has_handle(&self, id: i16) -> bool {
        self.handle_ids().contains(id)
    }

    /// A freshly targeted device: no effects uploaded yet.
    pub fn new(path: String) -> (r: Self)
        ensures
            r.wf(),
            r.handle_ids() == Seq::<i16>::empty(),
            r.spec_path() == path@,
    {
        PhysicalFFDev { path, handles: Vec::new() }
    }

    /// Whether this device holds a physical handle for the virtual id.
    pub fn has_handle(&self, virt_id: i16) -> (r: bool)
        ensures
            r == self.spec_has_handle(virt_id),
    {
        let n = self.handles.len();
        let mut i: usize = 0;
        while i < n
            invariant
                n == self.handle_ids().len(),
                0 <= i <= n,
                forall|j: int| 0 <= j < i ==> self.handle_ids()[j] != virt_id,
            decreases n - i,
        {
            if self.handles[i] == virt_id {
                return true;
            }
            i = i + 1;
        }
        false
    }

    /// Record the outcome of an upload call for `virt_id`: on success the
    /// device holds a handle for it, on failure nothing changes (the error
    /// is surfaced per id and does not abort a batch).
    pub fn upload_effect(&mut self, virt_id: i16, outcome: FfOutcome)
        requires
            old(self).wf(),
        ensures
            final(self).wf(),
            final(self).spec_path() == old(self).spec_path(),
            outcome == FfOutcome::Success ==> final(self).handle_ids() == (if old(
                self,
            ).spec_has_handle(virt_id) {
                old(self).handle_ids()
            } else {
                old(self).handle_ids().push(virt_id)
            }),
            outcome != FfOutcome::Success ==> final(self).handle_ids() == old(self).handle_ids(),
            final(self).spec_has_handle(virt_id) == (outcome == FfOutcome::Success || old(
                self,
            ).spec_has_handle(virt_id)),
            forall|x: i16|
                x != virt_id ==> final(self).spec_has_handle(x) == old(self).spec_has_handle(x),
    {
        if matches!(outcome, FfOutcome::Success) {
            if !self.has_handle(virt_id) {
                let ghost pre = self.handle_ids();
                self.handles.push(virt_id);
                proof {
                    assert forall|x: i16| x != virt_id implies final(self).spec_has_handle(x)
                        == old(self).spec_has_handle(x) by {
                        if pre.contains(x) {
                            let j = choose|j: int| 0 <= j < pre.len() && pre[j] == x;
                            assert(self.handle_ids()[j] == x);
                        }
                        if self.handle_ids().contains(x) {
                            let j = choose|j: int|
                                0 <= j < self.handle_ids().len() && self.handle_ids()[j] == x;
                            assert(pre[j] == x);
                        }
                    }
                    assert(self.handle_ids().contains(virt_id)) by {
                        assert(self.handle_ids()[pre.len() as int] == virt_id);
                    }
                }
            }
        }
    }

    /// Remove the handle for `virt_id` if present; the caller stops the
    /// physical effect exactly when one was removed.  An absent id is a
    /// no-op success.
    pub fn erase_effect(&mut self, virt_id: i16) -> (had: bool)
        requires
            old(self).wf(),
        ensures
            final(self).wf(),
            final(self).spec_path() == old(self).spec_path(),
            had == old(self).spec_has_handle(virt_id),
            final(self).handle_ids() == remove_first_id(old(self).handle_ids(), virt_id),
            !final(self).spec_has_handle(virt_id),
            forall|x: i16|
                x != virt_id ==> final(self).spec_has_handle(x) == old(self).spec_has_handle(x),
    {
        let n = self.handles.len();
        let mut i: usize = 0;
        while i < n
            invariant
                self.handle_ids() == old(self).handle_ids(),
                self.spec_path() == old(self).spec_path(),
                n == self.handle_ids().len(),
                0 <= i <= n,
                forall|j: int| 0 <= j < i ==> self.handle_ids()[j] != virt_id,
            decreases n - i,
        {
            if self.handles[i] == virt_id {
                let ghost pre = self.handle_ids();
                let _ = self.handles.remove(i);
                proof {
                    assert(pre[i as int] == virt_id);
                    assert(pre.contains(virt_id));
                    lemma_remove_id_set(pre, i as int);
                }
                return true;
            }
            i = i + 1;
        }
        proof {
            assert forall|k: int| 0 <= k < self.handle_ids().len() implies self.handle_ids()[k]
                != virt_id by {}
            assert(!self.spec_has_handle(virt_id));
            lemma_remove_first_id_absent(self.handle_ids(), virt_id);
        }
        false
    }

    /// Decide what follows from a playback call's outcome.  The caller
    /// makes the play or stop call exactly when this device holds a handle
    /// for the id, and passes `None` otherwise: an effect never uploaded to
    /// this device is a valid no-op.
    pub fn control_effect(&self, virt_id: i16, outcome: Option<FfOutcome>) -> (r: ControlStatus)
        requires
            outcome is Some <==> self.spec_has_handle(virt_id),
        ensures
            r == spec_control_status(outcome),
    {
        match outcome {
            None => ControlStatus::Done,
            Some(FfOutcome::Success) => ControlStatus::Done,
            Some(FfOutcome::Disconnected) => ControlStatus::NeedsRecovery,
            Some(FfOutcome::Failed) => ControlStatus::Failed,
        }
    }

    /// Discard every handle after the device was reopened: handles of the
    /// old file descriptor are invalid on the fresh one, and the following
    /// resync re-uploads from the manager.
    pub fn reset_after_reopen(&mut self)
        ensures
            final(self).wf(),
            final(self).spec_path() == old(self).spec_path(),
            final(self).handle_ids() == Seq::<i16>::empty(),
    {
        self.handles.clear();
    }

    /// The manager effects this device still lacks, in the manager's
    /// upload order: what a (re)sync must upload.
    pub fn upload_plan<D>(&self, mgr: &EffectManager<D>) -> (r: Vec<i16>)
        ensures
            r@ == missing_from(mgr.ids(), self.handle_ids()),
    {
        let ids = mgr.effect_ids();
        let mut r: Vec<i16> = Vec::new();
        let n = ids.len();
        let mut i: usize = 0;
        proof {
            assert(ids@.take(0) =~= Seq::<i16>::empty());
        }
        while i < n
            invariant
                n == ids@.len(),
                ids@ == mgr.ids(),
                0 <= i <= n,
                r@ == missing_from(ids@.take(i as int), self.handle_ids()),
            decreases n - i,
        {
            let ghost prefix = r@;
            let candidate = ids[i];
            if !self.has_handle(candidate) {
                r.push(candidate);
            }
            proof {
                assert(ids@.take(i + 1).drop_last() =~= ids@.take(i as int));
                assert(ids@.take(i + 1).last() == ids@[i as int]);
                if self.handle_ids().contains(ids@[i as int]) {
                    assert(r@ =~= prefix + Seq::<i16>::empty());
                } else {
                    assert(r@ =~= prefix + seq![ids@[i as int]]);
                }
            }
            i = i + 1;
        }
        proof {
            assert(ids@.take(n as int) =~= ids@);
        }
        r
    }
}

/// Removing the first occurrence of the value at a first-occurrence
/// position: the effect on the sequence, membership, and uniqueness.
proof fn lemma_remove_id_set(s: Seq<i16>, i: int)
    requires
        0 <= i < s.len(),
        forall|j: int| 0 <= j < i ==> s[j] != s[i],
        forall|j: int, k: int| 0 <= j < k < s.len() ==> s[j] != s[k],
    ensures
        remove_first_id(s, s[i]) == s.remove(i),
        forall|x: i16| x != s[i] ==> s.remove(i).contains(x) == s.contains(x),
        !s.remove(i).contains(s[i]),
        forall|j: int, k: int| 0 <= j < k < s.remove(i).len() ==> s.remove(i)[j] != s.remove(i)[k],
    decreases i,
{
    lemma_remove_first_id_at(s, i);
    assert forall|j: int, k: int|
        0 <= j < k < s.remove(i).len() implies s.remove(i)[j] != s.remove(i)[k] by {
        let j0 = if j < i {
            j
        } else {
            j + 1
        };
        let k0 = if k < i {
            k
        } else {
            k + 1
        };
        assert(s.remove(i)[j] == s[j0]);
        assert(s.remove(i)[k] == s[k0]);
    }
    assert forall|k: int| 0 <= k < s.remove(i).len() implies s.remove(i)[k] != s[i] by {
        let k0 = if k < i {
            k
        } else {
            k + 1
        };
        assert(s.remove(i)[k] == s[k0]);
        if k0 > i {
            assert(s[i] != s[k0]);
        }
    }
    assert(!s.remove(i).contains(s[i]));
    assert forall|x: i16| x != s[i] implies s.remove(i).contains(x) == s.contains(x) by {
        if s.contains(x) {
            let j = choose|j: int| 0 <= j < s.len() && s[j] == x;
            if j < i {
                assert(s.remove(i)[j] == x);
            } else {
                assert(s.remove(i)[j - 1] == x);
            }
            assert(s.remove(i).contains(x));
        }
        if s.remove(i).contains(x) {
            let k = choose|k: int| 0 <= k < s.remove(i).len() && s.remove(i)[k] == x;
            let k0 = if k < i {
                k
            } else {
                k + 1
            };
            assert(s.remove(i)[k] == s[k0]);
            assert(s.contains(x));
        }
    }
}

/// `remove_first_id` at a first-occurrence position removes exactly that
/// position.
proof fn lemma_remove_first_id_at(s: Seq<i16>, i: int)
    requires
        0 <= i < s.len(),
        forall|j: int| 0 <= j < i ==> s[j] != s[i],
    ensures
        remove_first_id(s, s[i]) == s.remove(i),
    decreases i,
{
    if i == 0 {
        assert(remove_first_id(s, s[0]) == s.drop_first());
        assert(s.remove(0) =~= s.drop_first());
    } else {
        lemma_remove_first_id_at(s.drop_first(), i - 1);
        assert(s.drop_first()[i - 1] == s[i]);
        assert(s[0] != s[i]);
        assert(remove_first_id(s, s[i]) == seq![s[0]] + remove_first_id(s.drop_first(), s[i]));
        assert(s.remove(i) =~= seq![s[0]] + s.drop_first().remove(i - 1));
    }
}

/// The playing ids are drawn from the uploaded ids: `playing()` only
/// yields ids currently present among the effects.
pub proof fn lemma_playing_subset_of_effects<D>(m: &EffectManager<D>)
    ensures
        forall|k: int|
            0 <= k < m.playing_ids().len() ==> m.ids().contains(#[trigger] m.playing_ids()[k]),
{
    lemma_playing_ids_elements(m.recs());
}

proof fn lemma_playing_ids_elements<D>(s: Seq<EffectRecord<D>>)
    ensures
        forall|k: int|
            0 <= k < playing_ids_of(s).len() ==> rec_ids(s).contains(
                #[trigger] playing_ids_of(s)[k],
            ),
    decreases s.len(),
{
    if s.len() > 0 {
        lemma_playing_ids_elements(s.drop_last());
        assert(rec_ids(s.drop_last()) =~= rec_ids(s).drop_last());
        assert forall|k: int|
            0 <= k < playing_ids_of(s).len() implies rec_ids(s).contains(
            #[trigger] playing_ids_of(s)[k]) by {
            let p = playing_ids_of(s.drop_last());
            if k < p.len() {
                assert(playing_ids_of(s)[k] == p[k]);
                let j = choose|j: int|
                    0 <= j < rec_ids(s.drop_last()).len() && rec_ids(s.drop_last())[j] == p[k];
                assert(rec_ids(s)[j] == p[k]);
            } else {
                assert(s.last().playing);
                assert(playing_ids_of(s)[k] == s.last().id);
                assert(rec_ids(s)[s.len() - 1] == s.last().id);
            }
        }
    }
}

/// After a recovery reset the upload plan is the manager's entire effect
/// list: a device with no handles re-uploads everything.
pub proof fn lemma_plan_after_reset(ids: Seq<i16>, have: Seq<i16>)
    requires
        have.len() == 0,
    ensures
        missing_from(ids, have) == ids,
    decreases ids.len(),
{
    if ids.len() > 0 {
        lemma_plan_after_reset(ids.drop_last(), have);
        assert(!have.contains(ids.last()));
        assert(missing_from(ids, have) =~= ids.drop_last() + seq![ids.last()]);
        assert(ids.drop_last() + seq![ids.last()] =~= ids);
    }
}

/// The upload plan holds exactly the ids the device lacks: every planned
/// id is an uploaded id without a handle, and every uploaded id without a
/// handle is planned.
pub proof fn lemma_plan_exact(ids: Seq<i16>, have: Seq<i16>)
    ensures
        forall|k: int|
            0 <= k < missing_from(ids, have).len() ==> ids.contains(
                #[trigger] missing_from(ids, have)[k],
            ) && !have.contains(missing_from(ids, have)[k]),
        forall|x: i16| ids.contains(x) && !have.contains(x) ==> missing_from(ids, have).contains(x),
    decreases ids.len(),
{
    if ids.len() > 0 {
        lemma_plan_exact(ids.drop_last(), have);
        let m = missing_from(ids, have);
        let m0 = missing_from(ids.drop_last(), have);
        assert forall|k: int|
            0 <= k < m.len() implies ids.contains(#[trigger] m[k]) && !have.contains(m[k]) by {
            if k < m0.len() {
                assert(m[k] == m0[k]);
                let j = choose|j: int| 0 <= j < ids.drop_last().len() && ids.drop_last()[j] == m0[k];
                assert(ids[j] == m0[k]);
            } else {
                assert(m[k] == ids.last());
                assert(ids[ids.len() - 1] == ids.last());
            }
        }
        assert forall|x: i16| ids.contains(x) && !have.contains(x) implies m.contains(x) by {
            let j = choose|j: int| 0 <= j < ids.len() && ids[j] == x;
            if j < ids.len() - 1 {
                assert(ids.drop_last()[j] == x);
                assert(ids.drop_last().contains(x));
                assert(m0.contains(x));
                let k = choose|k: int| 0 <= k < m0.len() && m0[k] == x;
                assert(m[k] == x);
            } else {
                assert(x == ids.last());
                assert(m[m.len() - 1] == x);
            }
        }
    }
}


} // verus!
