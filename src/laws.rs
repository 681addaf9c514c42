//! Laws of log replay.

use vstd::prelude::*;

use crate::action::{Action, Remove};
use crate::state::{empty_snapshot, replay, without_path, TableSnapshot};

verus! {

/// The actions of consecutive log entries, joined in order.
pub open spec fn concat_all(chunks: Seq<Seq<Action>>) -> Seq<Action>
    decreases chunks.len(),
{
    if chunks.len() == 0 {
        Seq::empty()
    } else {
        concat_all(chunks.drop_last()) + chunks.last()
    }
}

/// The state after replaying log entries one after the other.
pub open spec fn replay_chunks(s: TableSnapshot, chunks: Seq<Seq<Action>>) -> TableSnapshot
    decreases chunks.len(),
{
    if chunks.len() == 0 {
        s
    } else {
        replay(replay_chunks(s, chunks.drop_last()), chunks.last())
    }
}

/// Replaying `a` then `b` is replaying `a + b`.
pub proof fn lemma_replay_concat(s: TableSnapshot, a: Seq<Action>, b: Seq<Action>)
    ensures
        replay(s, a + b) == replay(replay(s, a), b),
    decreases b.len(),
{
    if b.len() == 0 {
        assert(a + b =~= a);
    } else {
        lemma_replay_concat(s, a, b.drop_last());
        assert((a + b).drop_last() =~= a + b.drop_last());
        assert((a + b).last() == b.last());
    }
}

/// Replaying log entries one by one is replaying all their actions at once.
pub proof fn lemma_replay_chunks(s: TableSnapshot, chunks: Seq<Seq<Action>>)
    ensures
        replay_chunks(s, chunks) == replay(s, concat_all(chunks)),
    decreases chunks.len(),
{
    if chunks.len() > 0 {
        lemma_replay_chunks(s, chunks.drop_last());
        lemma_replay_concat(s, concat_all(chunks.drop_last()), chunks.last());
    }
}

/// Replay is deterministic: the state depends only on the sequence of
/// actions, not on how it is split into log entries.
pub proof fn replay_determinism(s: TableSnapshot, c1: Seq<Seq<Action>>, c2: Seq<Seq<Action>>)
    requires
        concat_all(c1) == concat_all(c2),
    ensures
        replay_chunks(s, c1) == replay_chunks(s, c2),
{
    lemma_replay_chunks(s, c1);
    lemma_replay_chunks(s, c2);
}

/// The state that restoring a checkpoint made of `parts` produces: replay
/// starts from the empty state, whatever the state was before.
pub open spec fn restored(parts: Seq<Seq<Action>>) -> TableSnapshot {
    replay(empty_snapshot(), concat_all(parts))
}

/// A checkpoint at version `k` that condenses the log entries `0..=k`
/// (`logs`) yields, once restored and with no further entry replayed, the
/// state of replaying those entries from the empty state.
pub proof fn checkpoint_idempotence(parts: Seq<Seq<Action>>, logs: Seq<Seq<Action>>)
    requires
        replay(empty_snapshot(), concat_all(parts)) == replay(empty_snapshot(), concat_all(logs)),
    ensures
        replay_chunks(restored(parts), Seq::empty()) == replay_chunks(empty_snapshot(), logs),
{
    lemma_replay_chunks(empty_snapshot(), logs);
}

/// Whether some file of `files` has path `p`.
pub open spec fn has_path(files: Seq<crate::action::Add>, p: Seq<char>) -> bool {
    exists|i: int| 0 <= i < files.len() && (#[trigger] files[i]).path@ == p
}

/// For the last `add` or `remove` of `acts` whose path is `p`: `Some(true)`
/// for an add, `Some(false)` for a remove; `None` when there is none.
pub open spec fn last_touch(acts: Seq<Action>, p: Seq<char>) -> Option<bool>
    decreases acts.len(),
{
    if acts.len() == 0 {
        None
    } else {
        match acts.last() {
            Action::Add(a) if a.path@ == p => Some(true),
            Action::Remove(r) if r.path@ == p => Some(false),
            _ => last_touch(acts.drop_last(), p),
        }
    }
}

/// The remove actions of `acts`, in order.
pub open spec fn removes_of(acts: Seq<Action>) -> Seq<Remove>
    decreases acts.len(),
{
    if acts.len() == 0 {
        Seq::empty()
    } else {
        match acts.last() {
            Action::Remove(r) => removes_of(acts.drop_last()).push(r),
            _ => removes_of(acts.drop_last()),
        }
    }
}

proof fn lemma_without_path(files: Seq<crate::action::Add>, q: Seq<char>, p: Seq<char>)
    ensures
        has_path(without_path(files, q), p) == (p != q && has_path(files, p)),
    decreases files.len(),
{
    if files.len() > 0 {
        let init = files.drop_last();
        lemma_without_path(init, q, p);
        let w = without_path(init, q);
        if has_path(init, p) {
            let i = choose|i: int| 0 <= i < init.len() && (#[trigger] init[i]).path@ == p;
            assert(files[i] == init[i]);
        }
        if has_path(files, p) && !has_path(init, p) {
            let i = choose|i: int| 0 <= i < files.len() && (#[trigger] files[i]).path@ == p;
            if i < init.len() {
                assert(init[i] == files[i]);
            }
        }
        if files.last().path@ != q {
            let w2 = w.push(files.last());
            if has_path(w, p) {
                let i = choose|i: int| 0 <= i < w.len() && (#[trigger] w[i]).path@ == p;
                assert(w2[i] == w[i]);
            }
            if has_path(w2, p) && !has_path(w, p) {
                let i = choose|i: int| 0 <= i < w2.len() && (#[trigger] w2[i]).path@ == p;
                if i < w.len() {
                    assert(w[i] == w2[i]);
                }
            }
            if files.last().path@ == p {
                assert(w2[w.len() as int] == files.last());
                assert(files[files.len() - 1] == files.last());
            }
        }
    }
}

/// After any actions, path `p` is live exactly when the last `add` or
/// `remove` for `p` was an add (or, with none, when it was live before), and
/// the tombstones are the earlier ones followed by every remove issued.
pub proof fn add_remove_law(s: TableSnapshot, acts: Seq<Action>, p: Seq<char>)
    ensures
        has_path(replay(s, acts).files, p) == match last_touch(acts, p) {
            Some(added) => added,
            None => has_path(s.files, p),
        },
        replay(s, acts).tombstones == s.tombstones + removes_of(acts),
    decreases acts.len(),
{
    if acts.len() == 0 {
        assert(s.tombstones + Seq::<Remove>::empty() =~= s.tombstones);
    } else {
        let init = acts.drop_last();
        add_remove_law(s, init, p);
        let before = replay(s, init);
        match acts.last() {
            Action::Add(a) => {
                let f2 = before.files.push(a);
                if has_path(before.files, p) {
                    let i = choose|i: int| 0 <= i < before.files.len() && (#[trigger] before.files[i]).path@ == p;
                    assert(f2[i] == before.files[i]);
                }
                if has_path(f2, p) && !has_path(before.files, p) {
                    let i = choose|i: int| 0 <= i < f2.len() && (#[trigger] f2[i]).path@ == p;
                    if i < before.files.len() {
                        assert(before.files[i] == f2[i]);
                    }
                }
                if a.path@ == p {
                    assert(f2[before.files.len() as int] == a);
                }
            },
            Action::Remove(r) => {
                lemma_without_path(before.files, r.path@, p);
                assert(s.tombstones + removes_of(acts) =~= (s.tombstones + removes_of(init)).push(r));
            },
            _ => {},
        }
    }
}

} // verus!
