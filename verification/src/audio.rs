//! Dispatch of queued audio: which queued sounds play this frame and which
//! wait for their source to finish loading. The decoding and the device sink
//! live outside; the library decides the queue's fate.

use vstd::prelude::*;
use std::collections::VecDeque;

verus! {

/// One queued play request: which source to play, which sink to park it in,
/// and how. The scalar type carries speed and volume; the library routes
/// them without reading them.
#[derive(Clone, Copy, Debug)]
pub struct AudioCommand<V> {
    pub source_handle: u64,
    pub sink_handle: u64,
    pub repeat: bool,
    pub spatial: bool,
    pub speed: V,
    pub volume: V,
}

/// The commands of `q` whose sources are loaded, in queue order.
pub open spec fn spec_playable<V>(q: Seq<AudioCommand<V>>, loaded: Seq<u64>) -> Seq<AudioCommand<V>>
    decreases q.len(),
{
    if q.len() == 0 {
        Seq::empty()
    } else {
        let rest = spec_playable(q.drop_last(), loaded);
        if loaded.contains(q.last().source_handle) {
            rest.push(q.last())
        } else {
            rest
        }
    }
}

/// The commands of `q` whose sources are not loaded yet, in queue order.
pub open spec fn spec_waiting<V>(q: Seq<AudioCommand<V>>, loaded: Seq<u64>) -> Seq<AudioCommand<V>>
    decreases q.len(),
{
    if q.len() == 0 {
        Seq::empty()
    } else {
        let rest = spec_waiting(q.drop_last(), loaded);
        if loaded.contains(q.last().source_handle) {
            rest
        } else {
            rest.push(q.last())
        }
    }
}

/// Playing and waiting split the queue: every queued command either plays
/// or waits, so the two parts together are exactly as long as the queue.
pub proof fn lemma_queue_partition<V>(q: Seq<AudioCommand<V>>, loaded: Seq<u64>)
    ensures
        spec_playable(q, loaded).len() + spec_waiting(q, loaded).len() == q.len(),
    decreases q.len(),
{
    if q.len() > 0 {
        lemma_queue_partition(q.drop_last(), loaded);
    }
}

/// Whether `loaded` holds `id`.
fn contains_id(loaded: &Vec<u64>, id: u64) -> (r: bool)
    ensures
        r == loaded@.contains(id),
{
    let mut found: bool = false;
    let mut i: usize = 0;
    while i < loaded.len()
        invariant
            i <= loaded@.len(),
            found == loaded@.subrange(0, i as int).contains(id),
        decreases loaded@.len() - i,
    {
        if loaded[i] == id {
            found = true;
        }
        proof {
            assert(loaded@.subrange(0, i + 1 as int).drop_last() =~= loaded@.subrange(0, i as int));
            assert(loaded@.subrange(0, i + 1 as int).last() == loaded@[i as int]);
            let pre = loaded@.subrange(0, i as int);
            let post = loaded@.subrange(0, i + 1 as int);
            assert forall|m: u64| post.contains(m) implies pre.contains(m) || m == loaded@[i as int] by {
                let k = choose|k: int| 0 <= k < post.len() && post[k] == m;
                if k < i as int {
                    assert(pre[k] == m);
                }
            }
        }
        i += 1;
    }
    proof {
        assert(loaded@.subrange(0, loaded@.len() as int) =~= loaded@);
    }
    found
}

/// Plays what the queue holds for loaded sources: walks the queue once,
/// takes every command whose source is loaded out for playing, and requeues
/// the rest in order, for the next frame to try again.
pub fn try_play_queued<V: Copy>(
    queue: &mut VecDeque<AudioCommand<V>>,
    loaded: &Vec<u64>,
) -> (played: Vec<AudioCommand<V>>)
    ensures
        played@ == spec_playable(old(queue)@, loaded@),
        final(queue)@ == spec_waiting(old(queue)@, loaded@),
{
    let ghost orig = queue@;
    let len = queue.len();
    let mut played: Vec<AudioCommand<V>> = Vec::new();
    let mut i: usize = 0;
    proof {
        assert(queue@ =~= orig.subrange(0, orig.len() as int) + spec_waiting(orig.subrange(0, 0), loaded@));
    }
    while i < len
        invariant
            i <= len,
            len == orig.len(),
            queue@ =~= orig.subrange(i as int, len as int) + spec_waiting(orig.subrange(0, i as int), loaded@),
            played@ =~= spec_playable(orig.subrange(0, i as int), loaded@),
        decreases len - i,
    {
        proof {
            assert(queue@.len() > 0);
        }
        let config = queue.pop_front().unwrap();
        proof {
            assert(config == orig[i as int]);
        }
        let ghost pre = orig.subrange(0, i as int);
        let ghost post = orig.subrange(0, i + 1 as int);
        proof {
            assert(post.drop_last() =~= pre);
            assert(post.last() == orig[i as int]);
        }
        if contains_id(loaded, config.source_handle) {
            played.push(config);
        } else {
            queue.push_back(config);
        }
        proof {
            assert(queue@ =~= orig.subrange(i + 1 as int, len as int) + spec_waiting(post, loaded@));
            assert(played@ =~= spec_playable(post, loaded@));
        }
        i += 1;
    }
    proof {
        assert(orig.subrange(0, orig.len() as int) =~= orig);
        assert(orig.subrange(len as int, len as int) =~= Seq::<AudioCommand<V>>::empty());
        assert(queue@ =~= spec_waiting(orig, loaded@));
    }
    played
}

} // verus!
