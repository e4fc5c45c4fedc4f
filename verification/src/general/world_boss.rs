//! The `world_boss next` command: which boss comes next.
use vstd::prelude::*;
use crate::embed::{Embed, EmbedView};
use crate::smmo::world_boss::WorldBoss;
use crate::time::{ClockError, Timestamp};
use crate::to_embed::ToEmbed;

verus! {

/// `k` is the boss that `world_boss next` picks: none comes before it, and
/// every boss listed after it comes strictly later (so among bosses that
/// come at the same instant, the last listed is picked).
pub open spec fn is_next_index(bosses: Seq<WorldBoss>, k: int) -> bool {
    &&& 0 <= k < bosses.len()
    &&& forall|j: int| 0 <= j < k ==> !(#[trigger] bosses[j]).enable_time.before(bosses[k].enable_time)
    &&& forall|j: int| k < j < bosses.len() ==> bosses[k].enable_time.before((#[trigger] bosses[j]).enable_time)
}

/// The boss that can be attacked next: the one with the earliest time, the
/// last of them on a tie; `None` when there is no boss.
pub fn next_world_boss(bosses: Vec<WorldBoss>) -> (r: Option<WorldBoss>)
    ensures
        r is None <==> bosses.len() == 0,
        r matches Some(b) ==> exists|k: int| is_next_index(bosses@, k) && b == bosses@[k],
{
    if bosses.len() == 0 {
        return None;
    }
    let mut k: usize = 0;
    let mut i: usize = 1;
    while i < bosses.len()
        invariant
            1 <= i <= bosses.len(),
            k < i,
            forall|j: int| 0 <= j < k ==> !(#[trigger] bosses@[j]).enable_time.before(bosses@[k as int].enable_time),
            forall|j: int| k < j < i ==> bosses@[k as int].enable_time.before((#[trigger] bosses@[j]).enable_time),
        decreases bosses.len() - i,
    {
        if !bosses[k].enable_time.is_before(&bosses[i].enable_time) {
            k = i;
        }
        i = i + 1;
    }
    let ghost all = bosses@;
    let mut bosses = bosses;
    let b = bosses.remove(k);
    assert(is_next_index(all, k as int));
    Some(b)
}

/// The boss `world_boss next` picks has the earliest time of all, and it is
/// the only index that meets the pick's condition.
pub proof fn lemma_next_is_earliest_and_unique(bosses: Seq<WorldBoss>, k: int, k2: int)
    requires
        is_next_index(bosses, k),
        is_next_index(bosses, k2),
    ensures
        forall|j: int| 0 <= j < bosses.len() ==> !(#[trigger] bosses[j]).enable_time.before(bosses[k].enable_time),
        k == k2,
{
    if k < k2 {
        assert(bosses[k].enable_time.before(bosses[k2].enable_time));
        assert(!bosses[k].enable_time.before(bosses[k2].enable_time));
    } else if k2 < k {
        assert(bosses[k2].enable_time.before(bosses[k].enable_time));
        assert(!bosses[k2].enable_time.before(bosses[k].enable_time));
    }
}

/// The answer to `world_boss next`, with the clock read as `delta_now` and
/// `check_now` for the boss shown.
pub open spec fn next_embed_view(next: Option<WorldBoss>, delta_now: Timestamp, check_now: Timestamp) -> EmbedView {
    match next {
        Some(b) => b.embed_view(EmbedView::empty(), delta_now, check_now),
        None => EmbedView::empty().with_title("No world bosses available at this time."@),
    }
}

/// The answer to `world_boss next`: the picked boss, or a note that there is
/// none. Fails only where the clock cannot be read for the picked boss.
pub fn next_world_boss_embed(next: Option<WorldBoss>) -> (r: Result<Embed, ClockError>)
    requires
        next matches Some(b) ==> b.showable(),
    ensures
        r matches Ok(e) ==> exists|delta_now: Timestamp, check_now: Timestamp|
            delta_now.wf() && check_now.wf() && e@ == next_embed_view(next, delta_now, check_now),
        r is Err ==> next is Some,
{
    let mut e = Embed::new();
    match &next {
        Some(b) => {
            match b.to_embed(&mut e) {
                Ok(()) => {},
                Err(err) => {
                    return Err(err);
                },
            }
            proof {
                let (d, c) = choose|d: Timestamp, c: Timestamp|
                    d.wf() && c.wf() && e@ == b.embed_view(EmbedView::empty(), d, c);
                assert(e@ == next_embed_view(next, d, c));
            }
        },
        None => {
            e.title("No world bosses available at this time.".to_string());
            let ghost epoch = Timestamp { secs: 0, nanos: 0 };
            assert(e@ == next_embed_view(next, epoch, epoch));
        },
    }
    Ok(e)
}

} // verus!
