//! Votes, the tally they add up to, and the facts that keep the two in step.

use vstd::prelude::*;

verus! {

/// A voter's recorded vote: the index of the choice and the power behind it.
#[derive(Clone, Copy, Debug, PartialEq, Eq, Structural)]
pub struct Vote {
    pub choice: u8,
    pub voting_power: u128,
}

/// The sum of a sequence of tally slots.
pub open spec fn seq_sum(s: Seq<u128>) -> int
    decreases s.len(),
{
    if s.len() == 0 {
        0
    } else {
        seq_sum(s.drop_last()) + s.last()
    }
}

/// The largest slot of a tally (zero for an empty one).
pub open spec fn seq_max(s: Seq<u128>) -> int
    decreases s.len(),
{
    if s.len() == 0 {
        0
    } else if seq_max(s.drop_last()) >= s.last() {
        seq_max(s.drop_last())
    } else {
        s.last() as int
    }
}

/// The power of the votes for choice `c`.
pub open spec fn slot_power(votes: Seq<Vote>, c: int) -> int
    decreases votes.len(),
{
    if votes.len() == 0 {
        0
    } else {
        slot_power(votes.drop_last(), c) + if votes.last().choice as int == c {
            votes.last().voting_power as int
        } else {
            0
        }
    }
}

/// The power of all votes.
pub open spec fn total_power(votes: Seq<Vote>) -> int
    decreases votes.len(),
{
    if votes.len() == 0 {
        0
    } else {
        total_power(votes.drop_last()) + votes.last().voting_power
    }
}

/// The power of the votes for the choices below `k`.
pub open spec fn slots_below(votes: Seq<Vote>, k: int) -> int
    decreases k,
{
    if k <= 0 {
        0
    } else {
        slots_below(votes, k - 1) + slot_power(votes, k - 1)
    }
}

/// No two names in `s` are the same text.
pub open spec fn distinct_names(s: Seq<String>) -> bool {
    forall|i: int, j: int| 0 <= i < j < s.len() ==> s[i]@ != s[j]@
}

/// The votes keyed by voter, from the voters and their votes in parallel.
pub open spec fn votes_map(voters: Seq<String>, votes: Seq<Vote>) -> Map<Seq<char>, Vote>
    decreases voters.len(),
{
    if voters.len() == 0 {
        Map::empty()
    } else {
        votes_map(voters.drop_last(), votes.drop_last()).insert(voters.last()@, votes.last())
    }
}

/// `t` with the power of `prev`, if any, taken out of its slot.
pub open spec fn retract(t: Seq<u128>, prev: Option<Vote>) -> Seq<u128> {
    match prev {
        Some(p) => t.update(p.choice as int, (t[p.choice as int] - p.voting_power) as u128),
        None => t,
    }
}

/// `t` with the power of `v` added to its slot.
pub open spec fn apply(t: Seq<u128>, v: Vote) -> Seq<u128> {
    t.update(v.choice as int, (t[v.choice as int] + v.voting_power) as u128)
}

pub proof fn lemma_slot_power_nonneg(votes: Seq<Vote>, c: int)
    ensures
        slot_power(votes, c) >= 0,
    decreases votes.len(),
{
    if votes.len() > 0 {
        lemma_slot_power_nonneg(votes.drop_last(), c);
    }
}

/// A vote's power is part of its slot.
pub proof fn lemma_slot_power_covers(votes: Seq<Vote>, i: int)
    requires
        0 <= i < votes.len(),
    ensures
        slot_power(votes, votes[i].choice as int) >= votes[i].voting_power,
    decreases votes.len(),
{
    let c = votes[i].choice as int;
    if i == votes.len() - 1 {
        lemma_slot_power_nonneg(votes.drop_last(), c);
    } else {
        lemma_slot_power_covers(votes.drop_last(), i);
    }
}

/// Replacing one vote moves its power between slots.
pub proof fn lemma_slot_power_update(votes: Seq<Vote>, i: int, v: Vote, c: int)
    requires
        0 <= i < votes.len(),
    ensures
        slot_power(votes.update(i, v), c) == slot_power(votes, c) - (if votes[i].choice as int
            == c {
            votes[i].voting_power as int
        } else {
            0
        }) + (if v.choice as int == c {
            v.voting_power as int
        } else {
            0
        }),
    decreases votes.len(),
{
    let u = votes.update(i, v);
    if i == votes.len() - 1 {
        assert(u.drop_last() =~= votes.drop_last());
    } else {
        assert(u.drop_last() =~= votes.drop_last().update(i, v));
        lemma_slot_power_update(votes.drop_last(), i, v, c);
    }
}

/// Adding a vote adds its power to its slot.
pub proof fn lemma_slot_power_push(votes: Seq<Vote>, v: Vote, c: int)
    ensures
        slot_power(votes.push(v), c) == slot_power(votes, c) + (if v.choice as int == c {
            v.voting_power as int
        } else {
            0
        }),
{
    assert(votes.push(v).drop_last() =~= votes);
}

proof fn lemma_slots_below_step(votes: Seq<Vote>, k: int)
    requires
        votes.len() > 0,
        k >= 0,
    ensures
        slots_below(votes, k) == slots_below(votes.drop_last(), k) + (if (votes.last().choice
            as int) < k {
            votes.last().voting_power as int
        } else {
            0
        }),
    decreases k,
{
    if k > 0 {
        lemma_slots_below_step(votes, k - 1);
    }
}

proof fn lemma_slots_below_empty(votes: Seq<Vote>, k: int)
    requires
        votes.len() == 0,
    ensures
        slots_below(votes, k) == 0,
    decreases k,
{
    if k > 0 {
        lemma_slots_below_empty(votes, k - 1);
    }
}

/// When every vote names a choice below `n`, the slots below `n` hold all the power.
pub proof fn lemma_slots_below_total(votes: Seq<Vote>, n: int)
    requires
        n >= 0,
        forall|i: int| 0 <= i < votes.len() ==> (#[trigger] votes[i].choice as int) < n,
    ensures
        slots_below(votes, n) == total_power(votes),
    decreases votes.len(),
{
    if votes.len() > 0 {
        let rest = votes.drop_last();
        assert forall|i: int| 0 <= i < rest.len() implies (#[trigger] rest[i].choice as int) < n by {
            assert(rest[i] == votes[i]);
        }
        lemma_slots_below_total(rest, n);
        lemma_slots_below_step(votes, n);
        assert(votes[votes.len() - 1].choice < n);
    } else {
        lemma_slots_below_empty(votes, n);
    }
}

/// A tally whose slots are the slot powers of the votes sums to their total power.
pub proof fn lemma_tally_sum(tally: Seq<u128>, votes: Seq<Vote>, k: int)
    requires
        0 <= k <= tally.len(),
        forall|c: int| 0 <= c < tally.len() ==> #[trigger] tally[c] as int == slot_power(votes, c),
    ensures
        seq_sum(tally.subrange(0, k)) == slots_below(votes, k),
    decreases k,
{
    if k > 0 {
        lemma_tally_sum(tally, votes, k - 1);
        assert(tally.subrange(0, k).drop_last() =~= tally.subrange(0, k - 1));
        assert(tally[k - 1] as int == slot_power(votes, k - 1));
    }
}

/// The sum of a prefix is at most the sum of the whole.
pub proof fn lemma_seq_sum_prefix(s: Seq<u128>, k: int)
    requires
        0 <= k <= s.len(),
    ensures
        seq_sum(s.subrange(0, k)) <= seq_sum(s),
    decreases s.len(),
{
    if k < s.len() {
        assert(s.drop_last() =~= s.subrange(0, s.len() - 1));
        lemma_seq_sum_prefix(s.drop_last(), k);
        assert(s.drop_last().subrange(0, k) =~= s.subrange(0, k));
    } else {
        assert(s.subrange(0, k) =~= s);
    }
}

/// A voter that is listed is found in the map, with its vote.
pub proof fn lemma_votes_map_lookup(voters: Seq<String>, votes: Seq<Vote>, i: int)
    requires
        voters.len() == votes.len(),
        distinct_names(voters),
        0 <= i < voters.len(),
    ensures
        votes_map(voters, votes).contains_key(voters[i]@),
        votes_map(voters, votes)[voters[i]@] == votes[i],
    decreases voters.len(),
{
    if i < voters.len() - 1 {
        lemma_votes_map_lookup(voters.drop_last(), votes.drop_last(), i);
        assert(voters[i]@ != voters[voters.len() - 1]@);
    }
}

/// A voter that is not listed is not in the map.
pub proof fn lemma_votes_map_absent(voters: Seq<String>, votes: Seq<Vote>, k: Seq<char>)
    requires
        forall|i: int| 0 <= i < voters.len() ==> (#[trigger] voters[i])@ != k,
    ensures
        !votes_map(voters, votes).contains_key(k),
    decreases voters.len(),
{
    if voters.len() > 0 {
        let rest = voters.drop_last();
        assert forall|i: int| 0 <= i < rest.len() implies (#[trigger] rest[i])@ != k by {
            assert(rest[i] == voters[i]);
        }
        lemma_votes_map_absent(rest, votes.drop_last(), k);
        assert(voters[voters.len() - 1]@ != k);
    }
}

/// Replacing a listed voter's vote replaces it in the map.
pub proof fn lemma_votes_map_update(voters: Seq<String>, votes: Seq<Vote>, i: int, v: Vote)
    requires
        voters.len() == votes.len(),
        distinct_names(voters),
        0 <= i < voters.len(),
    ensures
        votes_map(voters, votes.update(i, v)) == votes_map(voters, votes).insert(voters[i]@, v),
    decreases voters.len(),
{
    let u = votes.update(i, v);
    let last = voters.len() - 1;
    if i == last {
        assert(u.drop_last() =~= votes.drop_last());
        assert(votes_map(voters, u) =~= votes_map(voters, votes).insert(voters[i]@, v));
    } else {
        assert(u.drop_last() =~= votes.drop_last().update(i, v));
        lemma_votes_map_update(voters.drop_last(), votes.drop_last(), i, v);
        assert(voters[i]@ != voters[last]@);
        assert(votes_map(voters, u) =~= votes_map(voters, votes).insert(voters[i]@, v));
    }
}

/// Adding a voter adds it to the map.
pub proof fn lemma_votes_map_push(voters: Seq<String>, votes: Seq<Vote>, s: String, v: Vote)
    ensures
        votes_map(voters.push(s), votes.push(v)) == votes_map(voters, votes).insert(s@, v),
{
    assert(voters.push(s).drop_last() =~= voters);
    assert(votes.push(v).drop_last() =~= votes);
}

} // verus!
