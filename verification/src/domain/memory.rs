//! Recalled memories and the choice of which search results to keep.
use crate::text::{join_seq};
use vstd::prelude::*;
use vstd::string::*;

verus! {

/// A memory recalled for a prompt.
#[derive(Clone, Debug)]
pub struct Memory {
    pub content: String,
}

/// A memory found by a similarity search. `distance_tier` ranks its distance
/// against the thresholds 0.30, 0.38 and 0.45: it is the index of the first
/// threshold that the distance does not exceed, or 3 where it exceeds all.
#[derive(Clone, Debug)]
pub struct MemorySearchResult {
    pub content: String,
    pub distance_tier: u8,
}

/// The contents of the memories.
pub open spec fn memory_contents(v: Seq<Memory>) -> Seq<Seq<char>> {
    v.map_values(|m: Memory| m.content@)
}

/// The contents of the results within the `k`-th threshold, in order.
pub open spec fn contents_within(rs: Seq<MemorySearchResult>, k: nat) -> Seq<Seq<char>>
    decreases rs.len(),
{
    if rs.len() == 0 {
        Seq::empty()
    } else {
        let rest = contents_within(rs.drop_last(), k);
        if rs.last().distance_tier <= k {
            rest.push(rs.last().content@)
        } else {
            rest
        }
    }
}

/// The memories kept from a search: those within the tightest threshold that
/// keeps any, or none where no result is within the loosest one.
pub open spec fn kept_memory_contents(rs: Seq<MemorySearchResult>) -> Seq<Seq<char>> {
    if contents_within(rs, 0).len() > 0 {
        contents_within(rs, 0)
    } else if contents_within(rs, 1).len() > 0 {
        contents_within(rs, 1)
    } else if contents_within(rs, 2).len() > 0 {
        contents_within(rs, 2)
    } else {
        Seq::empty()
    }
}

/// The list of memories for a prompt: `None.` or one `- <memory>` line each.
pub open spec fn memory_list_text(contents: Seq<Seq<char>>) -> Seq<char> {
    if contents.len() == 0 {
        "None."@
    } else {
        join_seq(contents.map_values(|c: Seq<char>| "- "@ + c), "\n"@)
    }
}

fn memories_within(results: &Vec<MemorySearchResult>, k: u8) -> (res: Vec<Memory>)
    ensures
        memory_contents(res@) == contents_within(results@, k as nat),
{
    let mut res: Vec<Memory> = Vec::new();
    let mut i: usize = 0;
    while i < results.len()
        invariant
            i <= results.len(),
            memory_contents(res@) == contents_within(results@.take(i as int), k as nat),
        decreases results.len() - i,
    {
        proof {
            assert(results@.take(i + 1).drop_last() =~= results@.take(i as int));
        }
        if results[i].distance_tier <= k {
            res.push(Memory { content: results[i].content.clone() });
        }
        proof {
            assert(memory_contents(res@) =~= contents_within(results@.take(i + 1), k as nat));
        }
        i = i + 1;
    }
    proof {
        assert(results@.take(results.len() as int) =~= results@);
    }
    res
}

/// Keeps the results within the tightest distance threshold that keeps any.
pub fn filter_memory_results(results: Vec<MemorySearchResult>) -> (res: Vec<Memory>)
    ensures
        memory_contents(res@) == kept_memory_contents(results@),
{
    let mut k: u8 = 0;
    while k < 3
        invariant
            k <= 3,
            forall|j: nat| j < k ==> contents_within(results@, j).len() == 0,
        decreases 3 - k,
    {
        let filtered = memories_within(&results, k);
        if filtered.len() > 0 {
            return filtered;
        }
        k = k + 1;
    }
    let res: Vec<Memory> = Vec::new();
    proof {
        assert(memory_contents(res@) =~= Seq::<Seq<char>>::empty());
    }
    res
}

impl Memory {
    /// `None.`, or one `- <memory>` line per memory.
    pub fn to_list_text(memories: &Vec<Memory>) -> (res: String)
        ensures
            res@ == memory_list_text(memory_contents(memories@)),
    {
        if memories.len() == 0 {
            return String::from_str("None.");
        }
        let ghost lines = memory_contents(memories@).map_values(|c: Seq<char>| "- "@ + c);
        let mut res = String::new();
        let mut i: usize = 0;
        while i < memories.len()
            invariant
                i <= memories.len(),
                lines == memory_contents(memories@).map_values(|c: Seq<char>| "- "@ + c),
                res@ == join_seq(lines.take(i as int), "\n"@),
            decreases memories.len() - i,
        {
            proof {
                assert(lines.take(i + 1).drop_last() =~= lines.take(i as int));
            }
            if i != 0 {
                res.append("\n");
            }
            res.append("- ");
            res.append(memories[i].content.as_str());
            i = i + 1;
        }
        proof {
            assert(lines.take(memories.len() as int) =~= lines);
        }
        res
    }
}

/// A copy of the memories.
pub fn copy_memories(v: &Vec<Memory>) -> (res: Vec<Memory>)
    ensures
        res@ == v@,
{
    let mut res: Vec<Memory> = Vec::new();
    let mut i: usize = 0;
    while i < v.len()
        invariant
            i <= v.len(),
            res@ == v@.take(i as int),
        decreases v.len() - i,
    {
        res.push(Memory { content: v[i].content.clone() });
        proof {
            assert(v@.take(i + 1) =~= v@.take(i as int).push(v@[i as int]));
        }
        i = i + 1;
    }
    proof {
        assert(v@.take(v.len() as int) =~= v@);
    }
    res
}

} // verus!
