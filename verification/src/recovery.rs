use vstd::prelude::*;

verus! {

/// How many shares one group can hold.
pub const MAX_SHARE_COUNT: usize = 16;

/// How many groups the slot space can hold.
pub const MAX_GROUP_COUNT: usize = 16;

/// The largest mnemonic one slot may hold, in bytes.
pub const MAX_SHARE_BYTES: usize = 256;

/// The slot a share occupies in the flat key space of the secure storage:
/// groups lie end to end, [`MAX_SHARE_COUNT`] slots each.
pub fn share_slot(index: u8, group_index: u8) -> (slot: u8)
    requires
        (index as int) < MAX_SHARE_COUNT,
        (group_index as int) < MAX_GROUP_COUNT,
    ensures
        slot as int == index + group_index * MAX_SHARE_COUNT,
{
    index + group_index * (MAX_SHARE_COUNT as u8)
}

/// The share strings that are present: the non-empty ones, in slot order.
pub open spec fn nonempty_shares(ss: Seq<Seq<char>>) -> Seq<Seq<char>> {
    ss.filter(|s: Seq<char>| s.len() > 0)
}

proof fn lemma_nonempty_shares_push(ss: Seq<Seq<char>>, x: Seq<char>)
    ensures
        nonempty_shares(ss.push(x)) == if x.len() > 0 {
            nonempty_shares(ss).push(x)
        } else {
            nonempty_shares(ss)
        },
{
    reveal(Seq::filter);
    assert(ss.push(x).drop_last() =~= ss);
}

/// Collect one group: given the string read from each of the group's slots
/// (empty where the slot holds no share), the shares present, in slot order.
pub fn collect_group(shares: &Vec<String>) -> (r: Vec<String>)
    ensures
        r.deep_view() == nonempty_shares(shares.deep_view()),
{
    let mut r: Vec<String> = Vec::new();
    let n = shares.len();
    let mut i: usize = 0;
    while i < n
        invariant
            i <= n,
            n == shares@.len(),
            r.deep_view() == nonempty_shares(shares.deep_view().take(i as int)),
        decreases n - i,
    {
        let ghost prefix = shares.deep_view().take(i as int);
        let ghost cur = shares.deep_view()[i as int];
        proof {
            lemma_nonempty_shares_push(prefix, cur);
            assert(shares.deep_view().take(i + 1) =~= prefix.push(cur));
        }
        let share = &shares[i];
        if !share.as_str().is_empty() {
            let ghost r_before = r.deep_view();
            r.push(share.clone());
            proof {
                assert(r.deep_view() =~= r_before.push(cur));
            }
        }
        i = i + 1;
    }
    proof {
        assert(shares.deep_view().take(n as int) =~= shares.deep_view());
    }
    r
}

} // verus!
