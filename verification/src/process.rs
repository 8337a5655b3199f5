//! Assembling a run's results for the reporting collaborator: display
//! labels, and the deterministic ordering of reward lines by their
//! precedence keys.

use vstd::prelude::*;
use vstd::multiset::Multiset;
use vstd::seq_lib::group_seq_properties;

use crate::text::str_eq;

verus! {

/// The label marking a guaranteed draw, per language.
pub open spec fn spec_guarantee_text(lang: Seq<char>) -> Seq<char> {
    if lang == "zh-sg"@ {
        "（保底）"@
    } else {
        "(Guaranteed)"@
    }
}

/// The label marking a guaranteed draw in the given language.
pub fn guarantee_text(lang: &str) -> (r: &'static str)
    ensures
        r@ == spec_guarantee_text(lang@),
{
    if str_eq(lang, "zh-sg") {
        "（保底）"
    } else {
        "(Guaranteed)"
    }
}

/// The roman numeral of a ship level; a star for the research level, and
/// nothing for anything unknown.
pub open spec fn spec_level_str(level: u8) -> Seq<char> {
    match level {
        1u8 => "I"@,
        2u8 => "II"@,
        3u8 => "III"@,
        4u8 => "IV"@,
        5u8 => "V"@,
        6u8 => "VI"@,
        7u8 => "VII"@,
        8u8 => "VIII"@,
        9u8 => "IX"@,
        10u8 => "X"@,
        11u8 => "⭐"@,
        _ => ""@,
    }
}

/// The display form of a ship level.
pub fn level_to_str(level: u8) -> (r: &'static str)
    ensures
        r@ == spec_level_str(level),
{
    match level {
        1u8 => "I",
        2u8 => "II",
        3u8 => "III",
        4u8 => "IV",
        5u8 => "V",
        6u8 => "VI",
        7u8 => "VII",
        8u8 => "VIII",
        9u8 => "IX",
        10u8 => "X",
        11u8 => "⭐",
        _ => "",
    }
}

/// One line of a rendered result table.
#[derive(Debug)]
pub struct LootBoxListRewardProp {
    pub icons: Vec<String>,
    pub text: String,
    pub amount: u64,
    pub precedence: (u32, Option<u64>),
    pub is_guaranteed: bool,
}

/// The whole rendered result table of one run.
#[derive(Debug)]
pub struct LootBoxListProp {
    pub box_icon: String,
    pub box_title: String,
    pub rewards: Vec<LootBoxListRewardProp>,
    pub times: u32,
    pub guarantee_text: String,
}

/// The total order a line's precedence key stands for: the category rank
/// weighs more than the tie-break.
pub open spec fn prop_key(p: LootBoxListRewardProp) -> int {
    (p.precedence.0 as int) * 0x10000000000000000 + match p.precedence.1 {
        Option::Some(t) => t as int,
        Option::None => 0int,
    }
}

/// Lines ordered by their precedence keys, smallest first.
pub open spec fn props_sorted(s: Seq<LootBoxListRewardProp>) -> bool {
    forall|i: int, j: int| 0 <= i < j < s.len() ==> prop_key(#[trigger] s[i]) <= prop_key(
        #[trigger] s[j],
    )
}

/// Whether `a` orders at or before `b`.
fn prop_le(a: &LootBoxListRewardProp, b: &LootBoxListRewardProp) -> (r: bool)
    ensures
        r == (prop_key(*a) <= prop_key(*b)),
{
    let at = match a.precedence.1 {
        Some(t) => t,
        None => 0,
    };
    let bt = match b.precedence.1 {
        Some(t) => t,
        None => 0,
    };
    if a.precedence.0 != b.precedence.0 {
        a.precedence.0 < b.precedence.0
    } else {
        at <= bt
    }
}

/// Orders the reward lines of a run by their precedence keys, so that the
/// rendered table is the same however the totals came out of the run.  The
/// result holds exactly the lines given.
pub fn sort_reward_props(v: Vec<LootBoxListRewardProp>) -> (r: Vec<LootBoxListRewardProp>)
    ensures
        props_sorted(r@),
        r@.to_multiset() == v@.to_multiset(),
{
    broadcast use group_seq_properties;

    let ghost orig = v@;
    let mut rem = v;
    let mut out: Vec<LootBoxListRewardProp> = Vec::new();
    while rem.len() > 0
        invariant
            props_sorted(out@),
            out@.to_multiset().add(rem@.to_multiset()) =~= orig.to_multiset(),
        decreases rem.len(),
    {
        let ghost remb = rem@;
        let item = rem.remove(0);
        proof {
            remb.to_multiset_ensures();
            assert(remb.remove(0) =~= rem@);
            assert(rem@.to_multiset() =~= remb.to_multiset().remove(item));
            assert(remb.to_multiset().contains(item));
        }
        let n = out.len();
        let mut idx: usize = 0;
        loop
            invariant_except_break
                idx <= n,
                n == out.len(),
                forall|k: int| 0 <= k < idx ==> prop_key(#[trigger] out@[k]) <= prop_key(item),
            ensures
                idx <= n,
                n == out.len(),
                forall|k: int| 0 <= k < idx ==> prop_key(#[trigger] out@[k]) <= prop_key(item),
                idx < n ==> prop_key(out@[idx as int]) > prop_key(item),
            decreases n - idx,
        {
            if idx >= n {
                break;
            }
            if !prop_le(&out[idx], &item) {
                break;
            }
            idx = idx + 1;
        }
        let ghost outb = out@;
        out.insert(idx, item);
        proof {
            outb.insert_ensures(idx as int, item);
            out@.to_multiset_ensures();
            assert(out@.remove(idx as int) =~= outb);
            assert(out@[idx as int] == item);
            assert(outb.to_multiset() =~= out@.to_multiset().remove(item));
            assert(out@.contains(item));
            assert(out@.to_multiset() =~= outb.to_multiset().insert(item));
            assert forall|i: int, j: int|
                0 <= i < j < out@.len() implies prop_key(#[trigger] out@[i]) <= prop_key(
                #[trigger] out@[j],
            ) by {
                if j < idx {
                } else if i < idx && j == idx {
                } else if i < idx && j > idx {
                    assert(out@[j] == outb[j - 1]);
                } else if i == idx {
                    assert(out@[j] == outb[j - 1]);
                    assert(prop_key(outb[idx as int]) > prop_key(item));
                    assert(prop_key(outb[j - 1]) >= prop_key(outb[idx as int]));
                } else {
                    assert(out@[i] == outb[i - 1]);
                    assert(out@[j] == outb[j - 1]);
                }
            }
            assert(out@.to_multiset().add(rem@.to_multiset()) =~= orig.to_multiset());
        }
    }
    proof {
        assert(rem@ =~= Seq::<LootBoxListRewardProp>::empty());
        rem@.to_multiset_ensures();
        assert(rem@.to_multiset() =~= Multiset::<LootBoxListRewardProp>::empty());
        assert(out@.to_multiset() =~= orig.to_multiset());
    }
    out
}

} // verus!
