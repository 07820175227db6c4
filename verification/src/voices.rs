//! The speech app: which voices it offers, which it speaks with, and how long
//! the spoken audio lasts.

use vstd::prelude::*;
use crate::text::{contains, first_match, str_eq};

verus! {

/// The marker of a United States English voice in its short name.
pub open spec fn us_marker() -> Seq<char> {
    seq!['-', 'U', 'S', '-']
}

/// A voice is offered when its short name holds `-US-`.
pub open spec fn is_us_voice(name: Seq<char>) -> bool {
    first_match(name, us_marker()) is Some
}

/// The short names of the voices, each of which must be present.
pub open spec fn short_names(voices: Seq<Option<String>>) -> Seq<Seq<char>> {
    voices.map_values(|v: Option<String>| v.unwrap()@)
}

/// The names offered, in order: the short names that hold `-US-`.
pub open spec fn offered(names: Seq<Seq<char>>) -> Seq<Seq<char>>
    decreases names.len(),
{
    if names.len() == 0 {
        Seq::empty()
    } else if is_us_voice(names.last()) {
        offered(names.drop_last()).push(names.last())
    } else {
        offered(names.drop_last())
    }
}

/// The voices offered, from the short names of every voice the service lists.
/// Every voice must have a short name (the list is unusable otherwise).
pub fn voices_list(voices: Vec<Option<String>>) -> (list: Vec<String>)
    requires
        forall|i: int| 0 <= i < voices@.len() ==> voices@[i] is Some,
    ensures
        list@.map_values(|s: String| s@) == offered(short_names(voices@)),
{
    let ghost names = short_names(voices@);
    let mut list: Vec<String> = Vec::new();
    let n = voices.len();
    let mut i: usize = 0;
    while i < n
        invariant
            n == voices@.len(),
            i <= n,
            names == short_names(voices@),
            forall|j: int| 0 <= j < voices@.len() ==> voices@[j] is Some,
            list@.map_values(|s: String| s@) == offered(names.take(i as int)),
        decreases n - i,
    {
        let name = match &voices[i] {
            Some(s) => s.clone(),
            None => String::new(),
        };
        proof {
            assert(names.take(i + 1).drop_last() =~= names.take(i as int));
            assert(names.take(i + 1).last() == name@);
        }
        if contains(name.as_str(), "-US-") {
            proof {
                reveal_strlit("-US-");
                assert("-US-"@ =~= us_marker());
            }
            let ghost before = list@;
            list.push(name);
            proof {
                assert(list@.map_values(|s: String| s@) =~= before.map_values(|s: String| s@).push(names[i as int]));
            }
        } else {
            proof {
                reveal_strlit("-US-");
                assert("-US-"@ =~= us_marker());
            }
        }
        i = i + 1;
    }
    proof {
        assert(names.take(n as int) =~= names);
    }
    list
}

/// Whether the voice with this short name is the one selected.
pub open spec fn is_selected(voice: Option<String>, selected: Seq<char>) -> bool {
    voice matches Some(name) && name@ == selected
}

/// The position of the first voice whose short name is `selected`, if any.
pub fn find_voice(voices: &Vec<Option<String>>, selected: &str) -> (r: Option<usize>)
    ensures
        match r {
            Some(i) => i < voices@.len() && is_selected(voices@[i as int], selected@)
                && forall|j: int| 0 <= j < i ==> !is_selected(#[trigger] voices@[j], selected@),
            None => forall|j: int| 0 <= j < voices@.len() ==> !is_selected(#[trigger] voices@[j], selected@),
        },
{
    let n = voices.len();
    let mut i: usize = 0;
    while i < n
        invariant
            n == voices@.len(),
            i <= n,
            forall|j: int| 0 <= j < i ==> !is_selected(#[trigger] voices@[j], selected@),
        decreases n - i,
    {
        let hit = match &voices[i] {
            Some(name) => str_eq(name.as_str(), selected),
            None => false,
        };
        if hit {
            return Some(i);
        }
        i = i + 1;
    }
    None
}

/// The sum of `durations`.
pub open spec fn total(durations: Seq<u64>) -> nat
    decreases durations.len(),
{
    if durations.len() == 0 {
        0
    } else {
        total(durations.drop_last()) + durations.last() as nat
    }
}

/// A prefix never sums to more than the whole.
pub proof fn lemma_total_prefix(durations: Seq<u64>, i: int)
    requires
        0 <= i <= durations.len(),
    ensures
        total(durations.take(i)) <= total(durations),
    decreases durations.len() - i,
{
    if i < durations.len() {
        lemma_total_prefix(durations, i + 1);
        assert(durations.take(i + 1).drop_last() =~= durations.take(i));
    } else {
        assert(durations.take(i) =~= durations);
    }
}

/// How long the spoken audio lasts: the sum of its parts' durations, which
/// must fit in 64 bits.
pub fn total_duration(durations: &Vec<u64>) -> (sum: u64)
    requires
        total(durations@) <= u64::MAX,
    ensures
        sum == total(durations@),
{
    let n = durations.len();
    let mut sum: u64 = 0;
    let mut i: usize = 0;
    while i < n
        invariant
            n == durations@.len(),
            i <= n,
            total(durations@) <= u64::MAX,
            sum == total(durations@.take(i as int)),
        decreases n - i,
    {
        proof {
            lemma_total_prefix(durations@, i + 1);
            assert(durations@.take(i + 1).drop_last() =~= durations@.take(i as int));
        }
        sum = sum + durations[i];
        i = i + 1;
    }
    proof {
        assert(durations@.take(n as int) =~= durations@);
    }
    sum
}

/// Every voice offered is a United States voice and one of the voices given;
/// every United States voice given is offered.
pub proof fn law_offered_are_us_voices(names: Seq<Seq<char>>)
    ensures
        forall|k: int| 0 <= k < offered(names).len() ==> is_us_voice(#[trigger] offered(names)[k])
            && names.contains(offered(names)[k]),
        forall|k: int| 0 <= k < names.len() && is_us_voice(#[trigger] names[k]) ==> offered(names).contains(names[k]),
    decreases names.len(),
{
    if names.len() > 0 {
        let rest = names.drop_last();
        law_offered_are_us_voices(rest);
        assert forall|k: int| 0 <= k < offered(names).len() implies is_us_voice(#[trigger] offered(names)[k])
            && names.contains(offered(names)[k]) by {
            if k < offered(rest).len() {
                assert(offered(names)[k] == offered(rest)[k]);
                let j = choose|j: int| 0 <= j < rest.len() && rest[j] == offered(rest)[k];
                assert(names[j] == rest[j]);
            } else {
                assert(names[names.len() - 1] == names.last());
            }
        }
        assert forall|k: int| 0 <= k < names.len() && is_us_voice(#[trigger] names[k]) implies offered(names).contains(names[k]) by {
            if k < rest.len() {
                assert(rest[k] == names[k]);
                let j = choose|j: int| 0 <= j < offered(rest).len() && offered(rest)[j] == rest[k];
                assert(offered(names)[j] == offered(rest)[j]);
            } else {
                assert(offered(names)[offered(names).len() - 1] == names.last());
            }
        }
    }
}

/// The total adds every part: nothing for no parts, and each further part adds
/// its whole duration, so the total of two runs of parts is the sum of their totals.
pub proof fn law_total_adds_parts(s: Seq<u64>, t: Seq<u64>, d: u64)
    ensures
        total(Seq::<u64>::empty()) == 0,
        total(s.push(d)) == total(s) + d,
        total(seq![d]) == d,
        total(s + t) == total(s) + total(t),
    decreases t.len(),
{
    assert(s.push(d).drop_last() =~= s);
    assert(seq![d].drop_last() =~= Seq::<u64>::empty());
    if t.len() > 0 {
        law_total_adds_parts(s, t.drop_last(), d);
        assert((s + t).drop_last() =~= s + t.drop_last());
        assert((s + t).last() == t.last());
    } else {
        assert(s + t =~= s);
    }
}

} // verus!
