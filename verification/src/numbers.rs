use vstd::prelude::*;

use vstd::arithmetic::div_mod::lemma_mod_bound;

verus! {

/// One drawn number: position `i` draws from the inclusive range [1, 50 - i].
pub open spec fn drawn_number(t: u64, i: int) -> u8 {
    ((t as int) % (50 - i) + 1) as u8
}

/// The whole 6-number sequence derived from a time value. Both the winning
/// sequence and every player sequence are drawn by this one formula.
pub open spec fn sequence_of(t: u64) -> Seq<u8> {
    Seq::new(6, |i: int| drawn_number(t, i))
}

/// Law: every drawn number lies in its position's range [1, 50 - i].
pub proof fn lemma_drawn_number_in_range(t: u64, i: int)
    requires
        0 <= i < 6,
    ensures
        1 <= drawn_number(t, i) <= 50 - i,
{
    lemma_mod_bound(t as int, 50 - i);
}

/// Draws the 6-number sequence for a given time value.
pub fn generate_numbers(unix_time: u64) -> (r: [u8; 6])
    ensures
        r@ == sequence_of(unix_time),
        forall|i: int| 0 <= i < 6 ==> 1 <= #[trigger] r@[i] <= 50 - i,
{
    let n0: u8 = (unix_time % 50 + 1) as u8;
    let n1: u8 = (unix_time % 49 + 1) as u8;
    let n2: u8 = (unix_time % 48 + 1) as u8;
    let n3: u8 = (unix_time % 47 + 1) as u8;
    let n4: u8 = (unix_time % 46 + 1) as u8;
    let n5: u8 = (unix_time % 45 + 1) as u8;
    let r: [u8; 6] = [n0, n1, n2, n3, n4, n5];
    proof {
        assert(r@ =~= sequence_of(unix_time));
        assert forall|i: int| 0 <= i < 6 implies 1 <= #[trigger] r@[i] <= 50 - i by {
            lemma_drawn_number_in_range(unix_time, i);
        }
    }
    r
}

/// Draws the winning sequence at setup time.
pub fn generate_winning_numbers(unix_time: u64) -> (r: [u8; 6])
    ensures
        r@ == sequence_of(unix_time),
        forall|i: int| 0 <= i < 6 ==> 1 <= #[trigger] r@[i] <= 50 - i,
{
    generate_numbers(unix_time)
}

/// Draws a fresh player sequence for one play.
pub fn generate_player_numbers(unix_time: u64) -> (r: [u8; 6])
    ensures
        r@ == sequence_of(unix_time),
        forall|i: int| 0 <= i < 6 ==> 1 <= #[trigger] r@[i] <= 50 - i,
{
    generate_numbers(unix_time)
}

/// Law: the generator is a pure function of the time value, so two draws
/// made with the identical time value yield the identical sequence.
pub proof fn lemma_generation_deterministic(t: u64, first: Seq<u8>, second: Seq<u8>)
    requires
        first == sequence_of(t),
        second == sequence_of(t),
    ensures
        first == second,
{
}

/// The lowest matching position at or after `i`, if any.
pub open spec fn first_match_from(p: Seq<u8>, w: Seq<u8>, i: int) -> Option<int>
    decreases 6 - i,
{
    if i < 0 || i >= 6 {
        None
    } else if p[i] == w[i] {
        Some(i)
    } else {
        first_match_from(p, w, i + 1)
    }
}

/// The lowest position at which the player sequence equals the winning
/// sequence, if any: the single prize tier a play can win.
pub open spec fn first_match(p: Seq<u8>, w: Seq<u8>) -> Option<int> {
    first_match_from(p, w, 0)
}

/// Position `i` matches and every lower position does not.
pub open spec fn is_first_match(p: Seq<u8>, w: Seq<u8>, i: int) -> bool {
    0 <= i < 6 && p[i] == w[i] && forall|j: int| 0 <= j < i ==> p[j] != w[j]
}

/// No position of the two sequences matches.
pub open spec fn has_no_match(p: Seq<u8>, w: Seq<u8>) -> bool {
    forall|i: int| 0 <= i < 6 ==> p[i] != w[i]
}

proof fn lemma_first_match_from_correct(p: Seq<u8>, w: Seq<u8>, i: int)
    requires
        0 <= i <= 6,
        forall|j: int| 0 <= j < i ==> p[j] != w[j],
    ensures
        match first_match_from(p, w, i) {
            Some(k) => is_first_match(p, w, k),
            None => has_no_match(p, w),
        },
    decreases 6 - i,
{
    if i < 6 && p[i] != w[i] {
        lemma_first_match_from_correct(p, w, i + 1);
    }
}

/// Law: the winning tier reported by `first_match` is the lowest matching
/// position, and when it reports none, no position matches at all.
pub proof fn lemma_first_match_is_lowest(p: Seq<u8>, w: Seq<u8>)
    ensures
        match first_match(p, w) {
            Some(k) => is_first_match(p, w, k),
            None => has_no_match(p, w),
        },
{
    lemma_first_match_from_correct(p, w, 0);
}

/// Law: a play can win at most one tier — two first matches are one position.
pub proof fn lemma_at_most_one_winning_tier(p: Seq<u8>, w: Seq<u8>, i: int, j: int)
    requires
        is_first_match(p, w, i),
        is_first_match(p, w, j),
    ensures
        i == j,
{
    if i < j {
        assert(p[i] != w[i]);
    }
    if j < i {
        assert(p[j] != w[j]);
    }
}

/// Compares the two sequences position by position and reports the first
/// matching position, the single tier this play wins.
pub fn find_winning_tier(player_numbers: &[u8; 6], winning_numbers: &[u8; 6]) -> (r: Option<usize>)
    ensures
        match r {
            Some(i) => i < 6 && first_match(player_numbers@, winning_numbers@) == Some(i as int),
            None => first_match(player_numbers@, winning_numbers@) is None,
        },
{
    for i in 0..6usize
        invariant
            first_match(player_numbers@, winning_numbers@) == first_match_from(
                player_numbers@,
                winning_numbers@,
                i as int,
            ),
    {
        if player_numbers[i] == winning_numbers[i] {
            return Some(i);
        }
    }
    None
}

} // verus!
