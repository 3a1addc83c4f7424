//! Sharing the scores of some players out over the whole table.
//!
//! The scores of the four players of a hand sum to zero. Given the scores of
//! the players who are known, each of the others gets an equal share of what is
//! missing to zero, if that share is a whole number.

use crate::contractors::ContractorsScore;
use crate::error::InputError;
use crate::players::{PlayerIdAndScore, TOTAL_PLAYERS};
use vstd::prelude::*;
use vstd::string::StringExecFns;

verus! {

/// The four scores as mathematical integers.
pub open spec fn scores_of(scores: [i16; 4]) -> Seq<int> {
    Seq::new(4, |seat: int| scores@[seat] as int)
}

/// Sum of the scores of the four seats.
pub open spec fn total(scores: Seq<int>) -> int {
    scores[0] + scores[1] + scores[2] + scores[3]
}

/// Whether every entry names a seat of the table.
pub open spec fn seats_valid(entries: Seq<PlayerIdAndScore>) -> bool {
    forall|k: int| 0 <= k < entries.len() ==> (#[trigger] entries[k]).id.is_valid()
}

/// Whether no seat is named twice.
pub open spec fn seats_distinct(entries: Seq<PlayerIdAndScore>) -> bool {
    forall|j: int, k: int|
        0 <= j < k < entries.len() ==> (#[trigger] entries[j]).id != (#[trigger] entries[k]).id
}

/// Whether some entry names `seat`.
pub open spec fn is_placed(entries: Seq<PlayerIdAndScore>, seat: int) -> bool {
    exists|k: int| 0 <= k < entries.len() && (#[trigger] entries[k]).id.0 == seat
}

/// The table after each entry was written to its seat, a later entry over an
/// earlier one; a seat that no entry names holds zero.
pub open spec fn placed_scores(entries: Seq<PlayerIdAndScore>) -> Seq<int>
    decreases entries.len(),
{
    if entries.len() == 0 {
        seq![0int, 0int, 0int, 0int]
    } else {
        placed_scores(entries.drop_last()).update(
            entries.last().id.0 as int,
            entries.last().score as int,
        )
    }
}

/// What the placed scores lack to sum to zero.
pub open spec fn remainder(entries: Seq<PlayerIdAndScore>) -> int {
    -total(placed_scores(entries))
}

/// Number of players without an entry.
pub open spec fn unset_count(entries: Seq<PlayerIdAndScore>) -> int {
    TOTAL_PLAYERS - entries.len()
}

/// Whether the remainder splits into equal whole shares.
pub open spec fn distributable(entries: Seq<PlayerIdAndScore>) -> bool {
    remainder(entries) % unset_count(entries) == 0
}

/// The share of each player without an entry.
pub open spec fn share(entries: Seq<PlayerIdAndScore>) -> int {
    remainder(entries) / unset_count(entries)
}

/// The whole table: placed scores where an entry names the seat, the share
/// elsewhere.
pub open spec fn distributed(entries: Seq<PlayerIdAndScore>) -> Seq<int> {
    Seq::new(
        4,
        |seat: int|
            if is_placed(entries, seat) {
                placed_scores(entries)[seat]
            } else {
                share(entries)
            },
    )
}

/// Whether each share, where there is one, is within the range of `i16`.
pub open spec fn share_fits(entries: Seq<PlayerIdAndScore>) -> bool {
    distributable(entries) ==> i16::MIN <= share(entries) <= i16::MAX
}

/// Whether `r` is what sharing out `entries` gives: the whole table where the
/// remainder splits evenly, and a wrong score where it does not.
pub open spec fn is_distribution_of(
    r: Result<[i16; 4], InputError>,
    entries: Seq<PlayerIdAndScore>,
) -> bool {
    match r {
        Ok(scores) => distributable(entries) && scores_of(scores) == distributed(entries),
        Err(e) => !distributable(entries) && e is WrongScore,
    }
}

/// Placing keeps the table at four seats, each within the range of the
/// entries' scores.
pub proof fn lemma_placed_scores_bounds(entries: Seq<PlayerIdAndScore>)
    requires
        seats_valid(entries),
    ensures
        placed_scores(entries).len() == 4,
        forall|seat: int|
            0 <= seat < 4 ==> i16::MIN <= #[trigger] placed_scores(entries)[seat] <= i16::MAX,
        forall|seat: int|
            0 <= seat < 4 && !is_placed(entries, seat) ==> #[trigger] placed_scores(entries)[seat]
                == 0,
    decreases entries.len(),
{
    if entries.len() > 0 {
        let front = entries.drop_last();
        assert forall|k: int| 0 <= k < front.len() implies (#[trigger] front[k]).id.is_valid() by {
            assert(front[k] == entries[k]);
        }
        lemma_placed_scores_bounds(front);
        assert(entries.last() == entries[entries.len() - 1]);
        assert(entries.last().id.is_valid());
        assert forall|seat: int| 0 <= seat < 4 && !is_placed(entries, seat) implies (
        #[trigger] placed_scores(entries)[seat]) == 0 by {
            assert(entries[entries.len() - 1].id.0 != seat);
            if is_placed(front, seat) {
                let k = choose|k: int| 0 <= k < front.len() && (#[trigger] front[k]).id.0 == seat;
                assert(entries[k].id.0 == seat);
            }
        }
    }
}

/// One for a seat that some entry names, nothing for another.
spec fn placed_one(entries: Seq<PlayerIdAndScore>, seat: int) -> int {
    if is_placed(entries, seat) {
        1
    } else {
        0
    }
}

/// Number of seats that some entry names.
spec fn placed_count(entries: Seq<PlayerIdAndScore>) -> int {
    placed_one(entries, 0) + placed_one(entries, 1) + placed_one(entries, 2) + placed_one(
        entries,
        3,
    )
}

/// With no seat named twice, as many seats are placed as there are entries.
proof fn lemma_placed_count(entries: Seq<PlayerIdAndScore>)
    requires
        entries.len() < TOTAL_PLAYERS,
        seats_valid(entries),
        seats_distinct(entries),
    ensures
        placed_count(entries) == entries.len(),
    decreases entries.len(),
{
    if entries.len() > 0 {
        let front = entries.drop_last();
        let last = entries.last();
        assert forall|k: int| 0 <= k < front.len() implies (#[trigger] front[k]).id.is_valid() by {
            assert(front[k] == entries[k]);
        }
        assert forall|j: int, k: int| 0 <= j < k < front.len() implies (#[trigger] front[j]).id
            != (#[trigger] front[k]).id by {
            assert(front[j] == entries[j]);
            assert(front[k] == entries[k]);
        }
        lemma_placed_count(front);
        assert(last == entries[entries.len() - 1]);
        let named = last.id.0 as int;
        assert(is_placed(entries, named));
        assert(!is_placed(front, named)) by {
            if is_placed(front, named) {
                let k = choose|k: int| 0 <= k < front.len() && (#[trigger] front[k]).id.0 == named;
                assert(front[k] == entries[k]);
                assert(entries[k].id != entries[entries.len() - 1].id);
            }
        }
        assert forall|seat: int| seat != named implies is_placed(entries, seat) == is_placed(
            front,
            seat,
        ) by {
            if is_placed(front, seat) {
                let k = choose|k: int| 0 <= k < front.len() && (#[trigger] front[k]).id.0 == seat;
                assert(front[k] == entries[k]);
            }
            if is_placed(entries, seat) {
                let k = choose|k: int|
                    0 <= k < entries.len() && (#[trigger] entries[k]).id.0 == seat;
                assert(front[k] == entries[k]);
            }
        }
    } else {
        assert(!is_placed(entries, 0));
        assert(!is_placed(entries, 1));
        assert(!is_placed(entries, 2));
        assert(!is_placed(entries, 3));
    }
}

/// A seat of the shared-out table holds its placed score, and the share on
/// top where no entry names it.
proof fn lemma_seat_of_table(entries: Seq<PlayerIdAndScore>, seat: int)
    requires
        seats_valid(entries),
        0 <= seat < 4,
    ensures
        distributed(entries)[seat] == placed_scores(entries)[seat] + (1 - placed_one(
            entries,
            seat,
        )) * share(entries),
{
    lemma_placed_scores_bounds(entries);
    let each = share(entries);
    assert(0 * each == 0 && 1 * each == each) by (nonlinear_arith);
}

/// With no seat named twice, the shared-out table sums to zero.
pub proof fn lemma_distribution_sums_to_zero(entries: Seq<PlayerIdAndScore>)
    requires
        entries.len() < TOTAL_PLAYERS,
        seats_valid(entries),
        seats_distinct(entries),
        distributable(entries),
    ensures
        total(distributed(entries)) == 0,
{
    let placed = placed_scores(entries);
    let each = share(entries);
    let unset = unset_count(entries);
    // The seats without an entry hold zero, and there are `unset` of them.
    lemma_seat_of_table(entries, 0);
    lemma_seat_of_table(entries, 1);
    lemma_seat_of_table(entries, 2);
    lemma_seat_of_table(entries, 3);
    lemma_placed_count(entries);
    // Their shares together make up the remainder.
    assert(remainder(entries) == each * unset) by {
        vstd::arithmetic::div_mod::lemma_fundamental_div_mod(remainder(entries), unset);
    }
    assert(total(distributed(entries)) == total(placed) + (4 - placed_count(entries)) * each)
        by (nonlinear_arith)
        requires
            total(distributed(entries)) == total(placed) + (1 - placed_one(entries, 0)) * each + (1
                - placed_one(entries, 1)) * each + (1 - placed_one(entries, 2)) * each + (1
                - placed_one(entries, 3)) * each,
            placed_count(entries) == placed_one(entries, 0) + placed_one(entries, 1) + placed_one(
                entries,
                2,
            ) + placed_one(entries, 3),
    ;
    assert((4 - placed_count(entries)) * each == each * unset) by (nonlinear_arith)
        requires
            4 - placed_count(entries) == unset,
    ;
}

/// `value / parts` where `parts` divides `value`, and `None` where it does not.
pub fn divide_exactly(value: i32, parts: i32) -> (quotient: Option<i32>)
    requires
        1 <= parts,
        i32::MIN < value,
    ensures
        match quotient {
            Some(q) => value as int % parts as int == 0 && q == value as int / parts as int,
            None => value as int % parts as int != 0,
        },
{
    if value >= 0 {
        if value % parts == 0 {
            Some(value / parts)
        } else {
            None
        }
    } else {
        let positive: i32 = -value;
        proof {
            lemma_negated_division(value as int, parts as int);
        }
        if positive % parts == 0 {
            Some(-(positive / parts))
        } else {
            None
        }
    }
}

/// Negating a number keeps what divides it and negates an exact quotient.
proof fn lemma_negated_division(value: int, parts: int)
    requires
        parts > 0,
    ensures
        (value % parts == 0) == ((-value) % parts == 0),
        value % parts == 0 ==> (-value) / parts == -(value / parts),
{
    vstd::arithmetic::div_mod::lemma_fundamental_div_mod(value, parts);
    vstd::arithmetic::div_mod::lemma_fundamental_div_mod(-value, parts);
    if value % parts == 0 {
        let q = value / parts;
        assert(-value == parts * (-q)) by (nonlinear_arith)
            requires
                value == parts * q,
        ;
        vstd::arithmetic::div_mod::lemma_fundamental_div_mod_converse(-value, parts, -q, 0);
    }
    if (-value) % parts == 0 {
        let q = (-value) / parts;
        assert(value == parts * (-q)) by (nonlinear_arith)
            requires
                -value == parts * q,
        ;
        vstd::arithmetic::div_mod::lemma_fundamental_div_mod_converse(value, parts, -q, 0);
    }
}

/// Shares the scores of the players in `entries` out over the table.
///
/// Each entry's score goes to its seat. The players without an entry each get
/// an equal share of what the placed scores lack to zero; where that is no
/// whole number, the scores cannot be shared out. Where no seat is named
/// twice, the table that comes back sums to zero.
///
/// Takes at most three entries, so that a player is left to share with, each
/// in a seat of the table, and a share that an `i16` can hold.
pub fn distribute_scores(entries: &[PlayerIdAndScore]) -> (r: Result<[i16; 4], InputError>)
    requires
        entries@.len() < TOTAL_PLAYERS,
        seats_valid(entries@),
        share_fits(entries@),
    ensures
        is_distribution_of(r, entries@),
        seats_distinct(entries@) ==> (r matches Ok(scores) ==> total(scores_of(scores)) == 0),
{
    let mut scores: [i16; 4] = [0, 0, 0, 0];
    let mut placed: [bool; 4] = [false, false, false, false];
    let mut k: usize = 0;
    assert(scores_of(scores) =~= placed_scores(entries@.take(0)));
    while k < entries.len()
        invariant
            k <= entries@.len() < TOTAL_PLAYERS,
            seats_valid(entries@),
            scores_of(scores) == placed_scores(entries@.take(k as int)),
            forall|seat: int|
                0 <= seat < 4 ==> #[trigger] placed@[seat] == is_placed(
                    entries@.take(k as int),
                    seat,
                ),
        decreases entries@.len() - k,
    {
        let entry = entries[k];
        let seat = entry.id.idx();
        let ghost before = entries@.take(k as int);
        let ghost after = entries@.take(k as int + 1);
        let ghost old_scores = scores;
        scores[seat] = entry.score;
        placed[seat] = true;
        proof {
            assert(after.drop_last() =~= before);
            assert(after.last() == entries@[k as int]);
            assert(scores_of(scores) =~= scores_of(old_scores).update(
                seat as int,
                entry.score as int,
            ));
            assert forall|s: int| 0 <= s < 4 implies #[trigger] placed@[s] == is_placed(
                after,
                s,
            ) by {
                if s == seat {
                    assert(after[k as int].id.0 == s);
                } else {
                    if is_placed(before, s) {
                        let j = choose|j: int|
                            0 <= j < before.len() && (#[trigger] before[j]).id.0 == s;
                        assert(after[j].id.0 == s);
                    }
                    if is_placed(after, s) {
                        let j = choose|j: int|
                            0 <= j < after.len() && (#[trigger] after[j]).id.0 == s;
                        assert(before[j].id.0 == s);
                    }
                }
            }
        }
        k += 1;
    }
    proof {
        assert(entries@.take(k as int) =~= entries@);
        lemma_placed_scores_bounds(entries@);
    }
    let sum: i32 = scores[0] as i32 + scores[1] as i32 + scores[2] as i32 + scores[3] as i32;
    let unset: i32 = 4 - entries.len() as i32;
    assert(sum == total(placed_scores(entries@)));
    let each: i32 = match divide_exactly(-sum, unset) {
        Some(each) => each,
        None => {
            return Err(InputError::WrongScore);
        },
    };
    let ghost placed_table = scores;
    let mut seat: usize = 0;
    while seat < 4
        invariant
            seat <= 4,
            each == share(entries@),
            i16::MIN <= each <= i16::MAX,
            scores_of(placed_table) == placed_scores(entries@),
            forall|s: int| 0 <= s < 4 ==> #[trigger] placed@[s] == is_placed(entries@, s),
            forall|s: int|
                0 <= s < seat ==> (#[trigger] scores@[s]) as int == distributed(entries@)[s],
            forall|s: int| seat <= s < 4 ==> #[trigger] scores@[s] == placed_table@[s],
        decreases 4 - seat,
    {
        assert(scores_of(placed_table)[seat as int] == placed_table@[seat as int]);
        if !placed[seat] {
            scores[seat] = each as i16;
        }
        seat += 1;
    }
    proof {
        assert(scores_of(scores) =~= distributed(entries@));
        if seats_distinct(entries@) {
            lemma_distribution_sums_to_zero(entries@);
        }
    }
    Ok(scores)
}

/// Whether `entries` can stand for the contractors of a hand: one to three
/// of them, no seat twice.
pub open spec fn can_contract(entries: Seq<PlayerIdAndScore>) -> bool {
    1 <= entries.len() <= 3 && seats_distinct(entries)
}

/// The score of each of the four players, from the scores that the
/// contractors made.
///
/// The contractors keep their scores and the other players share equally
/// what is missing to zero. Fails with a wrong score where there are no
/// contractors or more than three, or where that share is no whole number,
/// and with an invalid input where a team names one seat twice. The table
/// that comes back sums to zero.
///
/// Takes contractors in seats of the table, three of them in three different
/// seats, and a share that an `i16` can hold.
pub fn calculate_players_score(contractors: &ContractorsScore) -> (r: Result<[i16; 4], InputError>)
    requires
        seats_valid(contractors.entries()),
        contractors.entries().len() == 3 ==> seats_distinct(contractors.entries()),
        can_contract(contractors.entries()) ==> share_fits(contractors.entries()),
    ensures
        match r {
            Ok(scores) => {
                &&& can_contract(contractors.entries())
                &&& distributable(contractors.entries())
                &&& scores_of(scores) == distributed(contractors.entries())
                &&& total(scores_of(scores)) == 0
            },
            Err(InputError::WrongScore) => {
                ||| contractors.entries().len() == 0
                ||| contractors.entries().len() > 3
                ||| can_contract(contractors.entries()) && !distributable(contractors.entries())
            },
            Err(InputError::InvalidInput(reason)) => {
                &&& contractors.entries().len() == 2
                &&& contractors.entries()[0].id == contractors.entries()[1].id
                &&& reason@ == "A team needs two different players"@
            },
        },
{
    let entries = contractors.to_entries();
    let count = entries.len();
    if count == 0 || count > 3 {
        return Err(InputError::WrongScore);
    }
    if count == 2 && entries[0].id == entries[1].id {
        return Err(
            InputError::InvalidInput(String::from_str("A team needs two different players")),
        );
    }
    distribute_scores(entries.as_slice())
}

/// One contractor alone: the score must split in three, and each of the
/// others loses a third of it.
pub proof fn lemma_solo_shares(entry: PlayerIdAndScore)
    requires
        entry.id.is_valid(),
    ensures
        distributable(seq![entry]) == (entry.score % 3 == 0),
        share(seq![entry]) == (-entry.score) / 3,
        share_fits(seq![entry]),
        ({
            let table = distributed(seq![entry]);
            forall|seat: int|
                0 <= seat < 4 ==> #[trigger] table[seat] == if seat == entry.id.0 {
                    entry.score as int
                } else {
                    (-entry.score) / 3
                }
        }),
{
    let entries = seq![entry];
    reveal_with_fuel(placed_scores, 2);
    assert(entries.drop_last() =~= Seq::<PlayerIdAndScore>::empty());
    assert(entries.last() == entry);
    assert(entries[0].id.0 == entry.id.0);
    lemma_negated_division(entry.score as int, 3);
    assert forall|seat: int| 0 <= seat < 4 implies is_placed(entries, seat) == (seat
        == entry.id.0) by {
        if seat == entry.id.0 {
            assert(entries[0].id.0 == seat);
        }
    }
}

/// A team of two: the sum of their scores must split in two, and each of
/// the others loses half of it.
pub proof fn lemma_team_shares(first: PlayerIdAndScore, second: PlayerIdAndScore)
    requires
        first.id.is_valid(),
        second.id.is_valid(),
        first.id != second.id,
    ensures
        distributable(seq![first, second]) == ((first.score + second.score) % 2 == 0),
        share(seq![first, second]) == (-(first.score + second.score)) / 2,
        ({
            let table = distributed(seq![first, second]);
            forall|seat: int|
                0 <= seat < 4 ==> #[trigger] table[seat] == if seat == first.id.0 {
                    first.score as int
                } else if seat == second.id.0 {
                    second.score as int
                } else {
                    (-(first.score + second.score)) / 2
                }
        }),
{
    let entries = seq![first, second];
    reveal_with_fuel(placed_scores, 3);
    assert(entries.drop_last() =~= seq![first]);
    assert(seq![first].drop_last() =~= Seq::<PlayerIdAndScore>::empty());
    assert(entries.last() == second);
    assert(seq![first].last() == first);
    lemma_negated_division(first.score + second.score, 2);
    assert forall|seat: int| 0 <= seat < 4 implies is_placed(entries, seat) == (seat == first.id.0
        || seat == second.id.0) by {
        if seat == first.id.0 {
            assert(entries[0].id.0 == seat);
        }
        if seat == second.id.0 {
            assert(entries[1].id.0 == seat);
        }
    }
}

/// Three contractors: whatever they scored can be shared out, and the one
/// player left loses the sum of it.
pub proof fn lemma_three_shares(
    first: PlayerIdAndScore,
    second: PlayerIdAndScore,
    third: PlayerIdAndScore,
)
    requires
        seats_valid(seq![first, second, third]),
        seats_distinct(seq![first, second, third]),
    ensures
        distributable(seq![first, second, third]),
        share(seq![first, second, third]) == -(first.score + second.score + third.score),
        ({
            let table = distributed(seq![first, second, third]);
            forall|seat: int|
                0 <= seat < 4 ==> #[trigger] table[seat] == if seat == first.id.0 {
                    first.score as int
                } else if seat == second.id.0 {
                    second.score as int
                } else if seat == third.id.0 {
                    third.score as int
                } else {
                    -(first.score + second.score + third.score)
                }
        }),
{
    let entries = seq![first, second, third];
    reveal_with_fuel(placed_scores, 4);
    assert(entries[0] == first && entries[1] == second && entries[2] == third);
    assert(first.id.is_valid() && second.id.is_valid() && third.id.is_valid());
    assert(first.id != second.id && first.id != third.id && second.id != third.id);
    assert(entries.drop_last() =~= seq![first, second]);
    assert(seq![first, second].drop_last() =~= seq![first]);
    assert(seq![first].drop_last() =~= Seq::<PlayerIdAndScore>::empty());
    assert(entries.last() == third);
    assert(seq![first, second].last() == second);
    assert(seq![first].last() == first);
    assert forall|seat: int| 0 <= seat < 4 implies is_placed(entries, seat) == (seat == first.id.0
        || seat == second.id.0 || seat == third.id.0) by {
        if seat == first.id.0 {
            assert(entries[0].id.0 == seat);
        }
        if seat == second.id.0 {
            assert(entries[1].id.0 == seat);
        }
        if seat == third.id.0 {
            assert(entries[2].id.0 == seat);
        }
    }
}

} // verus!
