//! Who takes a contract on: one player, a team of two, or some other number.
//!
//! The contractors exist three times: as a bare kind, which a contract asks
//! for before anyone is named; as the seats of the players; and as the seats
//! with the score each player made. Values of the three compare with each
//! other: a kind with the shape of the others, and named players with scored
//! players by their seats alone, in any order.

use crate::distribution::{can_contract, seats_valid};
use crate::players::{PlayerId, PlayerIdAndScore};
use std::collections::HashMap;
use vstd::prelude::*;

verus! {

/// The shape of the contractors.
#[derive(Clone, Copy, Debug, PartialEq, Eq, Structural)]
pub enum ContractorsKind {
    Solo,
    Team,
    Other,
}

/// The players who take the contract on.
#[derive(Debug)]
pub enum Contractors {
    Solo(PlayerId),
    Team(PlayerId, PlayerId),
    Other(Vec<PlayerId>),
}

/// The players who took the contract on, each with the score made.
#[derive(Debug)]
pub enum ContractorsScore {
    Solo(PlayerIdAndScore),
    Team(PlayerIdAndScore, PlayerIdAndScore),
    Other(Vec<PlayerIdAndScore>),
}

/// Whether no seat occurs twice in `ids`.
pub open spec fn ids_distinct(ids: Seq<PlayerId>) -> bool {
    forall|j: int, k: int| 0 <= j < k < ids.len() ==> ids[j] != ids[k]
}

/// The seats of `entries`, in their order.
pub open spec fn ids_of(entries: Seq<PlayerIdAndScore>) -> Seq<PlayerId> {
    Seq::new(entries.len(), |k: int| entries[k].id)
}

impl Contractors {
    /// The seats of the contractors, in the order given.
    pub open spec fn ids(&self) -> Seq<PlayerId> {
        match self {
            Contractors::Solo(id) => seq![*id],
            Contractors::Team(first, second) => seq![*first, *second],
            Contractors::Other(ids) => ids@,
        }
    }

    /// The shape of these contractors.
    pub open spec fn kind_spec(&self) -> ContractorsKind {
        match self {
            Contractors::Solo(_) => ContractorsKind::Solo,
            Contractors::Team(_, _) => ContractorsKind::Team,
            Contractors::Other(_) => ContractorsKind::Other,
        }
    }

    /// Whether these can be the contractors of a hand: distinct seats of the
    /// table, and at least one seat left to play against them.
    pub open spec fn wf(&self) -> bool {
        &&& forall|k: int| 0 <= k < self.ids().len() ==> (#[trigger] self.ids()[k]).is_valid()
        &&& ids_distinct(self.ids())
        &&& 1 <= self.ids().len() <= 3
    }

    /// The shape of these contractors.
    pub fn kind(&self) -> (kind: ContractorsKind)
        ensures
            kind == self.kind_spec(),
    {
        match self {
            Contractors::Solo(_) => ContractorsKind::Solo,
            Contractors::Team(_, _) => ContractorsKind::Team,
            Contractors::Other(_) => ContractorsKind::Other,
        }
    }

    /// Number of contractors.
    pub fn count(&self) -> (count: usize)
        ensures
            count == self.ids().len(),
    {
        match self {
            Contractors::Solo(_) => 1,
            Contractors::Team(_, _) => 2,
            Contractors::Other(ids) => ids.len(),
        }
    }

    /// The seats of the contractors, in the order given.
    pub fn to_ids(&self) -> (ids: Vec<PlayerId>)
        ensures
            ids@ == self.ids(),
    {
        match self {
            Contractors::Solo(id) => vec![*id],
            Contractors::Team(first, second) => vec![*first, *second],
            Contractors::Other(ids) => ids.clone(),
        }
    }
}

impl Clone for Contractors {
    fn clone(&self) -> (copy: Self)
        ensures
            copy.kind_spec() == self.kind_spec(),
            copy.ids() == self.ids(),
    {
        match self {
            Contractors::Solo(id) => Contractors::Solo(*id),
            Contractors::Team(first, second) => Contractors::Team(*first, *second),
            Contractors::Other(ids) => Contractors::Other(ids.clone()),
        }
    }
}

impl ContractorsScore {
    /// The contractors with their scores, in the order given.
    pub open spec fn entries(&self) -> Seq<PlayerIdAndScore> {
        match self {
            ContractorsScore::Solo(entry) => seq![*entry],
            ContractorsScore::Team(first, second) => seq![*first, *second],
            ContractorsScore::Other(entries) => entries@,
        }
    }

    /// The seats of the contractors, in the order given.
    pub open spec fn ids(&self) -> Seq<PlayerId> {
        ids_of(self.entries())
    }

    /// The shape of these contractors.
    pub open spec fn kind_spec(&self) -> ContractorsKind {
        match self {
            ContractorsScore::Solo(_) => ContractorsKind::Solo,
            ContractorsScore::Team(_, _) => ContractorsKind::Team,
            ContractorsScore::Other(_) => ContractorsKind::Other,
        }
    }

    /// The shape of these contractors.
    pub fn kind(&self) -> (kind: ContractorsKind)
        ensures
            kind == self.kind_spec(),
    {
        match self {
            ContractorsScore::Solo(_) => ContractorsKind::Solo,
            ContractorsScore::Team(_, _) => ContractorsKind::Team,
            ContractorsScore::Other(_) => ContractorsKind::Other,
        }
    }

    /// The contractors with their scores, in the order given.
    pub fn to_entries(&self) -> (entries: Vec<PlayerIdAndScore>)
        ensures
            entries@ == self.entries(),
    {
        match self {
            ContractorsScore::Solo(entry) => vec![*entry],
            ContractorsScore::Team(first, second) => vec![*first, *second],
            ContractorsScore::Other(entries) => entries.clone(),
        }
    }

    /// The seats of the contractors, in the order given.
    pub fn to_ids(&self) -> (ids: Vec<PlayerId>)
        ensures
            ids@ == self.ids(),
    {
        let entries = self.to_entries();
        let mut ids: Vec<PlayerId> = Vec::new();
        let mut k: usize = 0;
        while k < entries.len()
            invariant
                k <= entries@.len(),
                entries@ == self.entries(),
                ids@ == self.ids().take(k as int),
            decreases entries@.len() - k,
        {
            ids.push(entries[k].id);
            k += 1;
            assert(ids@ =~= self.ids().take(k as int));
        }
        assert(self.ids().take(k as int) =~= self.ids());
        ids
    }
}

impl Clone for ContractorsScore {
    fn clone(&self) -> (copy: Self)
        ensures
            copy.kind_spec() == self.kind_spec(),
            copy.entries() == self.entries(),
    {
        match self {
            ContractorsScore::Solo(entry) => ContractorsScore::Solo(*entry),
            ContractorsScore::Team(first, second) => ContractorsScore::Team(*first, *second),
            ContractorsScore::Other(entries) => ContractorsScore::Other(entries.clone()),
        }
    }
}

/// Contractors that can play a hand can have their scores shared out, once
/// each of them has one: they sit in seats of the table, one to three of
/// them, no two in one seat.
pub proof fn lemma_scored_contractors_can_contract(named: Contractors, scored: ContractorsScore)
    requires
        named.wf(),
        scored.ids() == named.ids(),
    ensures
        seats_valid(scored.entries()),
        can_contract(scored.entries()),
{
    let entries = scored.entries();
    assert forall|k: int| 0 <= k < entries.len() implies (#[trigger] entries[k]).id.is_valid() by {
        assert(scored.ids()[k] == entries[k].id);
        assert(named.ids()[k].is_valid());
    }
    assert forall|j: int, k: int| 0 <= j < k < entries.len() implies (#[trigger] entries[j]).id
        != (#[trigger] entries[k]).id by {
        assert(scored.ids()[j] == entries[j].id);
        assert(scored.ids()[k] == entries[k].id);
    }
}

/// How often the map has counted `id`: nothing where it holds no count.
pub open spec fn counted(counts: Map<usize, usize>, id: PlayerId) -> nat {
    if counts.contains_key(id.0) {
        counts[id.0] as nat
    } else {
        0
    }
}

/// Appending `last` raises its count by one and leaves the other counts.
proof fn lemma_count_push(items: Seq<PlayerId>, last: PlayerId, id: PlayerId)
    ensures
        items.push(last).to_multiset().count(id) == items.to_multiset().count(id) + if id
            == last {
            1nat
        } else {
            0nat
        },
{
    broadcast use vstd::multiset::group_multiset_axioms;

    vstd::seq_lib::to_multiset_build(items, last);
}

/// A seat occurs in the whole at least as often as in a part from the start.
proof fn lemma_count_prefix(items: Seq<PlayerId>, n: int, id: PlayerId)
    requires
        0 <= n <= items.len(),
    ensures
        items.take(n).to_multiset().count(id) <= items.to_multiset().count(id),
{
    broadcast use vstd::multiset::group_multiset_axioms;

    assert(items =~= items.take(n) + items.skip(n));
    vstd::seq_lib::lemma_multiset_commutative(items.take(n), items.skip(n));
}

/// Whether `a` and `b` hold the same seats, each as often in one as in the
/// other, in whatever order.
pub fn multiset_eq(a: &[PlayerId], b: &[PlayerId]) -> (same: bool)
    ensures
        same == (a@.to_multiset() == b@.to_multiset()),
{
    broadcast use {vstd::multiset::group_multiset_axioms, vstd::std_specs::hash::group_hash_axioms};

    proof {
        vstd::seq_lib::to_multiset_len(a@);
        vstd::seq_lib::to_multiset_len(b@);
    }
    if a.len() != b.len() {
        return false;
    }
    let mut counts: HashMap<usize, usize> = HashMap::new();
    let mut i: usize = 0;
    proof {
        vstd::seq_lib::to_multiset_len(a@.take(0));
        vstd::multiset::lemma_multiset_empty_len(a@.take(0).to_multiset());
    }
    while i < a.len()
        invariant
            i <= a@.len(),
            forall|id: PlayerId|
                counted(counts@, id) == #[trigger] a@.take(i as int).to_multiset().count(id),
        decreases a@.len() - i,
    {
        let key = a[i].idx();
        let seen: usize = match counts.get(&key) {
            Some(n) => *n,
            None => 0,
        };
        let ghost before = a@.take(i as int);
        let ghost last = a@[i as int];
        let ghost so_far = counts@;
        proof {
            assert(a@.take(i as int + 1) =~= before.push(last));
            assert(seen == counted(counts@, last));
            assert(seen == before.to_multiset().count(last));
            vstd::seq_lib::to_multiset_len(before);
            assert(before.to_multiset().count(last) <= before.to_multiset().len());
        }
        counts.insert(key, seen + 1);
        proof {
            assert forall|id: PlayerId|
                counted(counts@, id) == #[trigger] a@.take(i as int + 1).to_multiset().count(
                    id,
                ) by {
                lemma_count_push(before, last, id);
                assert(before.to_multiset().count(id) == counted(so_far, id));
                if id != last {
                    assert(id.0 != key);
                }
            }
        }
        i += 1;
    }
    assert(a@.take(i as int) =~= a@);
    let mut j: usize = 0;
    proof {
        vstd::seq_lib::to_multiset_len(b@.take(0));
        vstd::multiset::lemma_multiset_empty_len(b@.take(0).to_multiset());
    }
    while j < b.len()
        invariant
            j <= b@.len(),
            forall|id: PlayerId|
                counted(counts@, id) + #[trigger] b@.take(j as int).to_multiset().count(id)
                    == a@.to_multiset().count(id),
        decreases b@.len() - j,
    {
        let key = b[j].idx();
        let left: usize = match counts.get(&key) {
            Some(n) => *n,
            None => 0,
        };
        let ghost before = b@.take(j as int);
        let ghost last = b@[j as int];
        let ghost so_far = counts@;
        proof {
            assert(b@.take(j as int + 1) =~= before.push(last));
            assert(left == counted(counts@, last));
            assert(left + before.to_multiset().count(last) == a@.to_multiset().count(last));
        }
        if left == 0 {
            proof {
                lemma_count_push(before, last, last);
                lemma_count_prefix(b@, j as int + 1, last);
            }
            return false;
        }
        counts.insert(key, left - 1);
        proof {
            assert forall|id: PlayerId|
                counted(counts@, id) + #[trigger] b@.take(j as int + 1).to_multiset().count(id)
                    == a@.to_multiset().count(id) by {
                lemma_count_push(before, last, id);
                assert(counted(so_far, id) + before.to_multiset().count(id)
                    == a@.to_multiset().count(id));
                if id != last {
                    assert(id.0 != key);
                }
            }
        }
        j += 1;
    }
    proof {
        assert(b@.take(j as int) =~= b@);
        let all_a = a@.to_multiset();
        let all_b = b@.to_multiset();
        assert(all_b.subset_of(all_a)) by {
            assert forall|id: PlayerId| all_b.count(id) <= all_a.count(id) by {
                assert(counted(counts@, id) + all_b.count(id) == all_a.count(id));
            }
        }
        vstd::multiset::axiom_len_sub(all_a, all_b);
        vstd::multiset::lemma_multiset_empty_len(all_a.sub(all_b));
        assert forall|id: PlayerId| all_a.count(id) == all_b.count(id) by {
            assert(all_a.sub(all_b).count(id) == 0);
            assert(counted(counts@, id) + all_b.count(id) == all_a.count(id));
        }
        assert(all_a =~= all_b);
    }
    true
}

/// Whether the scored and the named contractors are the same players: of one
/// shape, and with the same seats, each as often in one as in the other.
pub open spec fn same_players(scored: &ContractorsScore, named: &Contractors) -> bool {
    &&& scored.kind_spec() == named.kind_spec()
    &&& scored.ids().to_multiset() == named.ids().to_multiset()
}

/// One seat and another make the same multiset only where they are the same.
proof fn lemma_single_multiset(a: PlayerId, b: PlayerId)
    ensures
        (seq![a].to_multiset() == seq![b].to_multiset()) == (a == b),
{
    let none = Seq::<PlayerId>::empty();
    assert(seq![a] =~= none.push(a));
    assert(seq![b] =~= none.push(b));
    lemma_count_push(none, a, a);
    lemma_count_push(none, b, a);
}

/// Two seats make the same multiset as two others where they are the same
/// seats, one way round or the other.
proof fn lemma_pair_multiset(a1: PlayerId, a2: PlayerId, b1: PlayerId, b2: PlayerId)
    ensures
        (seq![a1, a2].to_multiset() == seq![b1, b2].to_multiset()) == ((a1 == b1 && a2 == b2) || (a1
            == b2 && a2 == b1)),
{
    broadcast use vstd::multiset::group_multiset_axioms;

    let none = Seq::<PlayerId>::empty();
    let left = seq![a1, a2];
    let right = seq![b1, b2];
    assert(left =~= none.push(a1).push(a2));
    assert(right =~= none.push(b1).push(b2));
    assert forall|id: PlayerId|
        left.to_multiset().count(id) == none.to_multiset().count(id) + (if id == a1 {
            1nat
        } else {
            0nat
        }) + (if id == a2 {
            1nat
        } else {
            0nat
        }) by {
        lemma_count_push(none, a1, id);
        lemma_count_push(none.push(a1), a2, id);
    }
    assert forall|id: PlayerId|
        right.to_multiset().count(id) == none.to_multiset().count(id) + (if id == b1 {
            1nat
        } else {
            0nat
        }) + (if id == b2 {
            1nat
        } else {
            0nat
        }) by {
        lemma_count_push(none, b1, id);
        lemma_count_push(none.push(b1), b2, id);
    }
    if (a1 == b1 && a2 == b2) || (a1 == b2 && a2 == b1) {
        assert(left.to_multiset() =~= right.to_multiset());
    }
    if left.to_multiset() == right.to_multiset() {
        assert(left.to_multiset().count(a1) == right.to_multiset().count(a1));
        assert(left.to_multiset().count(a2) == right.to_multiset().count(a2));
        assert(left.to_multiset().count(b1) == right.to_multiset().count(b1));
    }
}

impl PartialEq<Contractors> for ContractorsScore {
    /// Whether these are the same players, whatever they scored and in
    /// whatever order they come.
    fn eq(&self, other: &Contractors) -> (same: bool) {
        match (self, other) {
            (ContractorsScore::Solo(scored), Contractors::Solo(id)) => {
                proof {
                    assert(self.ids() =~= seq![scored.id]);
                    lemma_single_multiset(scored.id, *id);
                }
                scored.id == *id
            },
            (ContractorsScore::Team(first, second), Contractors::Team(id1, id2)) => {
                proof {
                    assert(self.ids() =~= seq![first.id, second.id]);
                    lemma_pair_multiset(first.id, second.id, *id1, *id2);
                }
                (first.id == *id1 && second.id == *id2) || (second.id == *id1 && first.id == *id2)
            },
            (ContractorsScore::Other(_), Contractors::Other(ids)) => {
                let scored_ids = self.to_ids();
                multiset_eq(scored_ids.as_slice(), ids.as_slice())
            },
            _ => false,
        }
    }
}

impl vstd::std_specs::cmp::PartialEqSpecImpl<Contractors> for ContractorsScore {
    open spec fn obeys_eq_spec() -> bool {
        true
    }

    open spec fn eq_spec(&self, other: &Contractors) -> bool {
        same_players(self, other)
    }
}

impl PartialEq<ContractorsScore> for Contractors {
    fn eq(&self, other: &ContractorsScore) -> (same: bool) {
        other.eq(self)
    }
}

impl vstd::std_specs::cmp::PartialEqSpecImpl<ContractorsScore> for Contractors {
    open spec fn obeys_eq_spec() -> bool {
        true
    }

    open spec fn eq_spec(&self, other: &ContractorsScore) -> bool {
        same_players(other, self)
    }
}

impl PartialEq<Contractors> for ContractorsKind {
    /// Whether the contractors have this shape.
    fn eq(&self, other: &Contractors) -> (same: bool) {
        *self == other.kind()
    }
}

impl vstd::std_specs::cmp::PartialEqSpecImpl<Contractors> for ContractorsKind {
    open spec fn obeys_eq_spec() -> bool {
        true
    }

    open spec fn eq_spec(&self, other: &Contractors) -> bool {
        *self == other.kind_spec()
    }
}

impl PartialEq<ContractorsScore> for ContractorsKind {
    /// Whether the contractors have this shape.
    fn eq(&self, other: &ContractorsScore) -> (same: bool) {
        *self == other.kind()
    }
}

impl vstd::std_specs::cmp::PartialEqSpecImpl<ContractorsScore> for ContractorsKind {
    open spec fn obeys_eq_spec() -> bool {
        true
    }

    open spec fn eq_spec(&self, other: &ContractorsScore) -> bool {
        *self == other.kind_spec()
    }
}

impl PartialEq<ContractorsKind> for Contractors {
    fn eq(&self, other: &ContractorsKind) -> (same: bool) {
        other.eq(self)
    }
}

impl vstd::std_specs::cmp::PartialEqSpecImpl<ContractorsKind> for Contractors {
    open spec fn obeys_eq_spec() -> bool {
        true
    }

    open spec fn eq_spec(&self, other: &ContractorsKind) -> bool {
        self.kind_spec() == *other
    }
}

impl PartialEq<ContractorsKind> for ContractorsScore {
    fn eq(&self, other: &ContractorsKind) -> (same: bool) {
        other.eq(self)
    }
}

impl vstd::std_specs::cmp::PartialEqSpecImpl<ContractorsKind> for ContractorsScore {
    open spec fn obeys_eq_spec() -> bool {
        true
    }

    open spec fn eq_spec(&self, other: &ContractorsKind) -> bool {
        self.kind_spec() == *other
    }
}

} // verus!
