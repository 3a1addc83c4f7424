//! The four seats of a table and the players who sit in them.

use crate::distribution::{scores_of, total};
use crate::error::{GameError, InputError};
use itertools::Itertools;
use vstd::prelude::*;

verus! {

/// Number of players at a table.
pub const TOTAL_PLAYERS: usize = 4;

/// Index of a seat at the table.
///
/// A seat is valid when it is below [`TOTAL_PLAYERS`]; the functions that
/// index a score vector by a seat ask for that.
#[derive(Clone, Copy, Debug, PartialEq, Eq, Hash, Structural)]
pub struct PlayerId(pub usize);

impl PlayerId {
    /// Whether this seat exists at a table of four.
    pub open spec fn is_valid(&self) -> bool {
        self.0 < TOTAL_PLAYERS
    }

    /// The seat with the index `idx`.
    pub fn new(idx: usize) -> (id: PlayerId)
        ensures
            id == PlayerId(idx),
    {
        PlayerId(idx)
    }

    /// The index of the seat.
    pub fn idx(&self) -> (idx: usize)
        ensures
            idx == self.0,
    {
        self.0
    }
}

/// A seat together with the score its player made in one hand.
#[derive(Clone, Copy, Debug, PartialEq, Eq, Hash, Structural)]
pub struct PlayerIdAndScore {
    pub id: PlayerId,
    pub score: i16,
}

impl PlayerIdAndScore {
    /// The seat `id` with the score `score`.
    pub fn new(id: PlayerId, score: i16) -> (p: PlayerIdAndScore)
        ensures
            p == (PlayerIdAndScore { id, score }),
    {
        PlayerIdAndScore { id, score }
    }

    /// A seat whose score is not known yet, counted as zero.
    pub fn from_id(id: PlayerId) -> (p: PlayerIdAndScore)
        ensures
            p == (PlayerIdAndScore { id, score: 0 }),
    {
        PlayerIdAndScore { id, score: 0 }
    }
}

/// A player at the table.
#[derive(Debug)]
pub struct Player {
    pub name: String,
    /// The player's score over the hands played so far.
    pub score: i16,
    pub id: PlayerId,
}

impl Player {
    /// A player in seat `idx`, with no score yet.
    pub fn new(name: String, idx: usize) -> (player: Player)
        ensures
            player.name == name,
            player.score == 0,
            player.id == PlayerId(idx),
    {
        Player { name, score: 0, id: PlayerId(idx) }
    }
}

impl Clone for Player {
    fn clone(&self) -> (copy: Self)
        ensures
            copy.name@ == self.name@,
            copy.score == self.score,
            copy.id == self.id,
    {
        Player { name: self.name.clone(), score: self.score, id: self.id }
    }
}

/// Whether one of `players` is called `name`.
pub open spec fn has_name(players: Seq<Player>, name: Seq<char>) -> bool {
    exists|k: int| 0 <= k < players.len() && (#[trigger] players[k]).name@ == name
}

/// Whether `players` can sit at one table: at most four, each in the seat of
/// its place in the list, no two with one name.
pub open spec fn is_roster(players: Seq<Player>) -> bool {
    &&& players.len() <= TOTAL_PLAYERS
    &&& forall|k: int| 0 <= k < players.len() ==> (#[trigger] players[k]).id == PlayerId(k as usize)
    &&& forall|j: int, k: int|
        0 <= j < k < players.len() ==> (#[trigger] players[j]).name@ != (
        #[trigger] players[k]).name@
}

/// [`itertools::Itertools::contains`] on the names of `players`: whether the
/// walk over the names meets one equal to `name`.
#[verifier::external_body]
fn names_contain(players: &Vec<Player>, name: &String) -> (found: bool)
    ensures
        found == has_name(players@, name@),
{
    players.iter().map(|player| &player.name).contains(name)
}

/// The players of a table, in the order of their seats.
#[derive(Debug)]
pub struct Players {
    list: Vec<Player>,
}

impl View for Players {
    type V = Seq<Player>;

    closed spec fn view(&self) -> Seq<Player> {
        self.list@
    }
}

impl Default for Players {
    /// A table without players.
    fn default() -> (players: Self)
        ensures
            players@.len() == 0,
            players.wf(),
    {
        Players { list: Vec::new() }
    }
}

impl Clone for Players {
    fn clone(&self) -> (copy: Self)
        ensures
            self.wf() ==> copy.wf(),
            copy@.len() == self@.len(),
            forall|k: int|
                0 <= k < self@.len() ==> {
                    &&& (#[trigger] copy@[k]).name@ == self@[k].name@
                    &&& copy@[k].score == self@[k].score
                    &&& copy@[k].id == self@[k].id
                },
    {
        let mut list: Vec<Player> = Vec::new();
        let mut k: usize = 0;
        while k < self.list.len()
            invariant
                k <= self.list@.len(),
                list@.len() == k,
                forall|j: int|
                    0 <= j < k ==> {
                        &&& (#[trigger] list@[j]).name@ == self.list@[j].name@
                        &&& list@[j].score == self.list@[j].score
                        &&& list@[j].id == self.list@[j].id
                    },
            decreases self.list@.len() - k,
        {
            list.push(self.list[k].clone());
            k += 1;
        }
        Players { list }
    }
}

impl Players {
    /// Whether the players are seated as a table asks. A table is so when it
    /// is made, and every change to it keeps it so.
    pub open spec fn wf(&self) -> bool {
        is_roster(self@)
    }

    /// The table of the four `players`, seated in the order given.
    ///
    /// Each keeps its name and score and gets the seat of its place. Fails
    /// where two of them have one name.
    pub fn new(players: [Player; 4]) -> (r: Result<Self, GameError>)
        ensures
            match r {
                Ok(table) => {
                    &&& table.wf()
                    &&& table@.len() == 4
                    &&& forall|k: int|
                        0 <= k < 4 ==> (#[trigger] table@[k]).name@ == players@[k].name@
                            && table@[k].score == players@[k].score
                },
                Err(e) => e is PlayerAlreadyExists && exists|j: int, k: int|
                    0 <= j < k < 4 && (#[trigger] players@[j]).name@ == (
                    #[trigger] players@[k]).name@,
            },
    {
        let mut list: Vec<Player> = Vec::new();
        let mut k: usize = 0;
        while k < 4
            invariant
                k <= 4,
                list@.len() == k,
                is_roster(list@),
                forall|j: int|
                    0 <= j < k ==> {
                        &&& (#[trigger] list@[j]).name@ == players@[j].name@
                        &&& list@[j].score == players@[j].score
                    },
            decreases 4 - k,
        {
            let name = players[k].name.clone();
            if names_contain(&list, &name) {
                proof {
                    let j = choose|j: int|
                        0 <= j < list@.len() && (#[trigger] list@[j]).name@ == name@;
                    assert(players@[j].name@ == players@[k as int].name@);
                }
                return Err(GameError::PlayerAlreadyExists);
            }
            list.push(Player { name, score: players[k].score, id: PlayerId(k) });
            k += 1;
        }
        Ok(Players { list })
    }

    /// The table of the players called `names`, seated in the order given,
    /// each with no score yet. Fails where two of them have one name.
    pub fn from_list(names: &[&str; 4]) -> (r: Result<Self, GameError>)
        ensures
            match r {
                Ok(table) => {
                    &&& table.wf()
                    &&& table@.len() == 4
                    &&& forall|k: int|
                        0 <= k < 4 ==> (#[trigger] table@[k]).name@ == names@[k]@ && table@[k].score
                            == 0
                },
                Err(e) => e is PlayerAlreadyExists && exists|j: int, k: int|
                    0 <= j < k < 4 && (#[trigger] names@[j])@ == (#[trigger] names@[k])@,
            },
    {
        let mut players = Players { list: Vec::new() };
        let mut k: usize = 0;
        while k < 4
            invariant
                k <= 4,
                players@.len() == k,
                players.wf(),
                forall|j: int|
                    0 <= j < k ==> (#[trigger] players@[j]).name@ == names@[j]@ && players@[j].score
                        == 0,
            decreases 4 - k,
        {
            let ghost before = players@;
            match players.add_player(names[k].to_owned()) {
                Ok(_) => {
                    proof {
                        assert(players@.last() == players@[k as int]);
                        assert forall|j: int| 0 <= j < k implies (#[trigger] players@[j])
                            == before[j] by {
                            assert(players@.take(k as int)[j] == players@[j]);
                        }
                    }
                },
                Err(e) => {
                    proof {
                        let taken = names@[k as int]@;
                        let j = choose|j: int|
                            0 <= j < before.len() && (#[trigger] before[j]).name@ == taken;
                        assert(names@[j]@ == names@[k as int]@);
                    }
                    return Err(e);
                },
            }
            k += 1;
        }
        Ok(players)
    }

    /// Seats a new player, called `name`, in the next free seat, and gives
    /// the number of players now at the table.
    ///
    /// Fails where the table is full, or else where the name is taken; the
    /// table then stays as it was.
    pub fn add_player(&mut self, name: String) -> (r: Result<usize, GameError>)
        ensures
            old(self).wf() ==> final(self).wf(),
            match r {
                Ok(count) => {
                    &&& old(self)@.len() < TOTAL_PLAYERS
                    &&& !has_name(old(self)@, name@)
                    &&& count == old(self)@.len() + 1
                    &&& final(self)@.len() == count
                    &&& final(self)@.take(count - 1) == old(self)@
                    &&& final(self)@.last().name == name
                    &&& final(self)@.last().score == 0
                    &&& final(self)@.last().id == PlayerId(old(self)@.len() as usize)
                },
                Err(GameError::TooManyPlayer) => {
                    &&& old(self)@.len() >= TOTAL_PLAYERS
                    &&& final(self)@ == old(self)@
                },
                Err(GameError::PlayerAlreadyExists) => {
                    &&& old(self)@.len() < TOTAL_PLAYERS
                    &&& has_name(old(self)@, name@)
                    &&& final(self)@ == old(self)@
                },
                Err(GameError::HandBuildError(_)) => false,
            },
    {
        if self.list.len() >= 4 {
            return Err(GameError::TooManyPlayer);
        } else if names_contain(&self.list, &name) {
            return Err(GameError::PlayerAlreadyExists);
        }
        let player = Player::new(name, self.list.len());
        self.list.push(player);
        proof {
            assert(final(self)@.take(self.list@.len() - 1) =~= old(self)@);
            if old(self).wf() {
                assert forall|j: int, k: int| 0 <= j < k < self.list@.len() implies (
                #[trigger] self.list@[j]).name@ != (#[trigger] self.list@[k]).name@ by {
                    if k == self.list@.len() - 1 {
                        assert(old(self)@[j].name@ != name@);
                    }
                }
            }
        }
        Ok(self.list.len())
    }

    /// The seat of the player called `name`, if there is one.
    pub fn get_id(&self, name: &str) -> (id: Option<PlayerId>)
        ensures
            match id {
                Some(id) => exists|k: int|
                    0 <= k < self@.len() && (#[trigger] self@[k]).name@ == name@ && self@[k].id
                        == id,
                None => !has_name(self@, name@),
            },
            self.wf() ==> (id matches Some(id) ==> id.0 < self@.len() && self@[id.0 as int].name@
                == name@),
    {
        let wanted = name.to_owned();
        let mut k: usize = 0;
        while k < self.list.len()
            invariant
                k <= self.list@.len(),
                wanted@ == name@,
                forall|j: int| 0 <= j < k ==> (#[trigger] self.list@[j]).name@ != name@,
            decreases self.list@.len() - k,
        {
            if self.list[k].name == wanted {
                assert(self@[k as int].name@ == name@);
                return Some(self.list[k].id);
            }
            k += 1;
        }
        None
    }

    /// The names of the players, in the order of their seats.
    pub fn names(&self) -> (names: Vec<String>)
        ensures
            names@.len() == self@.len(),
            forall|k: int| 0 <= k < self@.len() ==> (#[trigger] names@[k])@ == self@[k].name@,
    {
        let mut names: Vec<String> = Vec::new();
        let mut k: usize = 0;
        while k < self.list.len()
            invariant
                k <= self.list@.len(),
                names@.len() == k,
                forall|j: int| 0 <= j < k ==> (#[trigger] names@[j])@ == self.list@[j].name@,
            decreases self.list@.len() - k,
        {
            names.push(self.list[k].name.clone());
            k += 1;
        }
        names
    }

    /// The players, in the order of their seats.
    pub fn list(&self) -> (list: &Vec<Player>)
        ensures
            list@ == self@,
    {
        &self.list
    }

    /// Whether each player's score, raised by that of its seat in `scores`,
    /// stays within the range of `i16`.
    pub open spec fn can_take(&self, scores: [i16; 4]) -> bool {
        forall|k: int|
            0 <= k < self@.len() && k < 4 ==> i16::MIN <= (#[trigger] self@[k]).score + scores@[k]
                <= i16::MAX
    }

    /// Adds to each player's score that of its seat in `scores`.
    ///
    /// Fails where the scores do not sum to zero; no score changes then.
    /// Takes scores that, where they sum to zero, leave each player's score
    /// within the range of `i16`.
    pub fn update_score(&mut self, scores: &[i16; 4]) -> (r: Result<(), InputError>)
        requires
            total(scores_of(*scores)) == 0 ==> old(self).can_take(*scores),
        ensures
            old(self).wf() ==> final(self).wf(),
            final(self)@.len() == old(self)@.len(),
            forall|k: int|
                0 <= k < old(self)@.len() ==> {
                    &&& (#[trigger] final(self)@[k]).name == old(self)@[k].name
                    &&& final(self)@[k].id == old(self)@[k].id
                },
            match r {
                Ok(()) => {
                    &&& total(scores_of(*scores)) == 0
                    &&& forall|k: int|
                        0 <= k < old(self)@.len() ==> (#[trigger] final(self)@[k]).score == if k
                            < 4 {
                            old(self)@[k].score + scores@[k]
                        } else {
                            old(self)@[k].score as int
                        }
                },
                Err(e) => {
                    &&& total(scores_of(*scores)) != 0
                    &&& e is WrongScore
                    &&& final(self)@ == old(self)@
                },
            },
    {
        let sum: i32 = scores[0] as i32 + scores[1] as i32 + scores[2] as i32 + scores[3] as i32;
        if sum != 0 {
            return Err(InputError::WrongScore);
        }
        let mut k: usize = 0;
        while k < self.list.len() && k < 4
            invariant
                k <= 4,
                self.list@.len() == old(self)@.len(),
                old(self).can_take(*scores),
                old(self)@ == old(self).list@,
                forall|j: int|
                    0 <= j < self.list@.len() ==> {
                        &&& (#[trigger] self.list@[j]).name == old(self)@[j].name
                        &&& self.list@[j].id == old(self)@[j].id
                        &&& self.list@[j].score == if j < k {
                            old(self)@[j].score + scores@[j]
                        } else {
                            old(self)@[j].score as int
                        }
                    },
            decreases 4 - k,
        {
            let raised: i16 = self.list[k].score + scores[k];
            self.list[k].score = raised;
            k += 1;
        }
        Ok(())
    }
}

} // verus!
