//! Collecting what a hand needs, step by step, and the hand that results.
//!
//! A [`HandBuilder`] starts from a contract and says with
//! [`HandBuilder::next_request`] what it still lacks. Whoever drives it gets
//! that from the players and hands it over with one of the setters, which
//! take it only if the contract allows it. Once nothing is lacking,
//! [`HandBuilder::build`] gives the [`Hand`].

use crate::contractors::{Contractors, ContractorsKind, ContractorsScore};
use crate::contracts::Contract;
use crate::error::HandBuildError;
use crate::players::{PlayerId, PlayerIdAndScore};
use crate::scoring::{clamp_int, PointsCoefficient, Score, Tricks};
use std::sync::Arc;
use vstd::prelude::*;
use vstd::string::StringExecFns;

verus! {

/// What a builder asks for next.
#[derive(Clone, Copy, Debug, PartialEq, Eq, Structural)]
pub enum InputRequest {
    /// The one player who takes the contract on.
    ContractorsSolo,
    /// The two players who take the contract on.
    ContractorsTeam,
    /// The players who take the contract on, at least `count` of them.
    ContractorsOther { count: usize },
    /// A bid between `min` and `max`.
    Bid { min: i16, max: i16 },
    /// Nothing: the hand can be built.
    Done,
    /// Nothing: the hand was given up. No builder asks for this; it is for
    /// whoever drives one.
    Cancel,
}

/// What a builder holds.
pub struct HandBuilderView {
    pub contract: Contract,
    pub contractors: Option<Contractors>,
    pub bid: Option<i16>,
    pub tricks: Tricks,
}

impl HandBuilderView {
    /// The request for the contractors that the contract asks for.
    pub open spec fn contractors_request(&self) -> InputRequest {
        match self.contract.contractors_kind {
            ContractorsKind::Solo => InputRequest::ContractorsSolo,
            ContractorsKind::Team => InputRequest::ContractorsTeam,
            ContractorsKind::Other => InputRequest::ContractorsOther {
                count: self.contract.min_contractors,
            },
        }
    }

    /// Whether the contractors are still to be named.
    pub open spec fn lacks_contractors(&self) -> bool {
        self.contractors is None
    }

    /// Whether a bid is needed and still to be made.
    pub open spec fn lacks_bid(&self) -> bool {
        self.bid is None && self.contract.max_bid is Some
    }

    /// The request for a bid, where the contract has bids.
    pub open spec fn bid_request(&self) -> InputRequest
        recommends
            self.contract.max_bid is Some,
    {
        InputRequest::Bid {
            min: self.contract.gamemode.min_tricks_spec() as i16,
            max: self.contract.max_bid->Some_0,
        }
    }

    /// What is to be asked next: the contractors first, then the bid.
    pub open spec fn next_request(&self) -> InputRequest {
        if self.lacks_contractors() {
            self.contractors_request()
        } else if self.lacks_bid() {
            self.bid_request()
        } else {
            InputRequest::Done
        }
    }

    /// All that is still to be asked, in the order of asking.
    pub open spec fn all_requests(&self) -> Seq<InputRequest> {
        let contractors = if self.lacks_contractors() {
            seq![self.contractors_request()]
        } else {
            Seq::<InputRequest>::empty()
        };
        let bid = if self.lacks_bid() {
            seq![self.bid_request()]
        } else {
            Seq::<InputRequest>::empty()
        };
        contractors + bid
    }
}

/// Collects the contractors, the bid and the tricks of a hand.
#[derive(Debug)]
pub struct HandBuilder {
    contract: Arc<Contract>,
    contractors: Option<Contractors>,
    bid: Option<i16>,
    tricks: Tricks,
}

impl View for HandBuilder {
    type V = HandBuilderView;

    closed spec fn view(&self) -> HandBuilderView {
        HandBuilderView {
            contract: *self.contract,
            contractors: self.contractors,
            bid: self.bid,
            tricks: self.tricks,
        }
    }
}

impl HandBuilder {
    /// A bid is only ever held where the contract allows it.
    #[verifier::type_invariant]
    closed spec fn bid_allowed(&self) -> bool {
        self.bid matches Some(bid) ==> self.contract.allows_bid(bid)
    }

    /// A builder for a hand under `contract`, with nothing collected yet.
    pub fn new(contract: Arc<Contract>) -> (builder: Self)
        ensures
            builder@.contract == *contract,
            builder@.contractors is None,
            builder@.bid is None,
            builder@.tricks@ == 0,
    {
        Self { contract, contractors: None, bid: None, tricks: Tricks::clamped(0) }
    }

    /// The contract of the hand.
    pub fn contract(&self) -> (contract: &Contract)
        ensures
            *contract == self@.contract,
    {
        &self.contract
    }

    /// The contractors, once they are named.
    pub fn contractors(&self) -> (contractors: &Option<Contractors>)
        ensures
            *contractors == self@.contractors,
    {
        &self.contractors
    }

    /// The bid, once it is made; it is one that the contract allows.
    pub fn bid(&self) -> (bid: Option<i16>)
        ensures
            bid == self@.bid,
            bid matches Some(b) ==> self@.contract.allows_bid(b),
    {
        proof {
            use_type_invariant(self);
        }
        self.bid
    }

    /// The tricks taken, zero until they are set.
    pub fn tricks(&self) -> (tricks: Tricks)
        ensures
            tricks == self@.tricks,
    {
        self.tricks
    }

    /// All that is still to be asked, in the order of asking.
    pub fn all_requests(&self) -> (requests: Vec<InputRequest>)
        ensures
            requests@ == self@.all_requests(),
    {
        let mut requests: Vec<InputRequest> = Vec::new();
        if self.contractors.is_none() {
            requests.push(self.contract_request());
        }
        if self.bid.is_none() {
            if let Some(req) = self.bid_request() {
                requests.push(req);
            }
        }
        assert(requests@ =~= self@.all_requests());
        requests
    }

    /// What is to be asked next; `Done` once the hand can be built. A builder
    /// never asks to cancel.
    pub fn next_request(&self) -> (request: InputRequest)
        ensures
            request == self@.next_request(),
            !(request is Cancel),
            request is Done <==> !self@.lacks_contractors() && !self@.lacks_bid(),
    {
        if self.contractors.is_none() {
            return self.contract_request();
        }
        if self.bid.is_none() {
            if let Some(req) = self.bid_request() {
                return req;
            }
        }
        InputRequest::Done
    }

    fn contract_request(&self) -> (request: InputRequest)
        ensures
            request == self@.contractors_request(),
    {
        match self.contract.contractors_kind {
            ContractorsKind::Solo => InputRequest::ContractorsSolo,
            ContractorsKind::Team => InputRequest::ContractorsTeam,
            ContractorsKind::Other => InputRequest::ContractorsOther {
                count: self.contract.min_contractors,
            },
        }
    }

    fn bid_request(&self) -> (request: Option<InputRequest>)
        ensures
            self@.contract.max_bid is None ==> request is None,
            self@.contract.max_bid is Some ==> request == Some(self@.bid_request()),
    {
        match self.contract.max_bid {
            Some(max) => {
                let min = self.contract.min_tricks();
                Some(InputRequest::Bid { min, max })
            },
            None => None,
        }
    }

    /// Names the contractors.
    ///
    /// They are taken where they have the kind that the contract asks for
    /// and, for the kind `Other`, are not fewer than it asks for. Otherwise
    /// the builder stays as it was.
    pub fn set_contractors(&mut self, c: Contractors) -> (r: Result<(), HandBuildError>)
        ensures
            match r {
                Ok(()) => old(self)@.contract.admits(&c) && final(self)@ == (HandBuilderView {
                    contractors: Some(c),
                    ..old(self)@
                }),
                Err(e) => {
                    &&& !old(self)@.contract.admits(&c)
                    &&& e matches HandBuildError::Contractors(reason)
                    &&& reason@ == "Contractors type does not match"@
                    &&& final(self)@ == old(self)@
                },
            },
    {
        proof {
            use_type_invariant(&*self);
        }
        let fits = match self.contract.contractors_kind {
            ContractorsKind::Solo => matches!(c, Contractors::Solo(_)),
            ContractorsKind::Team => matches!(c, Contractors::Team(_, _)),
            ContractorsKind::Other => match &c {
                Contractors::Other(ids) => ids.len() >= self.contract.min_contractors,
                _ => false,
            },
        };
        if !fits {
            return Err(HandBuildError::Contractors("Contractors type does not match"));
        }
        self.contractors = Some(c);
        Ok(())
    }

    /// Makes the bid.
    ///
    /// Under a contract without bids there is nothing to bid: the builder
    /// holds no bid afterwards. Under one with bids, the bid is taken where it
    /// lies between the tricks to win and the highest bid; otherwise the
    /// builder stays as it was.
    pub fn set_bid(&mut self, bid: i16) -> (r: Result<(), HandBuildError>)
        ensures
            match r {
                Ok(()) => {
                    &&& old(self)@.contract.max_bid is Some ==> old(self)@.contract.allows_bid(bid)
                    &&& final(self)@ == (HandBuilderView {
                        bid: if old(self)@.contract.max_bid is Some {
                            Some(bid)
                        } else {
                            None
                        },
                        ..old(self)@
                    })
                },
                Err(e) => {
                    &&& old(self)@.contract.max_bid is Some
                    &&& !old(self)@.contract.allows_bid(bid)
                    &&& e matches HandBuildError::Bid(reason)
                    &&& reason@ == "Bid out of range"@
                    &&& final(self)@ == old(self)@
                },
            },
    {
        proof {
            use_type_invariant(&*self);
        }
        if let Some(max_bid) = self.contract.max_bid {
            if !(self.contract.min_tricks() <= bid && bid <= max_bid) {
                return Err(HandBuildError::Bid("Bid out of range"));
            }
            self.bid = Some(bid);
        } else {
            self.bid = None;
        }
        Ok(())
    }

    /// Sets the tricks taken to the count nearest to `tricks` in `0..=13`.
    pub fn set_tricks(&mut self, tricks: i16)
        ensures
            final(self)@.tricks@ == clamp_int(
                tricks as int,
                Tricks::MIN as int,
                Tricks::MAX as int,
            ),
            final(self)@.contract == old(self)@.contract,
            final(self)@.contractors == old(self)@.contractors,
            final(self)@.bid == old(self)@.bid,
    {
        proof {
            use_type_invariant(&*self);
        }
        self.tricks = Tricks::clamped(tricks);
    }

    /// The hand, once the contractors are named and the bid is made where the
    /// contract has bids.
    pub fn build(self) -> (r: Result<Hand, HandBuildError>)
        ensures
            match r {
                Ok(hand) => {
                    &&& !self@.lacks_contractors()
                    &&& !self@.lacks_bid()
                    &&& hand@.contract == self@.contract
                    &&& Some(hand@.contractors) == self@.contractors
                    &&& hand@.bid == self@.bid
                    &&& hand@.tricks == self@.tricks
                },
                Err(HandBuildError::Contractors(reason)) => {
                    &&& self@.lacks_contractors()
                    &&& reason@ == "No contractors"@
                },
                Err(HandBuildError::Bid(reason)) => {
                    &&& !self@.lacks_contractors()
                    &&& self@.lacks_bid()
                    &&& reason@ == "Missing bid"@
                },
            },
    {
        proof {
            use_type_invariant(&self);
        }
        let contractors = match self.contractors {
            Some(contractors) => contractors,
            None => {
                return Err(HandBuildError::Contractors("No contractors"));
            },
        };
        if self.contract.max_bid.is_some() && self.bid.is_none() {
            return Err(HandBuildError::Bid("Missing bid"));
        }
        Ok(Hand { contract: self.contract, contractors, bid: self.bid, tricks: self.tricks })
    }
}

/// What a hand holds.
pub struct HandView {
    pub contract: Contract,
    pub contractors: Contractors,
    pub bid: Option<i16>,
    pub tricks: Tricks,
}

/// A hand as it was played: who contracted, what they bid and took.
#[derive(Debug)]
pub struct Hand {
    contract: Arc<Contract>,
    contractors: Contractors,
    bid: Option<i16>,
    tricks: Tricks,
}

impl View for Hand {
    type V = HandView;

    closed spec fn view(&self) -> HandView {
        HandView {
            contract: *self.contract,
            contractors: self.contractors,
            bid: self.bid,
            tricks: self.tricks,
        }
    }
}

impl HandView {
    /// The tricks that count for the score: `tricks` brought under the
    /// highest bid, less what the bid was above the tricks to win.
    pub open spec fn adjusted(&self, tricks: int) -> int {
        let counted = match self.contract.max_bid {
            Some(max) => clamp_int(tricks, 0, max as int),
            None => tricks,
        };
        match self.bid {
            Some(bid) => counted - (bid - self.contract.gamemode.min_tricks_spec()),
            None => counted,
        }
    }
}

impl Hand {
    /// A hand lacks nothing: it has a bid where its contract has bids, and
    /// one that the contract allows.
    #[verifier::type_invariant]
    closed spec fn complete(&self) -> bool {
        &&& self.contract.max_bid is Some ==> self.bid is Some
        &&& self.bid matches Some(bid) ==> self.contract.allows_bid(bid)
    }

    /// The contract of the hand.
    pub fn contract(&self) -> (contract: &Contract)
        ensures
            *contract == self@.contract,
    {
        &self.contract
    }

    /// The players who took the contract on.
    pub fn contractors(&self) -> (contractors: &Contractors)
        ensures
            *contractors == self@.contractors,
    {
        &self.contractors
    }

    /// The bid: there is one where the contract has bids, and it is one that
    /// the contract allows.
    pub fn bid(&self) -> (bid: Option<i16>)
        ensures
            bid == self@.bid,
            self@.contract.max_bid is Some ==> bid is Some,
            bid matches Some(b) ==> self@.contract.allows_bid(b),
    {
        proof {
            use_type_invariant(self);
        }
        self.bid
    }

    /// The tricks that the contractors took.
    pub fn tricks(&self) -> (tricks: Tricks)
        ensures
            tricks == self@.tricks,
    {
        self.tricks
    }

    /// The name of the gamemode that was played.
    pub fn gamemode_name(&self) -> (name: String)
        ensures
            name@ == self@.contract.gamemode.name_spec(),
    {
        String::from_str(self.contract.gamemode.name())
    }

    /// The score of each contractor for the tricks of this hand. Takes a hand
    /// whose score an `i16` can hold.
    pub fn get_score(&self) -> (score: i16)
        requires
            self.accepts(self@.tricks@),
            i16::MIN <= self.coefficient(self@.tricks@).apply(self.points(self@.tricks@))
                <= i16::MAX,
        ensures
            score == self.coefficient(self@.tricks@).apply(self.points(self@.tricks@)),
    {
        self.get_single_player_score(self.tricks.value() as i16)
    }

    /// The contractors, each with the score of this hand. Takes a hand whose
    /// score an `i16` can hold.
    pub fn get_contractors_score(&self) -> (scored: ContractorsScore)
        requires
            self.accepts(self@.tricks@),
            i16::MIN <= self.coefficient(self@.tricks@).apply(self.points(self@.tricks@))
                <= i16::MAX,
        ensures
            scored.kind_spec() == self@.contractors.kind_spec(),
            scored.ids() == self@.contractors.ids(),
            forall|k: int|
                0 <= k < scored.entries().len() ==> (#[trigger] scored.entries()[k]).score
                    == self.coefficient(self@.tricks@).apply(self.points(self@.tricks@)),
    {
        let score = self.get_score();
        match &self.contractors {
            Contractors::Solo(id) => {
                let scored = ContractorsScore::Solo(PlayerIdAndScore::new(*id, score));
                assert(scored.ids() =~= self@.contractors.ids());
                scored
            },
            Contractors::Team(first, second) => {
                let scored = ContractorsScore::Team(
                    PlayerIdAndScore::new(*first, score),
                    PlayerIdAndScore::new(*second, score),
                );
                assert(scored.ids() =~= self@.contractors.ids());
                scored
            },
            Contractors::Other(ids) => {
                let mut entries: Vec<PlayerIdAndScore> = Vec::new();
                let mut k: usize = 0;
                while k < ids.len()
                    invariant
                        k <= ids@.len(),
                        entries@.len() == k,
                        forall|j: int|
                            0 <= j < k ==> #[trigger] entries@[j] == (PlayerIdAndScore {
                                id: ids@[j],
                                score,
                            }),
                    decreases ids@.len() - k,
                {
                    entries.push(PlayerIdAndScore::new(ids[k], score));
                    k += 1;
                }
                let scored = ContractorsScore::Other(entries);
                assert(scored.ids() =~= self@.contractors.ids());
                scored
            },
        }
    }

    /// What is kept of the hand, with the scores that the four players made.
    pub fn as_recap(self, scores: [i16; 4]) -> (recap: HandRecap)
        ensures
            recap.scores == scores,
            recap.gamemode_name@ == self@.contract.gamemode.name_spec(),
            recap.tricks == self@.tricks@,
            recap.bid == self@.bid,
    {
        HandRecap {
            scores,
            gamemode_name: self.gamemode_name(),
            tricks: self.tricks.value() as i16,
            bid: self.bid,
        }
    }
}

/// A hand scores with the formula of its gamemode, at the tricks that count
/// under its contract and bid.
impl Score for Hand {
    open spec fn min_tricks_spec(&self) -> int {
        self@.contract.gamemode.min_tricks_spec()
    }

    open spec fn accepts(&self, tricks: int) -> bool {
        &&& self@.contract.max_bid matches Some(max) ==> max >= 0
        &&& i16::MIN <= self@.adjusted(tricks) <= i16::MAX
        &&& self@.contract.gamemode.accepts(self@.adjusted(tricks))
    }

    open spec fn points(&self, tricks: int) -> int {
        self@.contract.gamemode.points(self@.adjusted(tricks))
    }

    open spec fn coefficient(&self, tricks: int) -> PointsCoefficient {
        self@.contract.gamemode.coefficient(self@.adjusted(tricks))
    }

    fn min_tricks(&self) -> (least: i16) {
        self.contract.min_tricks()
    }

    fn calculate_score(&self, tricks: i16) -> (r: (i16, PointsCoefficient)) {
        let counted: i16 = match self.contract.max_bid {
            Some(max) => if tricks < 0 {
                0
            } else if tricks > max {
                max
            } else {
                tricks
            },
            None => tricks,
        };
        let adjusted: i32 = match self.bid {
            Some(bid) => {
                let diff: i32 = bid as i32 - self.contract.min_tricks() as i32;
                counted as i32 - diff
            },
            None => counted as i32,
        };
        self.contract.gamemode.calculate_score(adjusted as i16)
    }
}

/// What is kept of a hand once it is scored.
#[derive(Debug)]
pub struct HandRecap {
    /// The score of each of the four players, by seat.
    pub scores: [i16; 4],
    pub gamemode_name: String,
    pub tricks: i16,
    pub bid: Option<i16>,
}

impl Clone for HandRecap {
    fn clone(&self) -> (copy: Self)
        ensures
            copy.scores == self.scores,
            copy.gamemode_name@ == self.gamemode_name@,
            copy.tricks == self.tricks,
            copy.bid == self.bid,
    {
        HandRecap {
            scores: self.scores,
            gamemode_name: self.gamemode_name.clone(),
            tricks: self.tricks,
            bid: self.bid,
        }
    }
}

} // verus!
