//! Contracts: a gamemode with the rules of its bidding and its contractors.

use crate::contractors::{Contractors, ContractorsKind};
use crate::gamemodes::{Emballage, Gamemodes, Misere, Seul};
use crate::scoring::{Score, TOTAL_TRICKS};
use vstd::prelude::*;

verus! {

/// What a hand is played under.
#[derive(Clone, Copy, Debug, PartialEq, Eq, Structural)]
pub struct Contract {
    /// The highest bid, in the gamemodes where the contractors bid.
    pub max_bid: Option<i16>,
    /// The shape of the contractors.
    pub contractors_kind: ContractorsKind,
    /// The least number of contractors; it decides for the kind `Other`.
    pub min_contractors: usize,
    pub gamemode: Gamemodes,
}

impl Contract {
    /// Whether the contract is one of the game: it has a bid ceiling exactly
    /// where its gamemode has bids, and asks for as many contractors as its
    /// kind allows.
    pub open spec fn wf(&self) -> bool {
        &&& self.max_bid is Some <==> self.gamemode.supports_bidding()
        &&& match self.contractors_kind {
            ContractorsKind::Solo => self.min_contractors == 1,
            ContractorsKind::Team => self.min_contractors == 2,
            ContractorsKind::Other => 1 <= self.min_contractors <= 3,
        }
    }

    /// Whether the contract takes `contractors`: they have its kind and, for
    /// the kind `Other`, are not fewer than it asks for.
    pub open spec fn admits(&self, contractors: &Contractors) -> bool {
        &&& contractors.kind_spec() == self.contractors_kind
        &&& contractors is Other ==> contractors.ids().len() >= self.min_contractors
    }

    /// Whether the contract takes `bid`: it has a bid ceiling, and the bid
    /// lies between the tricks to win and that ceiling.
    pub open spec fn allows_bid(&self, bid: i16) -> bool {
        self.max_bid matches Some(max) && self.gamemode.min_tricks_spec() <= bid <= max
    }

    /// The least number of tricks with which the contract is made.
    pub fn min_tricks(&self) -> (least: i16)
        ensures
            least == self.gamemode.min_tricks_spec(),
    {
        self.gamemode.min_tricks()
    }

    /// The score of one contractor who took `tricks`. Takes the tricks at
    /// which an `i16` can hold it.
    pub fn get_score(&self, tricks: i16) -> (score: i16)
        requires
            self.gamemode.accepts(tricks as int),
            i16::MIN <= self.gamemode.coefficient(tricks as int).apply(
                self.gamemode.points(tricks as int),
            ) <= i16::MAX,
        ensures
            score == self.gamemode.coefficient(tricks as int).apply(
                self.gamemode.points(tricks as int),
            ),
    {
        self.gamemode.get_single_player_score(tricks)
    }
}

/// Emballage for a team, eight tricks to win, bids up to all the tricks.
pub open spec fn emballage_contract() -> Contract {
    Contract {
        max_bid: Some(TOTAL_TRICKS),
        contractors_kind: ContractorsKind::Team,
        min_contractors: 2,
        gamemode: Gamemodes::Emballage(
            Emballage { tricks_to_win: 8, min_points: 2, points_per_suppl_trick: 1 },
        ),
    }
}

/// Seul for one player, six tricks to win, bids up to eight.
pub open spec fn seul_contract() -> Contract {
    Contract {
        max_bid: Some(8i16),
        contractors_kind: ContractorsKind::Solo,
        min_contractors: 1,
        gamemode: Gamemodes::Seul(
            Seul {
                tricks_to_win: 6,
                min_points: 6,
                points_per_suppl_trick: 3,
                max_tricks_allowed: 8,
            },
        ),
    }
}

/// A Misere for one to three players, without bids.
pub open spec fn misere_contract(gamemode: Gamemodes) -> Contract {
    Contract {
        max_bid: None,
        contractors_kind: ContractorsKind::Other,
        min_contractors: 1,
        gamemode,
    }
}

/// The contracts of the default game, in the order of their rank.
pub open spec fn default_catalog() -> Seq<Contract> {
    seq![
        emballage_contract(),
        seul_contract(),
        misere_contract(Gamemodes::PetiteMisere(Misere { min_points: 12 })),
        misere_contract(Gamemodes::GrandeMisere(Misere { min_points: 24 })),
        misere_contract(Gamemodes::GrandeMisereSurTrou(Misere { min_points: 36 })),
    ]
}

/// The contracts of the default game: Emballage, Seul and the three Miseres.
pub fn default_contracts() -> (contracts: Vec<Contract>)
    ensures
        contracts@ == default_catalog(),
        forall|k: int| 0 <= k < contracts@.len() ==> (#[trigger] contracts@[k]).wf(),
{
    let tricks_to_win: i16 = 8;
    let rules = Emballage::new(tricks_to_win, 2, 1);
    let emballage = Contract {
        max_bid: Some(TOTAL_TRICKS),
        gamemode: Gamemodes::Emballage(rules),
        contractors_kind: ContractorsKind::Team,
        min_contractors: 2,
    };
    let max_tricks_allowed: i16 = 8;
    let rules = Seul::new(6, 6, 3, max_tricks_allowed);

    let seul = Contract {
        max_bid: Some(max_tricks_allowed),
        gamemode: Gamemodes::Seul(rules),
        contractors_kind: ContractorsKind::Solo,
        min_contractors: 1,
    };

    let rules = Misere::new(12);

    let petite_misere = Contract {
        max_bid: None,
        contractors_kind: ContractorsKind::Other,
        min_contractors: 1,
        gamemode: Gamemodes::PetiteMisere(rules),
    };

    let rules = Misere::new(24);

    let grande_misere = Contract {
        max_bid: None,
        contractors_kind: ContractorsKind::Other,
        min_contractors: 1,
        gamemode: Gamemodes::GrandeMisere(rules),
    };

    let rules = Misere::new(36);

    let grande_misere_sur_trou = Contract {
        max_bid: None,
        contractors_kind: ContractorsKind::Other,
        min_contractors: 1,
        gamemode: Gamemodes::GrandeMisereSurTrou(rules),
    };

    let contracts = vec![emballage, seul, petite_misere, grande_misere, grande_misere_sur_trou];
    assert(contracts@ =~= default_catalog());
    contracts
}

} // verus!
