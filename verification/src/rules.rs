//! The contracts that each set of rules plays with.

use crate::contractors::ContractorsKind;
use crate::contracts::{emballage_contract, seul_contract, Contract};
use crate::gamemodes::{Emballage, Gamemodes, Picolo, Seul};
use crate::scoring::TOTAL_TRICKS;
use vstd::prelude::*;

verus! {

/// The sets of rules of the game.
#[derive(Clone, Copy, Debug, PartialEq, Eq, Structural)]
pub enum GameRules {
    Dutch,
    French,
}

/// Picolo for one player, without bids.
pub open spec fn picolo_contract() -> Contract {
    Contract {
        max_bid: None,
        contractors_kind: ContractorsKind::Solo,
        min_contractors: 1,
        gamemode: Gamemodes::Picolo(Picolo { min_points: 12 }),
    }
}

/// The contracts of `rules`: Emballage and Seul, and Picolo with them in the
/// French rules.
pub open spec fn catalog(rules: GameRules) -> Seq<Contract> {
    match rules {
        GameRules::Dutch => seq![emballage_contract(), seul_contract()],
        GameRules::French => seq![emballage_contract(), seul_contract(), picolo_contract()],
    }
}

/// The contracts that `rules` plays with.
pub fn select_rules(rules: GameRules) -> (contracts: Vec<Contract>)
    ensures
        contracts@ == catalog(rules),
        forall|k: int| 0 <= k < contracts@.len() ==> (#[trigger] contracts@[k]).wf(),
{
    match rules {
        GameRules::Dutch => {
            let tricks_to_win: i16 = 8;
            let rules = Emballage::new(tricks_to_win, 2, 1);
            let emballage = Contract {
                max_bid: Some(TOTAL_TRICKS),
                gamemode: Gamemodes::Emballage(rules),
                contractors_kind: ContractorsKind::Team,
                min_contractors: 2,
            };
            let max_tricks_allowed: i16 = 8;
            let rules = Seul::new(6, 6, 3, max_tricks_allowed);

            let seul = Contract {
                max_bid: Some(max_tricks_allowed),
                gamemode: Gamemodes::Seul(rules),
                contractors_kind: ContractorsKind::Solo,
                min_contractors: 1,
            };

            let contracts = vec![emballage, seul];
            assert(contracts@ =~= catalog(GameRules::Dutch));
            contracts
        },
        GameRules::French => {
            let tricks_to_win: i16 = 8;
            let rules = Emballage::new(tricks_to_win, 2, 1);
            let emballage = Contract {
                max_bid: Some(TOTAL_TRICKS),
                gamemode: Gamemodes::Emballage(rules),
                contractors_kind: ContractorsKind::Team,
                min_contractors: 2,
            };
            let max_tricks_allowed: i16 = 8;
            let rules = Seul::new(6, 6, 3, max_tricks_allowed);

            let seul = Contract {
                max_bid: Some(max_tricks_allowed),
                gamemode: Gamemodes::Seul(rules),
                contractors_kind: ContractorsKind::Solo,
                min_contractors: 1,
            };

            let rules = Picolo::new(12);

            let picolo = Contract {
                max_bid: None,
                gamemode: Gamemodes::Picolo(rules),
                contractors_kind: ContractorsKind::Solo,
                min_contractors: 1,
            };

            let contracts = vec![emballage, seul, picolo];
            assert(contracts@ =~= catalog(GameRules::French));
            contracts
        },
    }
}

} // verus!
