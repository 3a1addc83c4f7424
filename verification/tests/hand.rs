use std::sync::Arc;
use whist::contractors::{Contractors, ContractorsScore};
use whist::contracts::{default_contracts, Contract};
use whist::distribution::calculate_players_score;
use whist::error::{GameError, HandBuildError};
use whist::hand::{HandBuilder, InputRequest};
use whist::players::{PlayerId, PlayerIdAndScore};
use whist::rules::{select_rules, GameRules};
use whist::scoring::{Score, TOTAL_TRICKS};

#[test]
fn build_hand() {
    let scorables: Vec<_> = select_rules(GameRules::Dutch);
    let emballage = Arc::new(scorables[0].clone());

    let mut builder = HandBuilder::new(emballage);

    assert!(matches!(
        builder.next_request(),
        InputRequest::ContractorsTeam
    ));
    let player1 = PlayerId::new(0);
    let player2 = PlayerId::new(1);
    let c = Contractors::Team(player1.clone(), player2.clone());
    builder.set_contractors(c).unwrap();

    let (min, max) = match builder.next_request() {
        InputRequest::Bid { min, max } => (min, max),
        other => panic!("Expected Bid request, got {other:?}"),
    };
    assert_eq!(min, 8);
    assert_eq!(max, TOTAL_TRICKS);

    let bid = 10;
    assert!(bid <= max);
    builder.set_bid(bid).unwrap();

    assert!(matches!(builder.next_request(), InputRequest::Done));

    let hand = builder.build().unwrap();

    match hand.contractors() {
        Contractors::Team(a, b) => {
            // Keep these checks aligned with the `c` above.
            assert_eq!(*a, player1);
            assert_eq!(*b, player2);
        }
        _ => panic!("Expected Contractors::Team"),
    }

    assert_eq!(hand.bid(), Some(bid));
}

#[test]
fn build_hand_picolo() {
    let scorables = select_rules(GameRules::French);
    let picolo = Arc::new(scorables[2].clone());

    let mut builder = HandBuilder::new(picolo);

    assert!(matches!(
        builder.next_request(),
        InputRequest::ContractorsSolo
    ));

    let player = PlayerId::new(0);
    builder
        .set_contractors(Contractors::Solo(player.clone()))
        .unwrap();

    let bid = 4;
    builder.set_bid(bid).unwrap();

    assert!(builder.bid().is_none());

    assert!(matches!(builder.next_request(), InputRequest::Done));

    let hand = builder.build().unwrap();

    match hand.contractors() {
        Contractors::Solo(p) => assert_eq!(*p, player),
        _ => panic!("Expected Contractors::Solo"),
    }

    assert!(hand.bid().is_none());
}

#[test]
fn build_hand_failures() {
    let scorables = select_rules(GameRules::Dutch);
    let emballage = Arc::new(scorables[0].clone());

    let builder = HandBuilder::new(Arc::clone(&emballage));
    let err = builder.build().unwrap_err();
    assert!(matches!(err, HandBuildError::Contractors("No contractors")));
    assert!(matches!(GameError::from(err), GameError::HandBuildError(_)));

    let mut builder = HandBuilder::new(Arc::clone(&emballage));

    let solo_player = PlayerId::new(0);
    let err = builder
        .set_contractors(Contractors::Solo(solo_player))
        .unwrap_err();

    assert!(matches!(
        err,
        HandBuildError::Contractors("Contractors type does not match")
    ));
    assert!(matches!(GameError::from(err), GameError::HandBuildError(_)));

    let mut builder = HandBuilder::new(emballage);

    let p1 = PlayerId::new(0);
    let p2 = PlayerId::new(1);
    builder.set_contractors(Contractors::Team(p1, p2)).unwrap();

    assert!(matches!(builder.next_request(), InputRequest::Bid { .. }));

    let err = builder.build().unwrap_err();
    assert!(matches!(err, HandBuildError::Bid("Missing bid")));
    assert!(matches!(GameError::from(err), GameError::HandBuildError(_)));
}

#[test]
fn mod_dutch() {
    let scorables = default_contracts();
    let emballage = &scorables[0];
    let emballage_score = emballage.gamemode.get_single_player_score(8);

    let expected_score = 2;

    assert_eq!(expected_score, emballage_score);
}

#[test]
fn rules_dutch() {
    let scorables = select_rules(GameRules::Dutch);
    let emballage = &scorables[0];
    let emballage_score = emballage.get_score(8);

    let expected_score = 2;

    assert_eq!(expected_score, emballage_score);
}

fn contract(index: usize) -> Arc<Contract> {
    Arc::new(default_contracts()[index])
}

#[test]
fn a_new_builder_holds_nothing() {
    let builder = HandBuilder::new(contract(0));
    assert_eq!(*builder.contract(), default_contracts()[0]);
    assert!(builder.contractors().is_none());
    assert!(builder.bid().is_none());
    assert_eq!(builder.tricks().value(), 0);
}

#[test]
fn rejected_contractors_leave_the_builder_as_it_was() {
    let mut builder = HandBuilder::new(contract(0));
    assert!(builder.set_contractors(Contractors::Solo(PlayerId(0))).is_err());
    assert!(builder
        .set_contractors(Contractors::Other(vec![PlayerId(0), PlayerId(1)]))
        .is_err());
    assert!(builder.contractors().is_none());
    assert_eq!(builder.next_request(), InputRequest::ContractorsTeam);

    builder
        .set_contractors(Contractors::Team(PlayerId(2), PlayerId(3)))
        .unwrap();
    assert!(builder.set_contractors(Contractors::Solo(PlayerId(0))).is_err());
    assert!(matches!(
        builder.contractors(),
        Some(Contractors::Team(PlayerId(2), PlayerId(3)))
    ));
}

#[test]
fn a_bid_lies_between_the_tricks_to_win_and_the_highest_bid() {
    let mut builder = HandBuilder::new(contract(1));
    builder.set_contractors(Contractors::Solo(PlayerId(1))).unwrap();
    assert_eq!(builder.next_request(), InputRequest::Bid { min: 6, max: 8 });

    let err = builder.set_bid(5).unwrap_err();
    assert!(matches!(err, HandBuildError::Bid("Bid out of range")));
    assert_eq!(err.message(), "Bid out of range");
    assert!(builder.set_bid(9).is_err());
    assert!(builder.bid().is_none());

    builder.set_bid(6).unwrap();
    assert_eq!(builder.bid(), Some(6));
    builder.set_bid(8).unwrap();
    assert_eq!(builder.bid(), Some(8));
    assert!(builder.set_bid(9).is_err());
    assert_eq!(builder.bid(), Some(8));
    assert_eq!(builder.next_request(), InputRequest::Done);
}

#[test]
fn tricks_are_brought_into_range() {
    let mut builder = HandBuilder::new(contract(0));
    builder.set_tricks(9);
    assert_eq!(builder.tricks().value(), 9);
    builder.set_tricks(-3);
    assert_eq!(builder.tricks().value(), 0);
    builder.set_tricks(20);
    assert_eq!(builder.tricks().value(), 13);
    assert!(builder.contractors().is_none());
    assert!(builder.bid().is_none());
}

#[test]
fn other_contractors_are_not_fewer_than_asked() {
    let misere = default_contracts()[2];
    let mut builder = HandBuilder::new(Arc::new(misere));
    assert_eq!(
        builder.next_request(),
        InputRequest::ContractorsOther { count: 1 }
    );
    assert!(builder.set_contractors(Contractors::Other(vec![])).is_err());
    assert!(builder.set_contractors(Contractors::Solo(PlayerId(0))).is_err());
    builder
        .set_contractors(Contractors::Other(vec![PlayerId(0)]))
        .unwrap();
    assert_eq!(builder.next_request(), InputRequest::Done);

    let two = Contract { min_contractors: 2, ..misere };
    let mut builder = HandBuilder::new(Arc::new(two));
    assert_eq!(
        builder.next_request(),
        InputRequest::ContractorsOther { count: 2 }
    );
    assert!(builder
        .set_contractors(Contractors::Other(vec![PlayerId(0)]))
        .is_err());
    builder
        .set_contractors(Contractors::Other(vec![PlayerId(0), PlayerId(3)]))
        .unwrap();
    assert!(builder.build().is_ok());
}

#[test]
fn all_requests_lists_what_is_still_lacking() {
    let mut builder = HandBuilder::new(contract(0));
    assert_eq!(
        builder.all_requests(),
        vec![
            InputRequest::ContractorsTeam,
            InputRequest::Bid { min: 8, max: 13 }
        ]
    );
    builder.set_bid(9).unwrap();
    assert_eq!(builder.all_requests(), vec![InputRequest::ContractorsTeam]);
    assert_eq!(builder.next_request(), InputRequest::ContractorsTeam);
    builder
        .set_contractors(Contractors::Team(PlayerId(0), PlayerId(1)))
        .unwrap();
    assert_eq!(builder.all_requests(), vec![]);
    assert_eq!(builder.next_request(), InputRequest::Done);

    let builder = HandBuilder::new(contract(3));
    assert_eq!(
        builder.all_requests(),
        vec![InputRequest::ContractorsOther { count: 1 }]
    );
}

#[test]
fn a_hand_scores_at_the_tricks_over_its_bid() {
    let mut builder = HandBuilder::new(contract(0));
    builder
        .set_contractors(Contractors::Team(PlayerId(0), PlayerId(1)))
        .unwrap();
    builder.set_bid(9).unwrap();
    builder.set_tricks(10);
    let hand = builder.build().unwrap();
    assert_eq!(hand.tricks().value(), 10);
    assert_eq!(hand.min_tricks(), 8);
    // One trick over the bid counts as one trick over the tricks to win.
    assert_eq!(hand.get_score(), 3);
    assert_eq!(hand.get_single_player_score(7), -8);
    assert_eq!(hand.gamemode_name(), "Emballage");
}

#[test]
fn a_hand_of_seul_counts_no_trick_beyond_the_highest_bid() {
    let mut builder = HandBuilder::new(contract(1));
    builder.set_contractors(Contractors::Solo(PlayerId(2))).unwrap();
    builder.set_bid(6).unwrap();
    builder.set_tricks(11);
    let hand = builder.build().unwrap();
    assert_eq!(hand.get_score(), 12);
    assert_eq!(*hand.contract(), default_contracts()[1]);
}

#[test]
fn a_hand_gives_each_contractor_its_score() {
    let mut builder = HandBuilder::new(contract(0));
    builder
        .set_contractors(Contractors::Team(PlayerId(3), PlayerId(1)))
        .unwrap();
    builder.set_bid(8).unwrap();
    builder.set_tricks(8);
    let hand = builder.build().unwrap();

    let scored = hand.get_contractors_score();
    assert_eq!(scored, *hand.contractors());
    assert_eq!(
        scored.to_entries(),
        vec![
            PlayerIdAndScore::new(PlayerId(3), 2),
            PlayerIdAndScore::new(PlayerId(1), 2)
        ]
    );
    let scores = calculate_players_score(&scored).unwrap();
    assert_eq!(scores, [-2, 2, -2, 2]);

    let recap = hand.as_recap(scores);
    assert_eq!(recap.scores, [-2, 2, -2, 2]);
    assert_eq!(recap.gamemode_name, "Emballage");
    assert_eq!(recap.tricks, 8);
    assert_eq!(recap.bid, Some(8));
}

#[test]
fn a_hand_of_misere_scores_each_of_its_contractors() {
    let mut builder = HandBuilder::new(contract(4));
    builder
        .set_contractors(Contractors::Other(vec![PlayerId(0), PlayerId(2), PlayerId(3)]))
        .unwrap();
    builder.set_tricks(0);
    let hand = builder.build().unwrap();
    assert_eq!(hand.gamemode_name(), "Grande Misere sur trou");
    assert_eq!(hand.get_score(), 36);
    let scored = hand.get_contractors_score();
    assert!(matches!(scored, ContractorsScore::Other(_)));
    let scores = calculate_players_score(&scored).unwrap();
    assert_eq!(scores, [36, -108, 36, 36]);
    let recap = hand.as_recap(scores);
    assert_eq!(recap.bid, None);
    assert_eq!(recap.tricks, 0);
}

#[test]
fn the_default_contracts() {
    let contracts = default_contracts();
    assert_eq!(contracts.len(), 5);
    let names: Vec<&str> = contracts.iter().map(|c| c.gamemode.name()).collect();
    assert_eq!(
        names,
        vec![
            "Emballage",
            "Seul",
            "Petite Misere",
            "Grande Misere",
            "Grande Misere sur trou"
        ]
    );
    assert_eq!(contracts[0].max_bid, Some(13));
    assert_eq!(contracts[1].max_bid, Some(8));
    assert_eq!(contracts[0].min_tricks(), 8);
    assert_eq!(contracts[1].min_tricks(), 6);
    for misere in &contracts[2..] {
        assert_eq!(misere.max_bid, None);
        assert_eq!(misere.min_tricks(), 0);
        assert_eq!(misere.min_contractors, 1);
    }
    assert_eq!(contracts[2].get_score(0), 12);
    assert_eq!(contracts[3].get_score(0), 24);
    assert_eq!(contracts[4].get_score(1), -72);
}

#[test]
fn the_contracts_of_each_set_of_rules() {
    let dutch = select_rules(GameRules::Dutch);
    let french = select_rules(GameRules::French);
    assert_eq!(dutch.len(), 2);
    assert_eq!(french.len(), 3);
    assert_eq!(dutch[..], french[..2]);
    assert_eq!(dutch[..], default_contracts()[..2]);
    assert_eq!(french[2].gamemode.name(), "Picolo");
    assert_eq!(french[2].max_bid, None);
    assert_eq!(french[2].min_tricks(), 1);
    assert_eq!(french[2].get_score(1), 12);
    assert_eq!(french[2].get_score(0), -24);
    assert_eq!(french[2].get_score(3), -24);
}
