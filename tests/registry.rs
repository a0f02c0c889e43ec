use governance::{Proposal, ProposalRegistry, VoteError};

fn tallies(r: &ProposalRegistry, id: u64) -> (u64, u64) {
    let p = r.get_proposal(id).expect("proposal exists");
    (p.yes_votes, p.no_votes)
}

fn same(a: &Proposal, b: &Proposal) -> bool {
    a.id == b.id
        && a.title == b.title
        && a.description == b.description
        && a.yes_votes == b.yes_votes
        && a.no_votes == b.no_votes
        && a.voters == b.voters
}

#[test]
fn empty_registry_has_nothing() {
    let r = ProposalRegistry::new();
    assert!(r.list_proposals().is_empty());
    assert!(r.get_proposal(0).is_none());
}

#[test]
fn create_then_get_returns_fresh_proposal() {
    let mut r = ProposalRegistry::new();
    let id = r.create_proposal("T".to_string(), "D".to_string());
    let p = r.get_proposal(id).expect("created proposal is found");
    assert_eq!(p.id, id);
    assert_eq!(p.title, "T");
    assert_eq!(p.description, "D");
    assert_eq!(p.yes_votes, 0);
    assert_eq!(p.no_votes, 0);
    assert!(p.voters.is_empty());
}

#[test]
fn empty_title_and_description_are_accepted() {
    let mut r = ProposalRegistry::new();
    let id = r.create_proposal(String::new(), String::new());
    let p = r.get_proposal(id).unwrap();
    assert_eq!(p.title, "");
    assert_eq!(p.description, "");
}

#[test]
fn two_creates_are_both_listed_and_found() {
    let mut r = ProposalRegistry::new();
    let a = r.create_proposal("first".to_string(), "one".to_string());
    let b = r.create_proposal("second".to_string(), "two".to_string());
    assert_ne!(a, b);
    assert_eq!(a, 0);
    assert_eq!(b, 1);
    let all = r.list_proposals();
    assert_eq!(all.len(), 2);
    for p in &all {
        let found = r.get_proposal(p.id).expect("listed proposal is found");
        assert!(same(p, &found));
    }
    assert_eq!(all[0].title, "first");
    assert_eq!(all[1].title, "second");
}

#[test]
fn scenario_two_voters_then_repeat() {
    let mut r = ProposalRegistry::new();
    let p = r.create_proposal("T".to_string(), "D".to_string());
    assert_eq!(r.vote(p, "A".to_string(), true), Ok(()));
    assert_eq!(tallies(&r, p), (1, 0));
    assert_eq!(r.vote(p, "B".to_string(), false), Ok(()));
    assert_eq!(tallies(&r, p), (1, 1));
    assert_eq!(r.vote(p, "A".to_string(), true), Err(VoteError::AlreadyVoted));
    assert_eq!(r.vote(p, "A".to_string(), false), Err(VoteError::AlreadyVoted));
    assert_eq!(tallies(&r, p), (1, 1));
    assert_eq!(r.get_proposal(p).unwrap().voters, vec!["A".to_string(), "B".to_string()]);
}

#[test]
fn second_vote_by_same_identity_is_rejected() {
    let mut r = ProposalRegistry::new();
    let id = r.create_proposal("T".to_string(), "D".to_string());
    assert_eq!(r.vote(id, "alice".to_string(), false), Ok(()));
    let after_first = r.get_proposal(id).unwrap();
    assert_eq!(r.vote(id, "alice".to_string(), true), Err(VoteError::AlreadyVoted));
    let after_second = r.get_proposal(id).unwrap();
    assert!(same(&after_first, &after_second));
    assert_eq!((after_second.yes_votes, after_second.no_votes), (0, 1));
}

#[test]
fn vote_on_unknown_id_is_not_found() {
    let mut r = ProposalRegistry::new();
    let id = r.create_proposal("T".to_string(), "D".to_string());
    r.vote(id, "alice".to_string(), true).unwrap();
    let before = r.list_proposals();
    assert_eq!(r.vote(42, "bob".to_string(), true), Err(VoteError::NotFound(42)));
    let after = r.list_proposals();
    assert_eq!(before.len(), after.len());
    for (x, y) in before.iter().zip(after.iter()) {
        assert!(same(x, y));
    }
}

#[test]
fn vote_on_empty_registry_is_not_found() {
    let mut r = ProposalRegistry::new();
    assert_eq!(r.vote(0, "bob".to_string(), false), Err(VoteError::NotFound(0)));
    assert!(r.list_proposals().is_empty());
}

#[test]
fn tallies_track_voters_through_a_sequence() {
    let mut r = ProposalRegistry::new();
    let id = r.create_proposal("T".to_string(), "D".to_string());
    let votes = [("a", true), ("b", false), ("a", false), ("c", true), ("b", true), ("d", true)];
    for (who, yes) in votes {
        let _ = r.vote(id, who.to_string(), yes);
        let p = r.get_proposal(id).unwrap();
        assert_eq!(p.yes_votes + p.no_votes, p.voters.len() as u64);
    }
    assert_eq!(tallies(&r, id), (3, 1));
}

#[test]
fn votes_on_one_proposal_leave_others_alone() {
    let mut r = ProposalRegistry::new();
    let a = r.create_proposal("a".to_string(), String::new());
    let b = r.create_proposal("b".to_string(), String::new());
    assert_eq!(r.vote(a, "x".to_string(), true), Ok(()));
    assert_eq!(r.vote(b, "x".to_string(), false), Ok(()));
    assert_eq!(tallies(&r, a), (1, 0));
    assert_eq!(tallies(&r, b), (0, 1));
}

#[test]
fn returned_copies_are_independent() {
    let mut r = ProposalRegistry::new();
    let id = r.create_proposal("T".to_string(), "D".to_string());
    let mut copy = r.get_proposal(id).unwrap();
    copy.yes_votes = 99;
    copy.voters.push("mallory".to_string());
    copy.title.push('!');
    let fresh = r.get_proposal(id).unwrap();
    assert_eq!(fresh.yes_votes, 0);
    assert!(fresh.voters.is_empty());
    assert_eq!(fresh.title, "T");
    assert_eq!(r.vote(id, "mallory".to_string(), true), Ok(()));
}

#[test]
fn proposal_methods_follow_their_contracts() {
    let mut p = Proposal::new(5, "t".to_string(), "d".to_string());
    assert!(!p.has_voted(&"v".to_string()));
    p.record_vote("v".to_string(), false);
    assert!(p.has_voted(&"v".to_string()));
    assert!(!p.has_voted(&"w".to_string()));
    assert_eq!((p.yes_votes, p.no_votes), (0, 1));
    let q = p.copied();
    assert!(same(&p, &q));
}
