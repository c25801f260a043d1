use vote_backend::{greet, Identity, ProposalStore, VoteChoice, VoteError};

fn id(bytes: &[u8]) -> Identity {
    Identity::new(bytes.to_vec())
}

#[test]
fn greet_formats_name() {
    assert_eq!(greet(String::from("World")), "Hello, World!");
}

#[test]
fn create_on_fresh_key_increments_count() {
    let mut store = ProposalStore::new();
    let alice = id(&[1]);
    assert_eq!(store.get_proposal_count(), 0);
    let displaced = store.create_proposal(1, String::from("first"), true, &alice);
    assert!(displaced.is_none());
    assert_eq!(store.get_proposal_count(), 1);
    let displaced = store.create_proposal(2, String::from("second"), false, &alice);
    assert!(displaced.is_none());
    assert_eq!(store.get_proposal_count(), 2);
}

#[test]
fn overwriting_a_key_keeps_count_and_returns_displaced() {
    let mut store = ProposalStore::new();
    let alice = id(&[1]);
    let bob = id(&[2]);
    store.create_proposal(9, String::from("old text"), true, &alice);
    assert_eq!(store.get_proposal_count(), 1);
    let displaced = store.create_proposal(9, String::from("new text"), false, &bob);
    let displaced = displaced.expect("the occupied key must hand back the old record");
    assert_eq!(displaced.description, "old text");
    assert!(displaced.is_active);
    assert_eq!(displaced.owner.bytes, vec![1]);
    assert_eq!(store.get_proposal_count(), 1);
    let current = store.get_proposal(9).unwrap();
    assert_eq!(current.description, "new text");
    assert_eq!(current.owner.bytes, vec![2]);
}

#[test]
fn tallies_always_match_voter_count() {
    let mut store = ProposalStore::new();
    let owner = id(&[0]);
    store.create_proposal(3, String::from("tally check"), true, &owner);
    let voters = [
        (vec![1u8], VoteChoice::Approve),
        (vec![2u8], VoteChoice::Reject),
        (vec![3u8], VoteChoice::Pass),
        (vec![4u8], VoteChoice::Approve),
    ];
    for (n, (bytes, choice)) in voters.iter().enumerate() {
        assert_eq!(store.vote(3, *choice, &Identity::new(bytes.clone())), Ok(()));
        let p = store.get_proposal(3).unwrap();
        let total = p.approve + p.reject + p.pass;
        assert_eq!(total as usize, p.voted.len());
        assert_eq!(p.voted.len(), n + 1);
    }
    let p = store.get_proposal(3).unwrap();
    assert_eq!((p.approve, p.reject, p.pass), (2, 1, 1));
}

#[test]
fn repeat_voter_is_rejected_and_state_unchanged() {
    let mut store = ProposalStore::new();
    let owner = id(&[0]);
    let alice = id(&[10, 20]);
    store.create_proposal(4, String::from("one vote each"), true, &owner);
    assert_eq!(store.vote(4, VoteChoice::Approve, &alice), Ok(()));
    assert_eq!(store.vote(4, VoteChoice::Reject, &alice), Err(VoteError::AlreadyVoted));
    assert_eq!(store.vote(4, VoteChoice::Approve, &alice), Err(VoteError::AlreadyVoted));
    let p = store.get_proposal(4).unwrap();
    assert_eq!((p.approve, p.reject, p.pass), (1, 0, 0));
    assert_eq!(p.voted.len(), 1);
    assert_eq!(p.voted[0].bytes, vec![10, 20]);
}

#[test]
fn closed_proposal_error_precedence() {
    let mut store = ProposalStore::new();
    let owner = id(&[0]);
    let alice = id(&[1]);
    let bob = id(&[2]);
    store.create_proposal(5, String::from("precedence"), true, &owner);
    assert_eq!(store.vote(5, VoteChoice::Pass, &alice), Ok(()));
    assert_eq!(store.end_proposal(5, &owner), Ok(()));
    // A new identity on the closed proposal: not active.
    assert_eq!(store.vote(5, VoteChoice::Approve, &bob), Err(VoteError::ProposalNotActive));
    // A prior voter on the closed proposal: already voted, checked first.
    assert_eq!(store.vote(5, VoteChoice::Approve, &alice), Err(VoteError::AlreadyVoted));
}

#[test]
fn non_owner_edit_is_unauthorized_and_record_unchanged() {
    let mut store = ProposalStore::new();
    let owner = id(&[7, 7]);
    let intruder = id(&[8]);
    store.create_proposal(6, String::from("guarded"), true, &owner);
    assert_eq!(store.vote(6, VoteChoice::Approve, &id(&[1])), Ok(()));
    let before = store.get_proposal(6).unwrap();
    assert_eq!(
        store.edit_proposal(6, String::from("defaced"), false, &intruder),
        Err(VoteError::Unauthorized)
    );
    let after = store.get_proposal(6).unwrap();
    assert_eq!(after.description, before.description);
    assert_eq!(after.approve, before.approve);
    assert_eq!(after.reject, before.reject);
    assert_eq!(after.pass, before.pass);
    assert_eq!(after.is_active, before.is_active);
    assert_eq!(after.voted.len(), before.voted.len());
    for (a, b) in after.voted.iter().zip(before.voted.iter()) {
        assert_eq!(a.bytes, b.bytes);
    }
    assert_eq!(after.owner.bytes, before.owner.bytes);
}

#[test]
fn non_owner_end_is_unauthorized_and_record_unchanged() {
    let mut store = ProposalStore::new();
    let owner = id(&[7]);
    let intruder = id(&[9, 9, 9]);
    store.create_proposal(11, String::from("still open"), true, &owner);
    assert_eq!(store.end_proposal(11, &intruder), Err(VoteError::Unauthorized));
    let p = store.get_proposal(11).unwrap();
    assert!(p.is_active);
    assert_eq!(p.owner.bytes, vec![7]);
}

#[test]
fn owner_edit_replaces_text_and_flag_but_keeps_votes() {
    let mut store = ProposalStore::new();
    let owner = id(&[42]);
    store.create_proposal(12, String::from("draft"), false, &owner);
    assert_eq!(store.edit_proposal(12, String::from("final wording"), true, &owner), Ok(()));
    let p = store.get_proposal(12).unwrap();
    assert_eq!(p.description, "final wording");
    assert!(p.is_active);
    assert_eq!(store.vote(12, VoteChoice::Approve, &id(&[1])), Ok(()));
    assert_eq!(store.edit_proposal(12, String::from("reworded"), true, &owner), Ok(()));
    let p = store.get_proposal(12).unwrap();
    assert_eq!(p.description, "reworded");
    assert_eq!((p.approve, p.reject, p.pass), (1, 0, 0));
    assert_eq!(p.voted.len(), 1);
    assert_eq!(p.owner.bytes, vec![42]);
    // The voter list was carried over, so the prior voter is still rejected.
    assert_eq!(store.vote(12, VoteChoice::Reject, &id(&[1])), Err(VoteError::AlreadyVoted));
}

#[test]
fn owner_end_closes_even_when_already_closed() {
    let mut store = ProposalStore::new();
    let owner = id(&[5]);
    store.create_proposal(13, String::from("to close"), true, &owner);
    assert_eq!(store.end_proposal(13, &owner), Ok(()));
    assert!(!store.get_proposal(13).unwrap().is_active);
    // Closing an already-closed proposal is a no-op success.
    assert_eq!(store.end_proposal(13, &owner), Ok(()));
    assert!(!store.get_proposal(13).unwrap().is_active);
}

#[test]
fn missing_key_reports_no_proposal() {
    let mut store = ProposalStore::new();
    let alice = id(&[1]);
    assert!(store.get_proposal(99).is_none());
    assert!(store.get_proposal_status(99).is_none());
    assert_eq!(store.edit_proposal(99, String::from("x"), true, &alice), Err(VoteError::NoProposal));
    assert_eq!(store.end_proposal(99, &alice), Err(VoteError::NoProposal));
    assert_eq!(store.vote(99, VoteChoice::Pass, &alice), Err(VoteError::NoProposal));
    assert_eq!(store.get_proposal_count(), 0);
}

#[test]
fn records_survive_the_store_byte_for_byte() {
    let mut store = ProposalStore::new();
    let owner = Identity::new(vec![0xDE, 0xAD, 0xBE, 0xEF]);
    let text = String::from("Grüße, 世界! naïve café — ≥50%");
    store.create_proposal(21, text.clone(), true, &owner);
    assert_eq!(store.vote(21, VoteChoice::Approve, &Identity::new(vec![])), Ok(()));
    let p = store.get_proposal(21).unwrap();
    assert_eq!(p.description, text);
    assert_eq!(p.owner.bytes, vec![0xDE, 0xAD, 0xBE, 0xEF]);
    assert_eq!(p.voted.len(), 1);
    assert_eq!(p.voted[0].bytes, Vec::<u8>::new());
    assert!(p.is_active);
}
