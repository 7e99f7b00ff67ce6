use dao_voting::{
    close_status, next_proposal_id, tally_vote, DAOContract, GovernanceError, ProposalBook,
    ProposalStatus, Storage, Vote, VoteBook, REWARD_AMOUNT,
};

fn s(text: &str) -> String {
    text.to_string()
}

#[test]
fn upgrade_proposal_scenario() {
    let mut dao = DAOContract::new();
    assert_eq!(dao.create_proposal(s("Upgrade"), s("desc")), 1);

    assert_eq!(dao.vote_on_proposal(1, 42, true), Ok(()));
    let p = dao.view_proposal(1);
    assert_eq!((p.votes_for, p.votes_against), (1, 0));

    assert_eq!(dao.vote_on_proposal(1, 42, false), Err(GovernanceError::AlreadyVoted));

    assert_eq!(dao.vote_on_proposal(1, 7, false), Ok(()));
    let p = dao.view_proposal(1);
    assert_eq!((p.votes_for, p.votes_against), (1, 1));

    assert_eq!(dao.close_proposal(1), Ok(()));
    assert!(!dao.view_proposal(1).is_active);

    assert_eq!(dao.vote_on_proposal(1, 99, true), Err(GovernanceError::ProposalClosed));
}

#[test]
fn ids_are_handed_out_in_order() {
    let mut dao = DAOContract::new();
    let ids: Vec<u64> = (0..5)
        .map(|i| dao.create_proposal(format!("title {}", i), format!("description {}", i)))
        .collect();
    assert_eq!(ids, vec![1, 2, 3, 4, 5]);
    for id in 1..=5u64 {
        let p = dao.view_proposal(id);
        assert_eq!(p.proposal_id, id);
        assert_eq!(p.title, format!("title {}", id - 1));
        assert_eq!(p.description, format!("description {}", id - 1));
        assert_eq!((p.votes_for, p.votes_against), (0, 0));
        assert!(p.is_active);
    }
}

#[test]
fn empty_texts_are_accepted() {
    let mut dao = DAOContract::new();
    assert_eq!(dao.create_proposal(String::new(), String::new()), 1);
    let p = dao.view_proposal(1);
    assert_eq!(p.title, "");
    assert_eq!(p.description, "");
    assert!(p.is_active);
}

#[test]
fn vote_in_favor_counts_for_only() {
    let mut dao = DAOContract::new();
    dao.create_proposal(s("a"), s("b"));
    assert_eq!(dao.vote_on_proposal(1, 1, true), Ok(()));
    assert_eq!(dao.vote_on_proposal(1, 2, true), Ok(()));
    let p = dao.view_proposal(1);
    assert_eq!((p.votes_for, p.votes_against), (2, 0));
    assert_eq!(p.title, "a");
    assert!(p.is_active);
}

#[test]
fn vote_against_counts_against_only() {
    let mut dao = DAOContract::new();
    dao.create_proposal(s("a"), s("b"));
    assert_eq!(dao.vote_on_proposal(1, 1, false), Ok(()));
    let p = dao.view_proposal(1);
    assert_eq!((p.votes_for, p.votes_against), (0, 1));
}

#[test]
fn second_vote_is_refused_either_way() {
    let mut dao = DAOContract::new();
    dao.create_proposal(s("a"), s("b"));
    assert_eq!(dao.vote_on_proposal(1, 5, false), Ok(()));
    assert_eq!(dao.vote_on_proposal(1, 5, false), Err(GovernanceError::AlreadyVoted));
    assert_eq!(dao.vote_on_proposal(1, 5, true), Err(GovernanceError::AlreadyVoted));
    let p = dao.view_proposal(1);
    assert_eq!((p.votes_for, p.votes_against), (0, 1));
    let v = dao.view_vote(1, 5);
    assert!(!v.in_favor);
}

#[test]
fn one_voter_may_vote_on_each_proposal() {
    let mut dao = DAOContract::new();
    dao.create_proposal(s("a"), s("b"));
    dao.create_proposal(s("c"), s("d"));
    assert_eq!(dao.vote_on_proposal(1, 5, true), Ok(()));
    assert_eq!(dao.vote_on_proposal(2, 5, false), Ok(()));
    assert_eq!(dao.view_proposal(1).votes_for, 1);
    assert_eq!(dao.view_proposal(2).votes_against, 1);
}

#[test]
fn closed_proposal_refuses_votes_and_closing() {
    let mut dao = DAOContract::new();
    dao.create_proposal(s("a"), s("b"));
    assert_eq!(dao.vote_on_proposal(1, 3, true), Ok(()));
    assert_eq!(dao.close_proposal(1), Ok(()));
    assert_eq!(dao.vote_on_proposal(1, 4, false), Err(GovernanceError::ProposalClosed));
    assert_eq!(dao.vote_on_proposal(1, 3, true), Err(GovernanceError::ProposalClosed));
    assert_eq!(dao.close_proposal(1), Err(GovernanceError::AlreadyClosed));
    let p = dao.view_proposal(1);
    assert_eq!(p.proposal_id, 1);
    assert_eq!(p.title, "a");
    assert_eq!(p.description, "b");
    assert_eq!((p.votes_for, p.votes_against), (1, 0));
    assert!(!p.is_active);
    assert_eq!(dao.view_vote(1, 4).reward, 0);
}

#[test]
fn closing_one_proposal_leaves_others_open() {
    let mut dao = DAOContract::new();
    dao.create_proposal(s("a"), s("b"));
    dao.create_proposal(s("c"), s("d"));
    assert_eq!(dao.close_proposal(1), Ok(()));
    assert!(dao.view_proposal(2).is_active);
    assert_eq!(dao.vote_on_proposal(2, 1, true), Ok(()));
    assert_eq!(dao.create_proposal(s("e"), s("f")), 3);
    assert!(!dao.view_proposal(1).is_active);
}

#[test]
fn unknown_proposal_is_not_found() {
    let mut dao = DAOContract::new();
    for id in [0u64, 1, 9, u64::MAX] {
        let p = dao.view_proposal(id);
        assert_eq!(p.proposal_id, 0);
        assert_eq!(p.title, "Not Found");
        assert_eq!(p.description, "Not Found");
        assert_eq!((p.votes_for, p.votes_against), (0, 0));
        assert!(!p.is_active);
    }
    dao.create_proposal(s("a"), s("b"));
    assert_eq!(dao.view_proposal(2).proposal_id, 0);
    assert_eq!(dao.view_proposal(0).proposal_id, 0);
}

#[test]
fn voting_on_unknown_proposal_is_refused() {
    let mut dao = DAOContract::new();
    assert_eq!(dao.vote_on_proposal(0, 1, true), Err(GovernanceError::ProposalClosed));
    assert_eq!(dao.vote_on_proposal(3, 1, false), Err(GovernanceError::ProposalClosed));
    assert_eq!(dao.close_proposal(3), Err(GovernanceError::AlreadyClosed));
    assert_eq!(dao.view_vote(3, 1), Vote { proposal_id: 0, voter_id: 0, in_favor: false, reward: 0 });
    assert_eq!(dao.create_proposal(s("a"), s("b")), 1);
}

#[test]
fn cast_vote_is_recorded() {
    let mut dao = DAOContract::new();
    dao.create_proposal(s("a"), s("b"));
    assert_eq!(dao.view_vote(1, 42), Vote { proposal_id: 0, voter_id: 0, in_favor: false, reward: 0 });
    assert_eq!(dao.vote_on_proposal(1, 42, true), Ok(()));
    assert_eq!(
        dao.view_vote(1, 42),
        Vote { proposal_id: 1, voter_id: 42, in_favor: true, reward: 100 }
    );
    assert_eq!(REWARD_AMOUNT, 100);
    assert_eq!(dao.view_vote(1, 43).reward, 0);
}

#[test]
fn next_id_defaults_to_one() {
    assert_eq!(next_proposal_id(None), 1);
    assert_eq!(next_proposal_id(Some(0)), 1);
    assert_eq!(next_proposal_id(Some(41)), 42);
    assert_eq!(next_proposal_id(Some(u64::MAX - 1)), u64::MAX);
}

#[test]
fn tally_vote_decides() {
    let open = ProposalStatus::opened(4, s("t"), s("d"));
    let none = Vote::not_cast();
    let p = tally_vote(open.clone(), &none, true).unwrap();
    assert_eq!((p.proposal_id, p.votes_for, p.votes_against, p.is_active), (4, 1, 0, true));
    let p = tally_vote(p, &none, false).unwrap();
    assert_eq!((p.votes_for, p.votes_against), (1, 1));
    let voted = Vote::cast(4, 9, true);
    assert_eq!(voted.reward, 100);
    assert_eq!(tally_vote(open.clone(), &voted, false).unwrap_err(), GovernanceError::AlreadyVoted);
    let shut = close_status(open).unwrap();
    assert_eq!(tally_vote(shut.clone(), &none, true).unwrap_err(), GovernanceError::ProposalClosed);
    assert_eq!(tally_vote(shut, &voted, true).unwrap_err(), GovernanceError::ProposalClosed);
}

#[test]
fn tally_vote_at_counter_limit_below_max() {
    let mut p = ProposalStatus::opened(1, s("t"), s("d"));
    p.votes_for = u64::MAX - 1;
    let p = tally_vote(p, &Vote::not_cast(), true).unwrap();
    assert_eq!(p.votes_for, u64::MAX);
}

#[test]
fn close_status_decides() {
    let open = ProposalStatus::opened(2, s("t"), s("d"));
    let shut = close_status(open).unwrap();
    assert!(!shut.is_active);
    assert_eq!(shut.proposal_id, 2);
    assert_eq!(shut.title, "t");
    assert_eq!(close_status(shut).unwrap_err(), GovernanceError::AlreadyClosed);
    assert_eq!(close_status(ProposalStatus::not_found()).unwrap_err(), GovernanceError::AlreadyClosed);
}

#[test]
fn storage_get_and_set() {
    let mut st = Storage::new();
    assert_eq!(st.get_count(), None);
    st.set_count(3);
    assert_eq!(st.get_count(), Some(3));
    assert!(st.get_proposal(&ProposalBook::Proposal(1)).is_none());
    st.set_proposal(ProposalBook::Proposal(1), ProposalStatus::opened(1, s("a"), s("b")));
    st.set_proposal(ProposalBook::Proposal(2), ProposalStatus::opened(2, s("c"), s("d")));
    st.set_proposal(ProposalBook::Proposal(1), ProposalStatus::opened(1, s("x"), s("y")));
    assert_eq!(st.get_proposal(&ProposalBook::Proposal(1)).unwrap().title, "x");
    assert_eq!(st.get_proposal(&ProposalBook::Proposal(2)).unwrap().title, "c");
    assert!(st.get_vote(&VoteBook::Vote(1, 2)).is_none());
    st.set_vote(VoteBook::Vote(1, 2), Vote::cast(1, 2, true));
    st.set_vote(VoteBook::Vote(2, 1), Vote::cast(2, 1, false));
    assert_eq!(st.get_vote(&VoteBook::Vote(1, 2)), Some(Vote::cast(1, 2, true)));
    assert_eq!(st.get_vote(&VoteBook::Vote(2, 1)), Some(Vote::cast(2, 1, false)));
    assert!(st.get_vote(&VoteBook::Vote(2, 2)).is_none());
    assert_eq!(st.get_count(), Some(3));
}

#[test]
fn copied_keeps_every_field() {
    let mut p = ProposalStatus::opened(7, s("t"), s("d"));
    p.votes_against = 3;
    let q = p.copied();
    assert_eq!(
        (q.proposal_id, q.title.as_str(), q.description.as_str(), q.votes_for, q.votes_against, q.is_active),
        (7, "t", "d", 0, 3, true)
    );
}
