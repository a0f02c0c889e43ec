use vstd::prelude::*;

use crate::proposal::{ProposalId, ProposalModel};
use crate::registry::{RegistryModel, VoteError};

verus! {

/// A vote by an identity that has not voted keeps a proposal's tallies in
/// agreement with its voters.
pub proof fn lemma_with_vote_wf(p: ProposalModel, voter: Seq<char>, vote_yes: bool)
    requires
        p.wf(),
        !p.has_voted(voter),
    ensures
        p.with_vote(voter, vote_yes).wf(),
{
    let q = p.with_vote(voter, vote_yes);
    assert forall|a: int, b: int|
        0 <= a < q.voters.len() && 0 <= b < q.voters.len() && a != b
        implies q.voters[a] != q.voters[b] by {
        if a == p.voters.len() {
            assert(q.voters[b] == p.voters[b]);
        } else if b == p.voters.len() {
            assert(q.voters[a] == p.voters[a]);
        }
    }
}

/// A vote on an existing proposal leaves a well-formed registry
/// well-formed, and does to that proposal what `cast` says.
pub proof fn lemma_vote_casts(m: RegistryModel, id: ProposalId, voter: Seq<char>, vote_yes: bool)
    requires
        m.wf(),
        id < m.proposals.len(),
    ensures
        m.vote(id, voter, vote_yes).0.wf(),
        m.vote(id, voter, vote_yes).0.proposals.len() == m.proposals.len(),
        m.vote(id, voter, vote_yes).0.proposals[id as int] == m.proposals[id as int].cast(voter, vote_yes),
{
    let p = m.proposals[id as int];
    if !p.has_voted(voter) {
        lemma_with_vote_wf(p, voter, vote_yes);
        let m2 = m.vote(id, voter, vote_yes).0;
        assert forall|i: int| 0 <= i < m2.proposals.len() implies m2.proposals[i].id == i
            && m2.proposals[i].wf() by {
            assert(m.proposals[i].id == i);
        }
    }
}

/// For every sequence of votes cast on one proposal, the proposal ends up
/// as those votes applied in order, its yes and no tallies add up to the
/// number of identities that voted, and no identity is counted twice.
/// Every prefix of a sequence is a sequence, so this holds at every point.
pub proof fn lemma_tally_matches_voters(m: RegistryModel, id: ProposalId, votes: Seq<(Seq<char>, bool)>)
    requires
        m.wf(),
        id < m.proposals.len(),
    ensures
        m.vote_all(id, votes).wf(),
        m.vote_all(id, votes).lookup(id) == Some(m.proposals[id as int].cast_all(votes)),
        m.vote_all(id, votes).proposals[id as int].yes_votes + m.vote_all(id, votes).proposals[id as int].no_votes
            == m.vote_all(id, votes).proposals[id as int].voters.len(),
    decreases votes.len(),
{
    if votes.len() > 0 {
        lemma_tally_matches_voters(m, id, votes.drop_last());
        lemma_vote_casts(m.vote_all(id, votes.drop_last()), id, votes.last().0, votes.last().1);
    }
}

/// When an identity votes twice on an existing proposal, the second vote
/// fails with `AlreadyVoted` and leaves the registry as the first left it.
pub proof fn lemma_second_vote_rejected(
    m: RegistryModel,
    id: ProposalId,
    voter: Seq<char>,
    first_yes: bool,
    second_yes: bool,
)
    requires
        m.wf(),
        id < m.proposals.len(),
    ensures
        m.vote(id, voter, first_yes).0.vote(id, voter, second_yes) == (
            m.vote(id, voter, first_yes).0,
            Err::<(), VoteError>(VoteError::AlreadyVoted),
        ),
{
    let p = m.proposals[id as int];
    if !p.has_voted(voter) {
        let q = p.with_vote(voter, first_yes);
        assert(q.voters[q.voters.len() - 1] == voter);
    }
}

/// A vote on an id that names no proposal fails with `NotFound` carrying
/// that id, and changes nothing.
pub proof fn lemma_vote_unknown_id(m: RegistryModel, id: ProposalId, voter: Seq<char>, vote_yes: bool)
    requires
        m.lookup(id) is None,
    ensures
        m.vote(id, voter, vote_yes) == (m, Err::<(), VoteError>(VoteError::NotFound(id))),
{
}

/// A proposal read back right after its creation has the given title and
/// description, zero tallies and no voters.
pub proof fn lemma_create_then_get(m: RegistryModel, title: Seq<char>, description: Seq<char>)
    requires
        m.wf(),
    ensures
        m.create(title, description).0.lookup(m.create(title, description).1) == Some(
            ProposalModel {
                id: m.create(title, description).1,
                title,
                description,
                yes_votes: 0,
                no_votes: 0,
                voters: Seq::empty(),
            },
        ),
{
}

/// In a well-formed registry every listed proposal is found by its id.
pub proof fn lemma_listed_found_by_id(m: RegistryModel)
    requires
        m.wf(),
    ensures
        forall|i: int| 0 <= i < m.proposals.len() ==> m.lookup(#[trigger] m.proposals[i].id) == Some(m.proposals[i]),
{
    assert forall|i: int| 0 <= i < m.proposals.len() implies m.lookup(#[trigger] m.proposals[i].id) == Some(
        m.proposals[i],
    ) by {
        assert(m.proposals[i].id == i);
    }
}

/// Two proposals created in a fresh registry get distinct ids; the list
/// then holds exactly those two, and each is found by its id.
pub proof fn lemma_two_creates(t1: Seq<char>, d1: Seq<char>, t2: Seq<char>, d2: Seq<char>)
    ensures
        ({
            let (m1, id1) = RegistryModel::empty().create(t1, d1);
            let (m2, id2) = m1.create(t2, d2);
            &&& id1 != id2
            &&& m2.proposals.len() == 2
            &&& m2.proposals[0] == ProposalModel::fresh(id1, t1, d1)
            &&& m2.proposals[1] == ProposalModel::fresh(id2, t2, d2)
            &&& m2.lookup(id1) == Some(m2.proposals[0])
            &&& m2.lookup(id2) == Some(m2.proposals[1])
        }),
{
    let (m1, id1) = RegistryModel::empty().create(t1, d1);
    let (m2, id2) = m1.create(t2, d2);
    assert(m1.proposals.len() == 1);
    assert(id1 == 0 && id2 == 1);
}

} // verus!
