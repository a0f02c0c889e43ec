use vstd::prelude::*;

use crate::proposal::{Proposal, ProposalId, ProposalModel};

verus! {

/// Why a vote was not counted.
#[derive(Clone, Copy, Debug, PartialEq, Eq, Structural)]
pub enum VoteError {
    /// No proposal has this id.
    NotFound(ProposalId),
    /// The identity has already voted on this proposal.
    AlreadyVoted,
}

/// Abstract value of a registry: its proposals in order of creation.
pub ghost struct RegistryModel {
    pub proposals: Seq<ProposalModel>,
}

impl RegistryModel {
    pub open spec fn empty() -> RegistryModel {
        RegistryModel { proposals: Seq::empty() }
    }

    /// Ids fit their type, the proposal at position `i` carries id `i`, and
    /// every proposal's tallies agree with its voters.
    pub open spec fn wf(self) -> bool {
        &&& self.proposals.len() <= u64::MAX
        &&& forall|i: int|
            #![trigger self.proposals[i]]
            0 <= i < self.proposals.len() ==> {
                &&& self.proposals[i].id == i
                &&& self.proposals[i].wf()
            }
    }

    /// The proposal with id `id`, if there is one.
    pub open spec fn lookup(self, id: ProposalId) -> Option<ProposalModel> {
        if id < self.proposals.len() {
            Some(self.proposals[id as int])
        } else {
            None
        }
    }

    /// The id the next created proposal receives.
    pub open spec fn next_id(self) -> ProposalId {
        self.proposals.len() as ProposalId
    }

    /// The registry after creating a proposal, and the new proposal's id.
    pub open spec fn create(self, title: Seq<char>, description: Seq<char>) -> (RegistryModel, ProposalId) {
        let id = self.next_id();
        (RegistryModel { proposals: self.proposals.push(ProposalModel::fresh(id, title, description)) }, id)
    }

    /// The registry after `voter` votes on proposal `id`, and the outcome.
    pub open spec fn vote(self, id: ProposalId, voter: Seq<char>, vote_yes: bool) -> (RegistryModel, Result<(), VoteError>) {
        match self.lookup(id) {
            None => (self, Err(VoteError::NotFound(id))),
            Some(p) => if p.has_voted(voter) {
                (self, Err(VoteError::AlreadyVoted))
            } else {
                (
                    RegistryModel { proposals: self.proposals.update(id as int, p.with_vote(voter, vote_yes)) },
                    Ok(()),
                )
            },
        }
    }

    /// The registry after the votes in `votes` are cast, in order, on
    /// proposal `id`.
    pub open spec fn vote_all(self, id: ProposalId, votes: Seq<(Seq<char>, bool)>) -> RegistryModel
        decreases votes.len(),
    {
        if votes.len() == 0 {
            self
        } else {
            self.vote_all(id, votes.drop_last()).vote(id, votes.last().0, votes.last().1).0
        }
    }
}

/// An in-memory store of proposals, keyed by id. Ids are handed out in
/// order of creation, starting at zero, so they never collide.
pub struct ProposalRegistry {
    proposals: Vec<Proposal>,
}

impl View for ProposalRegistry {
    type V = RegistryModel;

    closed spec fn view(&self) -> RegistryModel {
        RegistryModel { proposals: self.proposals@.map_values(|p: Proposal| p@) }
    }
}

impl ProposalRegistry {
    pub open spec fn wf(&self) -> bool {
        self@.wf()
    }

    /// An empty registry.
    pub fn new() -> (r: ProposalRegistry)
        ensures
            r@ == RegistryModel::empty(),
            r.wf(),
    {
        let r = ProposalRegistry { proposals: Vec::new() };
        assert(r@.proposals =~= Seq::<ProposalModel>::empty());
        r
    }

    /// Adds a proposal with zero tallies and no voters; returns its id.
    pub fn create_proposal(&mut self, title: String, description: String) -> (id: ProposalId)
        requires
            old(self).wf(),
        ensures
            (final(self)@, id) == old(self)@.create(title@, description@),
            final(self).wf(),
    {
        let id: ProposalId = self.proposals.len() as ProposalId;
        let p = Proposal::new(id, title, description);
        self.proposals.push(p);
        // a vector's length fits a usize, hence an id
        assert(self.proposals.len() <= u64::MAX);
        assert(self@.proposals =~= old(self)@.proposals.push(p@));
        assert forall|j: int| 0 <= j < self@.proposals.len() implies self@.proposals[j].id == j
            && self@.proposals[j].wf() by {
            if j < old(self)@.proposals.len() {
                assert(old(self)@.proposals[j].id == j);
            }
        }
        id
    }

    /// Counts `voter`'s vote on proposal `id`, unless there is no such
    /// proposal or `voter` has already voted on it; the registry is left
    /// unchanged on either error.
    pub fn vote(&mut self, id: ProposalId, voter: String, vote_yes: bool) -> (r: Result<(), VoteError>)
        requires
            old(self).wf(),
        ensures
            (final(self)@, r) == old(self)@.vote(id, voter@, vote_yes),
            final(self).wf(),
    {
        if id >= self.proposals.len() as u64 {
            return Err(VoteError::NotFound(id));
        }
        let i: usize = id as usize;
        assert(self.proposals@[i as int]@ == self@.proposals[i as int]);
        assert(self@.proposals[i as int].id == i);
        if self.proposals[i].has_voted(&voter) {
            return Err(VoteError::AlreadyVoted);
        }
        let ghost v = voter@;
        self.proposals[i].record_vote(voter, vote_yes);
        assert(self@.proposals =~= old(self)@.proposals.update(i as int, old(self)@.proposals[i as int].with_vote(v, vote_yes)));
        assert forall|j: int| 0 <= j < self@.proposals.len() implies self@.proposals[j].id == j
            && self@.proposals[j].wf() by {
            assert(old(self)@.proposals[j].id == j);
        }
        Ok(())
    }

    /// An independent copy of proposal `id`, or `None` if there is none.
    pub fn get_proposal(&self, id: ProposalId) -> (r: Option<Proposal>)
        ensures
            match r {
                Some(p) => self@.lookup(id) == Some(p@),
                None => self@.lookup(id) == None::<ProposalModel>,
            },
    {
        if id >= self.proposals.len() as u64 {
            return None;
        }
        let i: usize = id as usize;
        Some(self.proposals[i].copied())
    }

    /// Independent copies of all proposals, in order of creation.
    pub fn list_proposals(&self) -> (r: Vec<Proposal>)
        ensures
            r@.map_values(|p: Proposal| p@) == self@.proposals,
    {
        let mut out: Vec<Proposal> = Vec::new();
        let mut i: usize = 0;
        while i < self.proposals.len()
            invariant
                i <= self.proposals@.len(),
                out@.len() == i,
                forall|j: int| 0 <= j < i ==> #[trigger] out@[j]@ == self.proposals@[j]@,
            decreases self.proposals@.len() - i,
        {
            out.push(self.proposals[i].copied());
            i += 1;
        }
        assert(out@.map_values(|p: Proposal| p@) =~= self@.proposals);
        out
    }
}

} // verus!
