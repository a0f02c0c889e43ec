use vstd::prelude::*;

use crate::laws::lemma_with_vote_wf;

verus! {

/// Identifier of a proposal inside a registry.
pub type ProposalId = u64;

/// Abstract value of a proposal: its text, its two tallies and the
/// identities that have voted on it, in the order they voted.
pub ghost struct ProposalModel {
    pub id: ProposalId,
    pub title: Seq<char>,
    pub description: Seq<char>,
    pub yes_votes: nat,
    pub no_votes: nat,
    pub voters: Seq<Seq<char>>,
}

impl ProposalModel {
    /// A proposal as it stands right after creation.
    pub open spec fn fresh(id: ProposalId, title: Seq<char>, description: Seq<char>) -> ProposalModel {
        ProposalModel { id, title, description, yes_votes: 0, no_votes: 0, voters: Seq::empty() }
    }

    /// Every voter counted exactly once, in exactly one of the tallies.
    pub open spec fn wf(self) -> bool {
        &&& self.yes_votes + self.no_votes == self.voters.len()
        &&& self.voters.no_duplicates()
    }

    pub open spec fn has_voted(self, voter: Seq<char>) -> bool {
        self.voters.contains(voter)
    }

    /// The proposal after `voter` (who has not voted yet) votes.
    pub open spec fn with_vote(self, voter: Seq<char>, vote_yes: bool) -> ProposalModel {
        ProposalModel {
            yes_votes: if vote_yes { self.yes_votes + 1 } else { self.yes_votes },
            no_votes: if vote_yes { self.no_votes } else { self.no_votes + 1 },
            voters: self.voters.push(voter),
            ..self
        }
    }

    /// The effect of one vote: counted unless the identity already voted.
    pub open spec fn cast(self, voter: Seq<char>, vote_yes: bool) -> ProposalModel {
        if self.has_voted(voter) {
            self
        } else {
            self.with_vote(voter, vote_yes)
        }
    }

    /// The effect of a sequence of votes, applied in order.
    pub open spec fn cast_all(self, votes: Seq<(Seq<char>, bool)>) -> ProposalModel
        decreases votes.len(),
    {
        if votes.len() == 0 {
            self
        } else {
            self.cast_all(votes.drop_last()).cast(votes.last().0, votes.last().1)
        }
    }
}

/// One vote-able item: a title, a description, two tallies and the set of
/// identities that have already voted.
#[derive(Clone, Debug)]
pub struct Proposal {
    pub id: ProposalId,
    pub title: String,
    pub description: String,
    pub yes_votes: u64,
    pub no_votes: u64,
    pub voters: Vec<String>,
}

impl View for Proposal {
    type V = ProposalModel;

    open spec fn view(&self) -> ProposalModel {
        ProposalModel {
            id: self.id,
            title: self.title@,
            description: self.description@,
            yes_votes: self.yes_votes as nat,
            no_votes: self.no_votes as nat,
            voters: self.voters@.map_values(|v: String| v@),
        }
    }
}

impl Proposal {
    pub open spec fn wf(&self) -> bool {
        self@.wf()
    }

    /// A proposal with zero tallies and no voters.
    pub fn new(id: ProposalId, title: String, description: String) -> (r: Proposal)
        ensures
            r@ == ProposalModel::fresh(id, title@, description@),
            r.wf(),
    {
        let r = Proposal { id, title, description, yes_votes: 0, no_votes: 0, voters: Vec::new() };
        assert(r@.voters =~= Seq::<Seq<char>>::empty());
        r
    }

    /// Whether `voter` is among the identities that have voted.
    pub fn has_voted(&self, voter: &String) -> (r: bool)
        ensures
            r == self@.has_voted(voter@),
    {
        let mut i: usize = 0;
        while i < self.voters.len()
            invariant
                i <= self.voters@.len(),
                forall|j: int| 0 <= j < i ==> self.voters@[j]@ != voter@,
            decreases self.voters@.len() - i,
        {
            if self.voters[i] == *voter {
                assert(self@.voters[i as int] == voter@);
                return true;
            }
            i += 1;
        }
        assert(!self@.voters.contains(voter@)) by {
            if self@.voters.contains(voter@) {
                let k = choose|k: int| 0 <= k < self@.voters.len() && self@.voters[k] == voter@;
                assert(self.voters@[k]@ == voter@);
            }
        }
        false
    }

    /// Counts the vote of `voter`, who must not have voted yet.
    pub fn record_vote(&mut self, voter: String, vote_yes: bool)
        requires
            old(self).wf(),
            !old(self)@.has_voted(voter@),
        ensures
            final(self)@ == old(self)@.with_vote(voter@, vote_yes),
            final(self).wf(),
    {
        let ghost v = voter@;
        self.voters.push(voter);
        // the tallies sum to the old number of voters, which is below the new one
        assert(self.voters.len() == self@.voters.len());
        if vote_yes {
            self.yes_votes = self.yes_votes + 1;
        } else {
            self.no_votes = self.no_votes + 1;
        }
        assert(self@.voters =~= old(self)@.voters.push(v));
        proof {
            lemma_with_vote_wf(old(self)@, v, vote_yes);
        }
    }

    /// An independent copy of the proposal.
    pub fn copied(&self) -> (r: Proposal)
        ensures
            r@ == self@,
    {
        let voters = self.voters.clone();
        assert(voters@ =~= self.voters@);
        Proposal {
            id: self.id,
            title: self.title.clone(),
            description: self.description.clone(),
            yes_votes: self.yes_votes,
            no_votes: self.no_votes,
            voters,
        }
    }
}

} // verus!
