//! The life of a network under training: not yet made, made, under
//! training, trained.

use vstd::prelude::*;
use rand::rngs::StdRng;
use crate::dataset::TrainingDataSet;
use crate::error::Error;
use crate::experiments::all_drawn;
use crate::network::CompositeNetwork;
use crate::scalar::{positive, Scalar};
use crate::trainer::{config_ok, iterate, refusal, train_one_iteration, Model};

verus! {

/// Where a session stands.
#[derive(Clone, Copy, Debug, PartialEq, Eq, Structural)]
pub enum Phase {
    /// There is no network yet.
    Uninitialized,
    /// There is a network, and no iteration has been made on it.
    Randomized,
    /// So many iterations have been made, and more are to come.
    Training(usize),
    /// All iterations have been made.
    Trained,
}

/// The phase that follows `phase` when a session with `budget` iterations
/// advances.
pub open spec fn next_phase(phase: Phase, budget: nat) -> Phase {
    match phase {
        Phase::Uninitialized => Phase::Uninitialized,
        Phase::Randomized => if budget <= 1 {
            Phase::Trained
        } else {
            Phase::Training(1)
        },
        Phase::Training(made) => if made + 1 >= budget {
            Phase::Trained
        } else {
            Phase::Training((made + 1) as usize)
        },
        Phase::Trained => Phase::Trained,
    }
}

/// How many iterations have been made when a session with `budget`
/// iterations is in `phase`.
pub open spec fn iterations_made(phase: Phase, budget: nat) -> nat {
    match phase {
        Phase::Uninitialized => 0,
        Phase::Randomized => 0,
        Phase::Training(made) => made as nat,
        Phase::Trained => budget,
    }
}

/// What a session holds in each phase.
enum Stage<S: Scalar> {
    Empty,
    Ready(CompositeNetwork<S>),
    Running(usize, CompositeNetwork<S>),
    Done(CompositeNetwork<S>),
}

/// One training of one network on one table, with a step size, a rate and
/// a number of iterations that are fixed when the session is made.
pub struct Session<S: Scalar> {
    data: TrainingDataSet<S>,
    eps: S,
    rate: S,
    budget: usize,
    stage: Stage<S>,
    start: Ghost<Seq<S>>,
}

impl<S: Scalar> Session<S> {
    /// The rows of the table.
    pub closed spec fn rows(self) -> Seq<(Seq<S>, S)> {
        self.data@
    }

    /// The step size.
    pub closed spec fn eps_spec(self) -> S {
        self.eps
    }

    /// The learning rate.
    pub closed spec fn rate_spec(self) -> S {
        self.rate
    }

    /// The number of iterations that the session is to make.
    pub closed spec fn budget_spec(self) -> nat {
        self.budget as nat
    }

    /// The phase.
    pub closed spec fn phase_spec(self) -> Phase {
        match self.stage {
            Stage::Empty => Phase::Uninitialized,
            Stage::Ready(_) => Phase::Randomized,
            Stage::Running(made, _) => Phase::Training(made),
            Stage::Done(_) => Phase::Trained,
        }
    }

    /// The network, once there is one.
    pub closed spec fn network_spec(self) -> Option<CompositeNetwork<S>> {
        match self.stage {
            Stage::Empty => None,
            Stage::Ready(network) => Some(network),
            Stage::Running(_, network) => Some(network),
            Stage::Done(network) => Some(network),
        }
    }

    /// The parameters that the network had when it came into the session.
    pub closed spec fn start_spec(self) -> Seq<S> {
        self.start@
    }

    /// The parameters that the network has after `made` iterations.
    pub open spec fn params_after(self, made: nat) -> Seq<S> {
        iterate::<S, CompositeNetwork<S>>(
            self.start_spec(),
            self.rows(),
            self.eps_spec(),
            self.rate_spec(),
            made,
        )
    }

    /// What holds of every session at all times: the step size and the
    /// rate are positive, the table has two inputs in each row, there is a
    /// network in every phase but the first, a phase of training counts
    /// fewer iterations than the session is to make, and the parameters of
    /// the network are what the iterations made so far make of the
    /// parameters it came with.
    #[verifier::type_invariant]
    pub open spec fn well_formed(self) -> bool {
        &&& config_ok(self.eps_spec(), self.rate_spec())
        &&& self.arity_fits()
        &&& self.phase_spec() == Phase::Uninitialized <==> self.network_spec() is None
        &&& self.phase_spec() matches Phase::Training(made) ==> 0 < made < self.budget_spec()
        &&& self.network_spec() matches Some(network) ==> network.valid() && network.params()
            == self.params_after(iterations_made(self.phase_spec(), self.budget_spec()))
    }

    /// The table has two inputs in each row.
    pub closed spec fn arity_fits(self) -> bool {
        self.data.arity_spec() == 2
    }

    /// Opens a session on `data`.
    ///
    /// Refuses a step size or a rate that is not strictly positive with
    /// `InvalidConfig`, and a table whose rows have not two inputs with
    /// `DimensionMismatch`.
    pub fn new(data: TrainingDataSet<S>, eps: S, rate: S, budget: usize) -> (r: Result<
        Session<S>,
        Error,
    >)
        ensures
            match refusal(config_ok(eps, rate), data.arity_spec() == 2) {
                Some(e) => r == Err::<Session<S>, Error>(e),
                None => {
                    &&& r is Ok
                    &&& r.unwrap().well_formed()
                    &&& r.unwrap().phase_spec() == Phase::Uninitialized
                    &&& r.unwrap().rows() == data@
                    &&& r.unwrap().eps_spec() == eps
                    &&& r.unwrap().rate_spec() == rate
                    &&& r.unwrap().budget_spec() == budget
                },
            },
    {
        if !positive(eps) || !positive(rate) {
            return Err(Error::InvalidConfig);
        }
        if data.arity() != 2 {
            return Err(Error::DimensionMismatch);
        }
        Ok(Session { data, eps, rate, budget, stage: Stage::Empty, start: Ghost(Seq::empty()) })
    }

    /// Returns the phase.
    pub fn phase(&self) -> (p: Phase)
        ensures
            p == self.phase_spec(),
    {
        match &self.stage {
            Stage::Empty => Phase::Uninitialized,
            Stage::Ready(_) => Phase::Randomized,
            Stage::Running(made, _) => Phase::Training(*made),
            Stage::Done(_) => Phase::Trained,
        }
    }

    /// Borrows the network, once there is one.
    pub fn network(&self) -> (r: Option<&CompositeNetwork<S>>)
        ensures
            r is Some <==> self.network_spec() is Some,
            r is Some ==> *r.unwrap() == self.network_spec().unwrap(),
            self.well_formed(),
    {
        proof {
            use_type_invariant(self);
        }
        match &self.stage {
            Stage::Empty => None,
            Stage::Ready(network) => Some(network),
            Stage::Running(_, network) => Some(network),
            Stage::Done(network) => Some(network),
        }
    }

    /// Whether `self` is `before` with nothing changed but the phase, the
    /// network and, where `restart` allows it, the starting parameters.
    pub open spec fn continues(self, before: Session<S>, restart: bool) -> bool {
        &&& self.rows() == before.rows()
        &&& self.eps_spec() == before.eps_spec()
        &&& self.rate_spec() == before.rate_spec()
        &&& self.budget_spec() == before.budget_spec()
        &&& restart || self.start_spec() == before.start_spec()
    }

    /// Puts the given network into a session that has none yet, and
    /// returns `None`. A session that has a network keeps it, stays as it
    /// is, and hands the given network back.
    pub fn begin_with(&mut self, network: CompositeNetwork<S>) -> (back: Option<
        CompositeNetwork<S>,
    >)
        ensures
            final(self).well_formed(),
            old(self).phase_spec() == Phase::Uninitialized ==> {
                &&& back is None
                &&& final(self).continues(*old(self), true)
                &&& final(self).phase_spec() == Phase::Randomized
                &&& final(self).network_spec() == Some(network)
                &&& final(self).start_spec() == network.params()
            },
            old(self).phase_spec() != Phase::Uninitialized ==> {
                &&& back == Some(network)
                &&& *final(self) == *old(self)
            },
    {
        proof {
            use_type_invariant(&*self);
            use_type_invariant(&network);
        }
        match &self.stage {
            Stage::Empty => {},
            _ => {
                return Some(network);
            },
        }
        self.start = Ghost(network.params());
        self.stage = Stage::Ready(network);
        None
    }

    /// Draws nine times from the generator and puts the network of the
    /// draws into a session that has none yet; returns whether it did. A
    /// session that has a network keeps it, stays as it is, and draws
    /// nothing.
    pub fn randomize(&mut self, rng: &mut StdRng) -> (done: bool)
        ensures
            final(self).well_formed(),
            done == (old(self).phase_spec() == Phase::Uninitialized),
            done ==> {
                &&& final(self).continues(*old(self), true)
                &&& final(self).phase_spec() == Phase::Randomized
                &&& all_drawn(final(self).start_spec())
            },
            !done ==> *final(self) == *old(self),
    {
        proof {
            use_type_invariant(&*self);
        }
        match &self.stage {
            Stage::Empty => {},
            _ => {
                return false;
            },
        }
        let network = CompositeNetwork::new_random(rng);
        self.begin_with(network);
        true
    }

    /// Makes the next iteration, if one is left to make, and returns the
    /// phase that the session is in then. A session without a network
    /// stays as it is.
    pub fn advance(&mut self) -> (p: Phase)
        ensures
            final(self).well_formed(),
            final(self).continues(*old(self), false),
            final(self).phase_spec() == next_phase(old(self).phase_spec(), old(self).budget_spec()),
            p == final(self).phase_spec(),
    {
        proof {
            use_type_invariant(&*self);
        }
        let (made, mut network): (usize, CompositeNetwork<S>) = match &self.stage {
            Stage::Empty => {
                return Phase::Uninitialized;
            },
            Stage::Ready(network) => (0, network.clone()),
            Stage::Running(made, network) => (*made, network.clone()),
            Stage::Done(_) => {
                return Phase::Trained;
            },
        };
        if made >= self.budget {
            self.stage = Stage::Done(network);
            return Phase::Trained;
        }
        let outcome = train_one_iteration(&mut network, &self.data, self.eps, self.rate);
        assert(outcome is Ok);
        if made + 1 >= self.budget {
            self.stage = Stage::Done(network);
            Phase::Trained
        } else {
            self.stage = Stage::Running(made + 1, network);
            Phase::Training(made + 1)
        }
    }

    /// Makes all iterations that are left to make. A session without a
    /// network stays as it is.
    pub fn run(&mut self)
        ensures
            final(self).well_formed(),
            final(self).continues(*old(self), false),
            old(self).phase_spec() != Phase::Uninitialized ==> final(self).phase_spec()
                == Phase::Trained,
            old(self).phase_spec() == Phase::Uninitialized ==> final(self).phase_spec()
                == Phase::Uninitialized,
    {
        proof {
            use_type_invariant(&*self);
        }
        let mut phase = self.phase();
        while phase != Phase::Trained && phase != Phase::Uninitialized
            invariant
                self.well_formed(),
                self.continues(*old(self), false),
                phase == self.phase_spec(),
                (old(self).phase_spec() == Phase::Uninitialized) == (self.phase_spec()
                    == Phase::Uninitialized),
            decreases
                    (if self.phase_spec() == Phase::Trained {
                        0int
                    } else {
                        self.budget_spec() - iterations_made(self.phase_spec(), self.budget_spec())
                            + 1
                    }),
        {
            phase = self.advance();
        }
    }

    /// Ends a session that has made all its iterations and hands out the
    /// trained network. A session in another phase is handed back as it
    /// is.
    pub fn finish(self) -> (r: Result<CompositeNetwork<S>, Session<S>>)
        ensures
            match r {
                Ok(network) => {
                    &&& self.phase_spec() == Phase::Trained
                    &&& self.network_spec() == Some(network)
                    &&& network.valid()
                    &&& network.params() == self.params_after(self.budget_spec())
                },
                Err(session) => self.phase_spec() != Phase::Trained && session == self,
            },
    {
        proof {
            use_type_invariant(&self);
        }
        match self.stage {
            Stage::Done(network) => Ok(network),
            stage => Err(
                Session {
                    data: self.data,
                    eps: self.eps,
                    rate: self.rate,
                    budget: self.budget,
                    stage,
                    start: self.start,
                },
            ),
        }
    }
}

} // verus!
