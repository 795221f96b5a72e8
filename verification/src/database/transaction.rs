//! Running the statements of one operation as a whole.
//!
//! A [`Transaction`] says which statement is to run next and takes what
//! became of it. It opens the transaction, has the statements of the
//! operation run in their order and commits; after the first failure it
//! has nothing more run but the rollback. Whoever holds the connection
//! repeats: ask for the next statement, run it, record the outcome.

use crate::database::{
    begin_transaction, commit, rollback, spec_plain, BEGIN_TRANSACTION, COMMIT, ROLLBACK,
};
use crate::sql::{Statement, StatementView};
use vstd::prelude::*;

verus! {

/// How far a transaction has come.
#[derive(Clone, Copy, Debug, PartialEq, Eq, Structural)]
pub enum Phase {
    /// Nothing has run yet; the transaction is to be opened.
    Opening,
    /// The transaction is open and a statement of the operation is to run.
    Running,
    /// All statements of the operation have run; the commit is to run.
    Committing,
    /// A statement has failed; the rollback is to run.
    RollingBack,
    /// Nothing more is to run.
    Closed,
}

/// Why a transaction gives no row counts.
#[derive(Clone, Copy, Debug, PartialEq, Eq)]
pub enum TransactionError<E> {
    /// The store refused a statement; nothing of the operation stays.
    Failed(E),
    /// The transaction was asked for its result before it was closed.
    Unfinished,
}

/// The statements that open and close every transaction.
struct Frame {
    opening: Statement,
    committing: Statement,
    rolling_back: Statement,
}

impl Frame {
    #[verifier::type_invariant]
    spec fn in_place(&self) -> bool {
        &&& self.opening@ == spec_plain(BEGIN_TRANSACTION@)
        &&& self.committing@ == spec_plain(COMMIT@)
        &&& self.rolling_back@ == spec_plain(ROLLBACK@)
    }

    fn new() -> (frame: Frame)
        ensures
            frame.opening@ == spec_plain(BEGIN_TRANSACTION@),
            frame.committing@ == spec_plain(COMMIT@),
            frame.rolling_back@ == spec_plain(ROLLBACK@),
    {
        Frame { opening: begin_transaction(), committing: commit(), rolling_back: rollback() }
    }

    fn opening(&self) -> (statement: &Statement)
        ensures
            statement@ == spec_plain(BEGIN_TRANSACTION@),
    {
        proof {
            use_type_invariant(self);
        }
        &self.opening
    }

    fn committing(&self) -> (statement: &Statement)
        ensures
            statement@ == spec_plain(COMMIT@),
    {
        proof {
            use_type_invariant(self);
        }
        &self.committing
    }

    fn rolling_back(&self) -> (statement: &Statement)
        ensures
            statement@ == spec_plain(ROLLBACK@),
    {
        proof {
            use_type_invariant(self);
        }
        &self.rolling_back
    }
}

/// The statements of one operation on their way through the store.
pub struct Transaction<E> {
    statements: Vec<Statement>,
    frame: Frame,
    phase: Phase,
    counts: Vec<usize>,
    failure: Option<E>,
}

/// What a [`Transaction`] holds, as mathematical values: the statements
/// of the operation, the phase, the row counts of the statements that have
/// run, and the failure if there was one.
pub struct TransactionView<E> {
    pub statements: Seq<StatementView>,
    pub phase: Phase,
    pub counts: Seq<usize>,
    pub failure: Option<E>,
}

impl<E> TransactionView<E> {
    /// What holds of every transaction that was made by `new` and driven
    /// by `record`: it has a row count for each statement that has run, it
    /// is in a phase of failure exactly if it has a failure, and it commits
    /// only when all statements have run.
    pub open spec fn well_formed(self) -> bool {
        &&& self.counts.len() <= self.statements.len()
        &&& self.phase == Phase::Opening ==> self.counts.len() == 0 && self.failure is None
        &&& self.phase == Phase::Running ==> self.counts.len() < self.statements.len()
            && self.failure is None
        &&& self.phase == Phase::Committing ==> self.counts.len() == self.statements.len()
            && self.failure is None
        &&& self.phase == Phase::RollingBack ==> self.failure is Some
        &&& self.phase == Phase::Closed ==> self.failure is Some || self.counts.len()
            == self.statements.len()
    }

    /// The statement that is to run now, if any is.
    pub open spec fn next(self) -> Option<StatementView> {
        match self.phase {
            Phase::Opening => Some(spec_plain(BEGIN_TRANSACTION@)),
            Phase::Running => if self.counts.len() < self.statements.len() {
                Some(self.statements[self.counts.len() as int])
            } else {
                None
            },
            Phase::Committing => Some(spec_plain(COMMIT@)),
            Phase::RollingBack => Some(spec_plain(ROLLBACK@)),
            Phase::Closed => None,
        }
    }

    /// The transaction after the statement that was to run has run with
    /// the given outcome.
    pub open spec fn record(self, outcome: Result<usize, E>) -> TransactionView<E> {
        match (self.phase, outcome) {
            (Phase::Opening, Ok(_)) => TransactionView {
                statements: self.statements,
                phase: if self.counts.len() < self.statements.len() {
                    Phase::Running
                } else {
                    Phase::Committing
                },
                counts: self.counts,
                failure: self.failure,
            },
            (Phase::Opening, Err(error)) => TransactionView {
                statements: self.statements,
                phase: Phase::Closed,
                counts: self.counts,
                failure: Some(error),
            },
            (Phase::Running, Ok(count)) => TransactionView {
                statements: self.statements,
                phase: if self.counts.len() + 1 < self.statements.len() {
                    Phase::Running
                } else {
                    Phase::Committing
                },
                counts: self.counts.push(count),
                failure: self.failure,
            },
            (Phase::Committing, Ok(_)) => TransactionView {
                statements: self.statements,
                phase: Phase::Closed,
                counts: self.counts,
                failure: self.failure,
            },
            (Phase::Running, Err(error)) | (Phase::Committing, Err(error)) => TransactionView {
                statements: self.statements,
                phase: Phase::RollingBack,
                counts: self.counts,
                failure: Some(error),
            },
            (Phase::RollingBack, _) => TransactionView {
                statements: self.statements,
                phase: Phase::Closed,
                counts: self.counts,
                failure: self.failure,
            },
            (Phase::Closed, _) => self,
        }
    }

    /// What the transaction has come to: the row counts of all statements
    /// if it is closed without a failure.
    pub open spec fn outcome(self) -> Result<Seq<usize>, TransactionError<E>> {
        if self.phase != Phase::Closed {
            Err(TransactionError::Unfinished)
        } else {
            match self.failure {
                Some(error) => Err(TransactionError::Failed(error)),
                None => Ok(self.counts),
            }
        }
    }

    /// The most statements that are still to run.
    pub open spec fn steps_left(self) -> int {
        match self.phase {
            Phase::Opening => self.statements.len() - self.counts.len() + 3,
            Phase::Running => self.statements.len() - self.counts.len() + 2,
            Phase::Committing => 2,
            Phase::RollingBack => 1,
            Phase::Closed => 0,
        }
    }

    /// A transaction that is driven by `record` stays well formed.
    pub proof fn lemma_record_keeps_well_formed(self, outcome: Result<usize, E>)
        requires
            self.well_formed(),
        ensures
            self.record(outcome).well_formed(),
            self.record(outcome).statements == self.statements,
    {
    }

    /// Every recorded outcome brings the transaction nearer to its end, so
    /// that it is closed after at most three statements more than the
    /// operation has.
    pub proof fn lemma_record_progresses(self, outcome: Result<usize, E>)
        requires
            self.well_formed(),
            self.phase != Phase::Closed,
        ensures
            0 <= self.record(outcome).steps_left() < self.steps_left(),
            self.steps_left() <= self.statements.len() + 3,
            self.next() is Some,
    {
    }

    /// After a failure nothing runs but the rollback, and a failed
    /// statement of the operation is always followed by it.
    pub proof fn lemma_failure_rolls_back(self, outcome: Result<usize, E>)
        requires
            self.well_formed(),
        ensures
            self.failure is Some ==> self.next() == Some(spec_plain(ROLLBACK@)) || self.next()
                is None,
            (self.phase == Phase::Running || self.phase == Phase::Committing) && outcome is Err
                ==> self.record(outcome).next() == Some(spec_plain(ROLLBACK@)),
            outcome is Err && self.phase != Phase::Closed && self.phase != Phase::RollingBack
                ==> self.record(outcome).failure == Some(outcome->Err_0),
    {
    }

    /// A transaction gives row counts only if every statement of the
    /// operation has run and the commit has succeeded: it gives one count
    /// for each statement.
    pub proof fn lemma_success_is_whole(self)
        requires
            self.well_formed(),
        ensures
            self.outcome() matches Ok(counts) ==> counts.len() == self.statements.len()
                && self.failure is None,
            self.phase == Phase::Committing ==> self.counts.len() == self.statements.len(),
    {
    }
}

impl<E> View for Transaction<E> {
    type V = TransactionView<E>;

    closed spec fn view(&self) -> TransactionView<E> {
        TransactionView {
            statements: self.statements.deep_view(),
            phase: self.phase,
            counts: self.counts@,
            failure: self.failure,
        }
    }
}

impl<E> Transaction<E> {
    /// A transaction for the statements of one operation; nothing of it
    /// has run.
    pub fn new(statements: Vec<Statement>) -> (transaction: Transaction<E>)
        ensures
            transaction@ == (TransactionView::<E> {
                statements: statements.deep_view(),
                phase: Phase::Opening,
                counts: Seq::empty(),
                failure: None,
            }),
            transaction@.well_formed(),
    {
        Transaction {
            statements,
            frame: Frame::new(),
            phase: Phase::Opening,
            counts: Vec::new(),
            failure: None,
        }
    }

    /// The phase that the transaction is in.
    pub fn phase(&self) -> (phase: Phase)
        ensures
            phase == self@.phase,
    {
        self.phase
    }

    /// The statement that is to run now; `None` once the transaction is
    /// closed.
    pub fn next(&self) -> (next: Option<&Statement>)
        ensures
            match next {
                Some(statement) => self@.next() == Some(statement@),
                None => self@.next() is None,
            },
    {
        match self.phase {
            Phase::Opening => Some(self.frame.opening()),
            Phase::Running => {
                if self.counts.len() < self.statements.len() {
                    Some(&self.statements[self.counts.len()])
                } else {
                    None
                }
            },
            Phase::Committing => Some(self.frame.committing()),
            Phase::RollingBack => Some(self.frame.rolling_back()),
            Phase::Closed => None,
        }
    }

    /// Takes the outcome of the statement that was to run: the number of
    /// rows it changed, or the failure of the store.
    pub fn record(&mut self, outcome: Result<usize, E>)
        ensures
            final(self)@ == old(self)@.record(outcome),
    {
        match self.phase {
            Phase::Opening => match outcome {
                Ok(_) => {
                    self.phase = if self.counts.len() < self.statements.len() {
                        Phase::Running
                    } else {
                        Phase::Committing
                    };
                },
                Err(error) => {
                    self.failure = Some(error);
                    self.phase = Phase::Closed;
                },
            },
            Phase::Running => match outcome {
                Ok(count) => {
                    self.counts.push(count);
                    self.phase = if self.counts.len() < self.statements.len() {
                        Phase::Running
                    } else {
                        Phase::Committing
                    };
                },
                Err(error) => {
                    self.failure = Some(error);
                    self.phase = Phase::RollingBack;
                },
            },
            Phase::Committing => match outcome {
                Ok(_) => {
                    self.phase = Phase::Closed;
                },
                Err(error) => {
                    self.failure = Some(error);
                    self.phase = Phase::RollingBack;
                },
            },
            Phase::RollingBack => {
                self.phase = Phase::Closed;
            },
            Phase::Closed => {},
        }
    }

    /// Ends the transaction: the row counts of its statements, one for
    /// each in their order, if all of them and the commit succeeded; the
    /// failure of the store if one of them failed.
    pub fn finish(self) -> (outcome: Result<Vec<usize>, TransactionError<E>>)
        ensures
            match outcome {
                Ok(counts) => self@.outcome() == Ok::<Seq<usize>, TransactionError<E>>(counts@),
                Err(error) => self@.outcome() == Err::<Seq<usize>, TransactionError<E>>(error),
            },
    {
        match self.phase {
            Phase::Closed => match self.failure {
                Some(error) => Err(TransactionError::Failed(error)),
                None => Ok(self.counts),
            },
            _ => Err(TransactionError::Unfinished),
        }
    }
}

} // verus!
