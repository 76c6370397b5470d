//! The protocol of read-only and read/write work, as the decisions that the
//! client takes between its calls to the service.
//!
//! A read-only context ties every statement to a read-only transaction of
//! its own. A read/write attempt starts without a transaction: the first
//! statement whose answer carries a transaction identifier begins one, and
//! every later statement of the attempt runs in it. When the unit of work
//! has returned, the transaction is committed if the work succeeded and
//! rolled back if it failed; an attempt that never got a transaction calls
//! the service for neither. Where the service answers that the transaction
//! was aborted, the attempt is made again from the start.

use crate::error::{Code, Error, ErrorModel, Status, StatusModel};
use crate::result_set::{decode_result_set, no_row_count, ResultSet, ResultSetModel};
use crate::transaction::{SelectorModel, TimestampBound, Transaction, TransactionSelector};
use crate::wire::WireResultSet;
use vstd::prelude::*;
use vstd::string::*;

verus! {

/// A context for reading: every statement runs in a read-only transaction
/// of its own, with the bound that the context was made with.
#[derive(Debug)]
pub struct ReadOnly {
    pub bound: Option<TimestampBound>,
}

impl ReadOnly {
    /// A context that reads with the given bound, or strongly where none is
    /// given.
    pub fn new(bound: Option<TimestampBound>) -> (r: ReadOnly)
        ensures
            r.bound == bound,
    {
        ReadOnly { bound }
    }

    /// How the next statement of this context is tied to a transaction.
    pub fn selector(&self) -> (r: TransactionSelector)
        ensures
            r@ == SelectorModel::SingleUse(self.bound),
    {
        TransactionSelector::SingleUse(self.bound)
    }

    /// The sequence number of the next statement: a read-only statement has
    /// none.
    pub fn seqno(&self) -> (r: Option<i64>)
        ensures
            r is None,
    {
        None
    }
}

/// The state of one read/write attempt.
pub ghost struct TxModel {
    /// How the next statement is tied to the transaction.
    pub selector: SelectorModel,
    /// The number of statements that the attempt has issued.
    pub seqno: int,
}

/// What is to be done about the transaction when the unit of work has
/// returned.
pub ghost enum CompletionModel {
    Commit(Seq<u8>),
    Rollback(Seq<u8>),
    Nothing,
}

impl TxModel {
    /// The state in which every attempt starts.
    pub open spec fn fresh() -> TxModel {
        TxModel { selector: SelectorModel::Begin, seqno: 0 }
    }

    /// The state after one more statement has been issued.
    pub open spec fn begin_statement(self) -> TxModel {
        TxModel { selector: self.selector, seqno: self.seqno + 1 }
    }

    /// The state after the answer to a statement has come, with the
    /// identifier of the transaction that the answer carries, if any.
    pub open spec fn end_statement(self, transaction: Option<Seq<u8>>) -> TxModel {
        match (self.selector, transaction) {
            (SelectorModel::Begin, Some(id)) => TxModel {
                selector: SelectorModel::Id(id),
                seqno: self.seqno,
            },
            _ => self,
        }
    }

    /// What is to be done about the transaction when the unit of work has
    /// returned, successfully or not.
    pub open spec fn completion(self, work_succeeded: bool) -> CompletionModel {
        match self.selector {
            SelectorModel::Id(id) => if work_succeeded {
                CompletionModel::Commit(id)
            } else {
                CompletionModel::Rollback(id)
            },
            _ => CompletionModel::Nothing,
        }
    }

    /// What holds of the state of every attempt: a transaction has begun
    /// only after a statement was issued.
    pub open spec fn well_formed(self) -> bool {
        &&& 0 <= self.seqno <= i64::MAX
        &&& !(self.selector is SingleUse)
        &&& (self.selector is Id ==> self.seqno > 0)
    }
}

/// One read/write attempt: how the next statement is tied to the
/// transaction, and how many statements the attempt has issued.
#[derive(Debug)]
pub struct Tx {
    selector: TransactionSelector,
    seqno: i64,
}

impl View for Tx {
    type V = TxModel;

    closed spec fn view(&self) -> TxModel {
        TxModel { selector: self.selector@, seqno: self.seqno as int }
    }
}

/// What is to be done about the transaction when the unit of work has
/// returned.
#[derive(Debug, PartialEq, Eq)]
pub enum Completion {
    /// Commit the transaction.
    Commit(Transaction),
    /// Roll the transaction back.
    Rollback(Transaction),
    /// No transaction has begun: the service is not called.
    Nothing,
}

impl View for Completion {
    type V = CompletionModel;

    open spec fn view(&self) -> CompletionModel {
        match self {
            Completion::Commit(tx) => CompletionModel::Commit(tx@),
            Completion::Rollback(tx) => CompletionModel::Rollback(tx@),
            Completion::Nothing => CompletionModel::Nothing,
        }
    }
}

impl Tx {
    #[verifier::type_invariant]
    closed spec fn inv(self) -> bool {
        self@.well_formed()
    }

    /// An attempt that has issued no statement and has no transaction.
    pub fn new() -> (r: Tx)
        ensures
            r@ == TxModel::fresh(),
    {
        Tx { selector: TransactionSelector::Begin, seqno: 0 }
    }

    /// Starts the attempt anew: the transaction is forgotten and the
    /// statements are counted from the start.
    pub fn reset(&mut self)
        ensures
            final(self)@ == TxModel::fresh(),
    {
        *self = Tx { selector: TransactionSelector::Begin, seqno: 0 };
    }

    /// How the next statement is tied to the transaction.
    pub fn selector(&self) -> (r: &TransactionSelector)
        ensures
            r@ == self@.selector,
    {
        &self.selector
    }

    /// The number of statements that the attempt has issued, which is the
    /// sequence number of the last one.
    pub fn seqno(&self) -> (r: i64)
        ensures
            r == self@.seqno,
            self@.well_formed(),
    {
        proof {
            use_type_invariant(self);
        }
        self.seqno
    }

    /// Counts one more statement and returns its sequence number. Every
    /// statement is counted, a query as well as a change.
    pub fn begin_statement(&mut self) -> (seqno: i64)
        requires
            old(self)@.seqno < i64::MAX,
        ensures
            final(self)@ == old(self)@.begin_statement(),
            seqno == final(self)@.seqno,
    {
        proof {
            use_type_invariant(&*self);
        }
        self.seqno = self.seqno + 1;
        self.seqno
    }

    /// Takes note of the answer to a statement: where the attempt has no
    /// transaction yet and the answer carries one, that is the transaction
    /// of the attempt from now on.
    pub fn end_statement(&mut self, transaction: Option<&Transaction>)
        requires
            old(self)@.seqno > 0,
        ensures
            final(self)@ == old(self)@.end_statement(
                match transaction {
                    Some(tx) => Some(tx@),
                    None => None,
                },
            ),
    {
        proof {
            use_type_invariant(&*self);
        }
        if let TransactionSelector::Begin = self.selector {
            if let Some(tx) = transaction {
                self.selector = TransactionSelector::Id(tx.clone());
            }
        }
    }

    /// What is to be done about the transaction now that the unit of work
    /// has returned.
    pub fn completion(&self, work_succeeded: bool) -> (r: Completion)
        ensures
            r@ == self@.completion(work_succeeded),
            self@.seqno == 0 ==> r is Nothing,
    {
        proof {
            use_type_invariant(self);
        }
        match &self.selector {
            TransactionSelector::Id(tx) => if work_succeeded {
                Completion::Commit(tx.clone())
            } else {
                Completion::Rollback(tx.clone())
            },
            _ => Completion::Nothing,
        }
    }
}

/// How an attempt ends, once the service has answered the commit or the
/// rollback, or was not called.
#[derive(Debug, PartialEq, Eq)]
pub enum Verdict {
    /// The transaction was aborted: the attempt is made again.
    Retry,
    /// The commit or rollback failed for another reason, which is
    /// reported.
    Fail(Error),
    /// The result of the unit of work is handed to the caller.
    Deliver,
}

/// The mathematical content of a [`Verdict`].
pub ghost enum VerdictModel {
    Retry,
    Fail(ErrorModel),
    Deliver,
}

impl View for Verdict {
    type V = VerdictModel;

    open spec fn view(&self) -> VerdictModel {
        match self {
            Verdict::Retry => VerdictModel::Retry,
            Verdict::Fail(e) => VerdictModel::Fail(e@),
            Verdict::Deliver => VerdictModel::Deliver,
        }
    }
}

/// How an attempt ends whose commit or rollback was answered with
/// `outcome`.
pub open spec fn verdict_of(outcome: Result<(), Error>) -> VerdictModel {
    match outcome {
        Err(e) => if e.is_aborted() {
            VerdictModel::Retry
        } else {
            VerdictModel::Fail(e@)
        },
        Ok(_) => VerdictModel::Deliver,
    }
}

/// Decides how an attempt ends, from the answer to its commit or rollback;
/// for an attempt without a transaction the answer counts as success.
pub fn verdict(outcome: Result<(), Error>) -> (r: Verdict)
    ensures
        r@ == verdict_of(outcome),
        r matches Verdict::Fail(e) ==> outcome == Err::<(), Error>(e),
{
    match outcome {
        Err(e) => if e.aborted() {
            Verdict::Retry
        } else {
            Verdict::Fail(e)
        },
        Ok(_) => Verdict::Deliver,
    }
}

/// The number of times that the unit of work is invoked, where the commit
/// or rollback of its successive attempts is answered with `outcomes`: an
/// attempt is followed by another one exactly when its transaction was
/// aborted. `outcomes` may end before the work is done.
pub open spec fn invocations(outcomes: Seq<Result<(), Error>>) -> nat
    decreases outcomes.len(),
{
    if outcomes.len() == 0 {
        0
    } else if verdict_of(outcomes[0]) is Retry {
        1 + invocations(outcomes.drop_first())
    } else {
        1
    }
}

/// Whether the service answered that the transaction was aborted.
pub open spec fn is_abort(outcome: Result<(), Error>) -> bool {
    outcome matches Err(e) && e.is_aborted()
}

/// An attempt that issues no statement ends without a call to the service:
/// there is nothing to commit and nothing to roll back, whether the unit of
/// work succeeded or not.
pub proof fn lemma_idle_attempt_calls_nothing(tx: TxModel, work_succeeded: bool)
    requires
        tx.well_formed(),
        tx.seqno == 0,
    ensures
        tx.completion(work_succeeded) is Nothing,
        TxModel::fresh().completion(work_succeeded) is Nothing,
        TxModel::fresh().well_formed(),
{
}

/// The steps of an attempt keep its state well formed, and only the answer
/// to a statement can give the attempt a transaction, once and for the rest
/// of the attempt.
pub proof fn lemma_attempt_steps(tx: TxModel, transaction: Option<Seq<u8>>)
    requires
        tx.well_formed(),
    ensures
        tx.seqno < i64::MAX ==> tx.begin_statement().well_formed(),
        tx.begin_statement().selector == tx.selector,
        tx.seqno > 0 ==> tx.end_statement(transaction).well_formed(),
        tx.selector is Id ==> tx.end_statement(transaction) == tx,
        tx.selector is Begin && transaction is None ==> tx.end_statement(transaction) == tx,
        tx.selector is Begin && transaction is Some ==> tx.end_statement(transaction).selector
            == SelectorModel::Id(transaction->0),
{
}

impl TxModel {
    /// The state of an attempt after it has issued one statement for each
    /// of `answers`, in their order, and has taken note of the transaction
    /// identifier that each answer carried, if it carried one.
    pub open spec fn after(self, answers: Seq<Option<Seq<u8>>>) -> TxModel
        decreases answers.len(),
    {
        if answers.len() == 0 {
            self
        } else {
            self.after(answers.drop_last()).begin_statement().end_statement(answers.last())
        }
    }
}

/// Every attempt counts its statements from one: the first statement after
/// a new start has the sequence number 1, whatever went before.
pub proof fn lemma_first_statement_is_number_one()
    ensures
        TxModel::fresh().begin_statement().seqno == 1,
{
}

/// In every attempt, the first one as well as one that is made after an
/// abort, the statements are numbered 1, 2, 3 and so on in the order in
/// which they are issued, whatever the service answers: the statement that
/// follows `k` others is sent with the sequence number `k + 1`. The first
/// statement is sent to begin a transaction, and so is every statement
/// until an answer carries a transaction identifier; the statements after
/// that answer are sent with that identifier, and never with the
/// identifier of an earlier attempt.
pub proof fn lemma_statements_are_numbered_in_order(answers: Seq<Option<Seq<u8>>>)
    requires
        answers.len() < i64::MAX,
    ensures
        TxModel::fresh().after(answers).well_formed(),
        TxModel::fresh().after(answers).seqno == answers.len(),
        TxModel::fresh().after(answers).begin_statement().seqno == answers.len() + 1,
        TxModel::fresh().after(answers).begin_statement().selector == TxModel::fresh().after(
            answers,
        ).selector,
        (forall|i: int| 0 <= i < answers.len() ==> (#[trigger] answers[i]) is None)
            ==> TxModel::fresh().after(answers).selector is Begin,
        forall|i: int|
            0 <= i < answers.len() && (#[trigger] answers[i]) is Some && (forall|j: int|
                0 <= j < i ==> (#[trigger] answers[j]) is None) ==> TxModel::fresh().after(
                answers,
            ).selector == SelectorModel::Id(answers[i]->0),
    decreases answers.len(),
{
    if answers.len() > 0 {
        let head = answers.drop_last();
        lemma_statements_are_numbered_in_order(head);
        let before = TxModel::fresh().after(head);
        lemma_attempt_steps(before, answers.last());
        lemma_attempt_steps(before.begin_statement(), answers.last());
        if forall|i: int| 0 <= i < answers.len() ==> (#[trigger] answers[i]) is None {
            assert forall|i: int| 0 <= i < head.len() implies (#[trigger] head[i]) is None by {
                assert(head[i] == answers[i]);
            }
            assert(answers.last() == answers[answers.len() - 1]);
        }
        assert forall|i: int|
            0 <= i < answers.len() && (#[trigger] answers[i]) is Some && (forall|j: int|
                0 <= j < i ==> (#[trigger] answers[j]) is None) implies TxModel::fresh().after(
            answers,
        ).selector == SelectorModel::Id(answers[i]->0) by {
            if i < head.len() {
                assert(head[i] == answers[i]);
                assert forall|j: int| 0 <= j < i implies (#[trigger] head[j]) is None by {
                    assert(head[j] == answers[j]);
                }
            } else {
                assert forall|j: int| 0 <= j < head.len() implies (#[trigger] head[j]) is None by {
                    assert(head[j] == answers[j]);
                }
                assert(answers.last() == answers[i]);
            }
        }
    }
}

/// Where the commit of the first attempt succeeds, or fails otherwise than
/// by an abort, the unit of work is invoked exactly once.
pub proof fn lemma_single_invocation(outcomes: Seq<Result<(), Error>>)
    requires
        outcomes.len() > 0,
        !is_abort(outcomes[0]),
    ensures
        invocations(outcomes) == 1,
{
}

/// Where the first `k` attempts are aborted, the unit of work is invoked
/// at least `k` times, once more where a further answer is known, and
/// exactly `k + 1` times where that answer is no abort.
pub proof fn lemma_abort_is_retried(outcomes: Seq<Result<(), Error>>, k: int)
    requires
        0 <= k <= outcomes.len(),
        forall|i: int| 0 <= i < k ==> is_abort(#[trigger] outcomes[i]),
    ensures
        invocations(outcomes) >= k,
        k < outcomes.len() ==> invocations(outcomes) >= k + 1,
        k < outcomes.len() && !is_abort(outcomes[k]) ==> invocations(outcomes) == k + 1,
    decreases k,
{
    if k > 0 {
        let rest = outcomes.drop_first();
        assert(is_abort(outcomes[0]));
        assert forall|i: int| 0 <= i < k - 1 implies is_abort(#[trigger] rest[i]) by {
            assert(rest[i] == outcomes[i + 1]);
        }
        lemma_abort_is_retried(rest, k - 1);
        if k < outcomes.len() {
            assert(rest[k - 1] == outcomes[k]);
        }
    }
}

/// The state of a run of a unit of work.
pub ghost struct RunModel {
    /// The state of the attempt that is under way, or of the last one.
    pub tx: TxModel,
    /// The number of times that the unit of work was invoked.
    pub attempts: nat,
    /// Whether an attempt is under way.
    pub in_attempt: bool,
    /// Whether the run is over.
    pub done: bool,
    /// The answers to the commit or rollback of the attempts that are over,
    /// in their order.
    pub outcomes: Seq<Result<(), Error>>,
}

/// A run of a unit of work in a read/write transaction: the attempt that is
/// under way, and the number of attempts that were made.
pub struct TxRunner {
    tx: Tx,
    attempts: u64,
    in_attempt: bool,
    done: bool,
    outcomes: Ghost<Seq<Result<(), Error>>>,
}

impl View for TxRunner {
    type V = RunModel;

    closed spec fn view(&self) -> RunModel {
        RunModel {
            tx: self.tx@,
            attempts: self.attempts as nat,
            in_attempt: self.in_attempt,
            done: self.done,
            outcomes: self.outcomes@,
        }
    }
}

impl RunModel {
    /// What holds of every run: each attempt but the last was aborted, the
    /// run is over when an attempt was not, and the unit of work was invoked
    /// once for each attempt.
    pub open spec fn well_formed(self) -> bool {
        &&& self.tx.well_formed()
        &&& !(self.in_attempt && self.done)
        &&& self.attempts == self.outcomes.len() + if self.in_attempt {
            1nat
        } else {
            0nat
        }
        &&& if self.done {
            &&& self.outcomes.len() > 0
            &&& !is_abort(self.outcomes.last())
            &&& forall|i: int|
                0 <= i < self.outcomes.len() - 1 ==> is_abort(#[trigger] self.outcomes[i])
        } else {
            forall|i: int| 0 <= i < self.outcomes.len() ==> is_abort(#[trigger] self.outcomes[i])
        }
    }
}

impl TxRunner {
    #[verifier::type_invariant]
    closed spec fn inv(self) -> bool {
        self@.well_formed()
    }

    /// A run in which the unit of work was not invoked yet.
    pub fn new() -> (r: TxRunner)
        ensures
            r@.tx == TxModel::fresh(),
            r@.attempts == 0,
            !r@.in_attempt,
            !r@.done,
            r@.outcomes == Seq::<Result<(), Error>>::empty(),
    {
        TxRunner {
            tx: Tx::new(),
            attempts: 0,
            in_attempt: false,
            done: false,
            outcomes: Ghost(Seq::empty()),
        }
    }

    /// The number of times that the unit of work was invoked.
    pub fn attempts(&self) -> (r: u64)
        ensures
            r == self@.attempts,
            self@.well_formed(),
    {
        proof {
            use_type_invariant(self);
        }
        self.attempts
    }

    /// Whether the run is over.
    pub fn is_done(&self) -> (r: bool)
        ensures
            r == self@.done,
    {
        self.done
    }

    /// Whether an attempt is under way.
    pub fn in_attempt(&self) -> (r: bool)
        ensures
            r == self@.in_attempt,
    {
        self.in_attempt
    }

    /// The attempt that is under way, or the last one.
    pub fn tx(&self) -> (r: &Tx)
        ensures
            r@ == self@.tx,
    {
        &self.tx
    }

    /// Starts an attempt, for which the unit of work is invoked once: the
    /// attempt has no transaction and has issued no statement.
    pub fn begin_attempt(&mut self)
        requires
            !old(self)@.in_attempt,
            !old(self)@.done,
            old(self)@.attempts < u64::MAX,
        ensures
            final(self)@ == (RunModel {
                tx: TxModel::fresh(),
                attempts: old(self)@.attempts + 1,
                in_attempt: true,
                ..old(self)@
            }),
    {
        proof {
            use_type_invariant(&*self);
        }
        let ghost outcomes = self.outcomes@;
        *self =
        TxRunner {
            tx: Tx::new(),
            attempts: self.attempts + 1,
            in_attempt: true,
            done: false,
            outcomes: Ghost(outcomes),
        };
    }

    /// Counts one more statement of the attempt and returns its sequence
    /// number.
    pub fn begin_statement(&mut self) -> (seqno: i64)
        requires
            old(self)@.in_attempt,
            old(self)@.tx.seqno < i64::MAX,
        ensures
            final(self)@ == (RunModel { tx: old(self)@.tx.begin_statement(), ..old(self)@ }),
            seqno == final(self)@.tx.seqno,
    {
        proof {
            use_type_invariant(&*self);
        }
        let mut tx = Tx::new();
        std::mem::swap(&mut tx, &mut self.tx);
        let seqno = tx.begin_statement();
        proof {
            lemma_attempt_steps(old(self)@.tx, None);
        }
        let ghost outcomes = self.outcomes@;
        *self =
        TxRunner {
            tx,
            attempts: self.attempts,
            in_attempt: self.in_attempt,
            done: self.done,
            outcomes: Ghost(outcomes),
        };
        seqno
    }

    /// Takes note of the answer to a statement of the attempt.
    pub fn end_statement(&mut self, transaction: Option<&Transaction>)
        requires
            old(self)@.in_attempt,
            old(self)@.tx.seqno > 0,
        ensures
            final(self)@ == (RunModel {
                tx: old(self)@.tx.end_statement(
                    match transaction {
                        Some(tx) => Some(tx@),
                        None => None,
                    },
                ),
                ..old(self)@
            }),
    {
        proof {
            use_type_invariant(&*self);
        }
        let mut tx = Tx::new();
        std::mem::swap(&mut tx, &mut self.tx);
        tx.end_statement(transaction);
        proof {
            lemma_attempt_steps(
                old(self)@.tx,
                match transaction {
                    Some(tx) => Some(tx@),
                    None => None,
                },
            );
        }
        let ghost outcomes = self.outcomes@;
        *self =
        TxRunner {
            tx,
            attempts: self.attempts,
            in_attempt: self.in_attempt,
            done: self.done,
            outcomes: Ghost(outcomes),
        };
    }

    /// What is to be done about the transaction of the attempt now that the
    /// unit of work has returned. Nothing is to be done for an attempt that
    /// has issued no statement.
    pub fn completion(&self, work_succeeded: bool) -> (r: Completion)
        ensures
            r@ == self@.tx.completion(work_succeeded),
            self@.tx.seqno == 0 ==> r is Nothing,
    {
        self.tx.completion(work_succeeded)
    }

    /// Ends the attempt with the answer to its commit or rollback, or with
    /// success where the service was not called, and decides whether the
    /// unit of work is invoked again. When the run is over, the unit of work
    /// was invoked once for each attempt: once more than it was aborted.
    pub fn conclude(&mut self, outcome: Result<(), Error>) -> (r: Verdict)
        requires
            old(self)@.in_attempt,
        ensures
            r@ == verdict_of(outcome),
            r matches Verdict::Fail(e) ==> outcome == Err::<(), Error>(e),
            final(self)@ == (RunModel {
                in_attempt: false,
                done: !is_abort(outcome),
                outcomes: old(self)@.outcomes.push(outcome),
                ..old(self)@
            }),
            final(self)@.attempts == invocations(final(self)@.outcomes),
    {
        proof {
            use_type_invariant(&*self);
        }
        let ghost outcomes = self.outcomes@.push(outcome);
        let r = verdict(outcome);
        let done = match &r {
            Verdict::Retry => false,
            _ => true,
        };
        proof {
            assert forall|i: int| 0 <= i < outcomes.len() - 1 implies is_abort(
                #[trigger] outcomes[i],
            ) by {
                assert(outcomes[i] == old(self)@.outcomes[i]);
            }
            if done {
                lemma_abort_is_retried(outcomes, outcomes.len() - 1);
            } else {
                lemma_abort_is_retried(outcomes, outcomes.len() as int);
                lemma_invocations_bound(outcomes);
            }
        }
        let mut tx = Tx::new();
        std::mem::swap(&mut tx, &mut self.tx);
        *self =
        TxRunner { tx, attempts: self.attempts, in_attempt: false, done, outcomes: Ghost(outcomes) };
        r
    }
}

/// The unit of work is invoked at most once for each answer.
pub proof fn lemma_invocations_bound(outcomes: Seq<Result<(), Error>>)
    ensures
        invocations(outcomes) <= outcomes.len(),
    decreases outcomes.len(),
{
    if outcomes.len() > 0 {
        lemma_invocations_bound(outcomes.drop_first());
    }
}

/// The status that the service reports for a batch of statements.
#[derive(Debug, PartialEq, Eq)]
pub struct WireStatus {
    pub code: i32,
    pub message: String,
}

/// What the status of a batch says of the batch: nothing where the batch
/// succeeded, else the error that the batch fails with.
pub open spec fn batch_fault(status: Option<WireStatus>) -> Option<ErrorModel> {
    match status {
        None => Some(ErrorModel::Codec("missing status"@)),
        Some(status) => if status.code != 0 {
            Some(
                ErrorModel::Status(
                    StatusModel {
                        code: Code::of_number(status.code as int),
                        message: status.message@,
                    },
                ),
            )
        } else {
            None
        },
    }
}

/// Checks the status that the service reports for a batch of statements. A
/// batch without a status is refused, and a batch fails as a whole with the
/// status that the service reports, where that is not success.
pub fn check_batch_status(status: Option<WireStatus>) -> (r: Result<(), Error>)
    ensures
        match batch_fault(status) {
            Some(e) => r matches Err(f) && f@ == e,
            None => r is Ok,
        },
{
    match status {
        None => Err(Error::Codec(String::from_str("missing status"))),
        Some(status) => if status.code != 0 {
            Err(
                Error::Status(
                    Status::new(
                        Code::from_i32(status.code),
                        status.message,
                    ),
                ),
            )
        } else {
            Ok(())
        },
    }
}

/// The result sets that the answers to a batch stand for, in their order,
/// or the fault of the first answer that has one.
pub open spec fn decode_result_sets(answers: Seq<WireResultSet>) -> Result<
    Seq<ResultSetModel>,
    ErrorModel,
>
    decreases answers.len(),
{
    if answers.len() == 0 {
        Ok(Seq::empty())
    } else {
        match decode_result_sets(answers.drop_last()) {
            Err(e) => Err(e),
            Ok(head) => match decode_result_set(answers.last()) {
                Err(e) => Err(e),
                Ok(set) => Ok(head.push(set)),
            },
        }
    }
}

/// A fault among the first `k` answers is the fault of all of them.
pub proof fn lemma_decode_result_sets_fault(answers: Seq<WireResultSet>, k: int)
    requires
        0 <= k <= answers.len(),
        decode_result_sets(answers.subrange(0, k)) is Err,
    ensures
        decode_result_sets(answers) == decode_result_sets(answers.subrange(0, k)),
    decreases answers.len() - k,
{
    if k == answers.len() {
        assert(answers.subrange(0, k) =~= answers);
    } else {
        assert(answers.subrange(0, k + 1).drop_last() =~= answers.subrange(0, k));
        lemma_decode_result_sets_fault(answers, k + 1);
    }
}

/// The mathematical content of a list of result sets.
pub open spec fn result_sets_model(sets: Seq<ResultSet>) -> Seq<ResultSetModel> {
    Seq::new(sets.len(), |i: int| sets[i]@)
}

/// Reads the answer of the service to a batch of statements: the status
/// first, then one result set for each statement. The batch fails as a
/// whole where the status is not success or any result set is refused.
pub fn batch_results(status: Option<WireStatus>, answers: Vec<WireResultSet>) -> (r: Result<
    Vec<ResultSet>,
    Error,
>)
    ensures
        match batch_fault(status) {
            Some(e) => r matches Err(f) && f@ == e,
            None => match r {
                Ok(sets) => decode_result_sets(answers@) == Ok::<Seq<ResultSetModel>, ErrorModel>(
                    result_sets_model(sets@),
                ),
                Err(e) => decode_result_sets(answers@) == Err::<Seq<ResultSetModel>, ErrorModel>(
                    e@,
                ),
            },
        },
{
    match check_batch_status(status) {
        Err(e) => {
            return Err(e);
        },
        Ok(_) => {},
    }
    let ghost given = answers@;
    let mut out: Vec<ResultSet> = Vec::new();
    proof {
        assert(given.subrange(0, 0) =~= Seq::empty());
        assert(result_sets_model(out@) =~= Seq::empty());
    }
    for answer in it: answers
        invariant
            it.seq() == given,
            batch_fault(status) is None,
            decode_result_sets(given.subrange(0, it.index() as int)) == Ok::<
                Seq<ResultSetModel>,
                ErrorModel,
            >(result_sets_model(out@)),
    {
        let ghost k = it.index() as int;
        proof {
            assert(given.subrange(0, k + 1).drop_last() =~= given.subrange(0, k));
            assert(given.subrange(0, k + 1).last() == given[k]);
        }
        match ResultSet::try_from(answer) {
            Err(e) => {
                proof {
                    lemma_decode_result_sets_fault(given, k + 1);
                }
                return Err(e);
            },
            Ok(set) => {
                let ghost before = result_sets_model(out@);
                out.push(set);
                assert(result_sets_model(out@) =~= before.push(set@));
            },
        }
    }
    assert(given.subrange(0, given.len() as int) =~= given);
    Ok(out)
}

/// The numbers of rows that the statements of a batch changed, one for
/// each result set, or the fault of the first result set that has no row
/// count.
pub fn update_counts(sets: &Vec<ResultSet>) -> (r: Result<Vec<i64>, Error>)
    ensures
        match r {
            Ok(counts) => counts@.len() == sets@.len() && forall|i: int|
                0 <= i < sets@.len() ==> (#[trigger] sets@[i]).stats.row_count == Some(counts@[i]),
            Err(e) => e@ == no_row_count() && exists|i: int|
                0 <= i < sets@.len() && (#[trigger] sets@[i]).stats.row_count is None,
        },
{
    let mut counts: Vec<i64> = Vec::new();
    let mut i: usize = 0;
    while i < sets.len()
        invariant
            i <= sets.len(),
            counts@.len() == i,
            forall|j: int| 0 <= j < i ==> (#[trigger] sets@[j]).stats.row_count == Some(counts@[j]),
        decreases sets.len() - i,
    {
        match sets[i].row_count() {
            Ok(n) => {
                counts.push(n);
            },
            Err(e) => {
                return Err(e);
            },
        }
        i = i + 1;
    }
    Ok(counts)
}

} // verus!
