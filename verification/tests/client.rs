use spanner_rs::client::{batch_results, check_batch_status, update_counts, verdict, WireStatus};
use spanner_rs::wire::{
    Kind, WireField, WireMetadata, WireResultSet, WireRowCount, WireStats, WireStructType,
    WireType, WireValue,
};
use spanner_rs::{
    Code, Completion, Error, ReadOnly, ResultSet, RunError, Status, TimestampBound, Transaction,
    TransactionSelector, Tx, TxRunner, Verdict,
};

fn aborted() -> Error {
    Error::Status(Status::new(Code::Aborted, "aborted".to_string()))
}

fn tx(id: u8) -> Transaction {
    Transaction::new(vec![id])
}

/// What the service saw of one run of a unit of work.
#[derive(Debug, Default, PartialEq)]
struct Seen {
    seqnos: Vec<i64>,
    commits: usize,
    rollbacks: usize,
    invocations: usize,
}

/// Runs a unit of work that issues `statements` statements in each attempt
/// against a service that answers the commit of the successive attempts
/// with `outcomes`, in the way in which the client drives the library.
fn run(
    statements: usize,
    work_succeeds: bool,
    mut outcomes: Vec<Result<(), Error>>,
) -> (Seen, Result<(), Error>) {
    outcomes.reverse();
    let mut seen = Seen::default();
    let mut runner = TxRunner::new();
    loop {
        runner.begin_attempt();
        seen.invocations += 1;
        for _ in 0..statements {
            let seqno = runner.begin_statement();
            seen.seqnos.push(seqno);
            let begun = tx(seen.invocations as u8);
            let answer = match runner.tx().selector() {
                TransactionSelector::Begin => Some(&begun),
                _ => None,
            };
            runner.end_statement(answer);
        }
        let outcome = match runner.completion(work_succeeds) {
            Completion::Commit(_) => {
                seen.commits += 1;
                outcomes.pop().unwrap()
            }
            Completion::Rollback(_) => {
                seen.rollbacks += 1;
                outcomes.pop().unwrap()
            }
            Completion::Nothing => Ok(()),
        };
        let verdict = runner.conclude(outcome);
        assert_eq!(runner.attempts(), seen.invocations as u64);
        assert!(!runner.in_attempt());
        match verdict {
            Verdict::Retry => {
                assert!(!runner.is_done());
                continue;
            }
            Verdict::Fail(e) => {
                assert!(runner.is_done());
                return (seen, Err(e));
            }
            Verdict::Deliver => {
                assert!(runner.is_done());
                let result = if work_succeeds {
                    Ok(())
                } else {
                    Err(Error::Client("oops".to_string()))
                };
                return (seen, result);
            }
        }
    }
}

#[test]
fn work_without_statements_calls_neither_commit_nor_rollback() {
    let (seen, result) = run(0, true, vec![]);
    assert_eq!(seen.commits, 0);
    assert_eq!(seen.rollbacks, 0);
    assert_eq!(seen.invocations, 1);
    assert_eq!(result, Ok(()));
    let (seen, result) = run(0, false, vec![]);
    assert_eq!(seen.commits, 0);
    assert_eq!(seen.rollbacks, 0);
    assert_eq!(seen.invocations, 1);
    assert_eq!(result, Err(Error::Client("oops".to_string())));
}

#[test]
fn work_is_invoked_once_when_the_commit_succeeds() {
    let (seen, result) = run(2, true, vec![Ok(())]);
    assert_eq!(
        seen,
        Seen {
            seqnos: vec![1, 2],
            commits: 1,
            rollbacks: 0,
            invocations: 1
        }
    );
    assert_eq!(result, Ok(()));
}

#[test]
fn work_is_invoked_again_after_each_abort() {
    let (seen, result) = run(3, true, vec![Err(aborted()), Err(aborted()), Ok(())]);
    assert_eq!(
        seen,
        Seen {
            seqnos: vec![1, 2, 3, 1, 2, 3, 1, 2, 3],
            commits: 3,
            rollbacks: 0,
            invocations: 3
        }
    );
    assert_eq!(result, Ok(()));
}

#[test]
fn failed_work_is_rolled_back_and_its_error_returned() {
    let (seen, result) = run(1, false, vec![Ok(())]);
    assert_eq!(
        seen,
        Seen {
            seqnos: vec![1],
            commits: 0,
            rollbacks: 1,
            invocations: 1
        }
    );
    assert_eq!(result, Err(Error::Client("oops".to_string())));
}

#[test]
fn an_aborted_rollback_is_retried_too() {
    let (seen, _) = run(1, false, vec![Err(aborted()), Ok(())]);
    assert_eq!(seen.rollbacks, 2);
    assert_eq!(seen.invocations, 2);
    assert_eq!(seen.seqnos, vec![1, 1]);
}

#[test]
fn another_commit_error_ends_the_run() {
    let unavailable = || Error::Status(Status::new(Code::Unavailable, "down".to_string()));
    let (seen, result) = run(1, true, vec![Err(aborted()), Err(unavailable())]);
    assert_eq!(seen.invocations, 2);
    assert_eq!(seen.commits, 2);
    assert_eq!(result, Err(unavailable()));
}

#[test]
fn verdict_tells_abort_from_other_outcomes() {
    assert_eq!(verdict(Ok(())), Verdict::Deliver);
    assert_eq!(verdict(Err(aborted())), Verdict::Retry);
    assert_eq!(
        verdict(Err(Error::Client("x".to_string()))),
        Verdict::Fail(Error::Client("x".to_string()))
    );
    assert_eq!(
        verdict(Err(Error::Status(Status::new(
            Code::Unknown,
            "aborted".to_string()
        )))),
        Verdict::Fail(Error::Status(Status::new(
            Code::Unknown,
            "aborted".to_string()
        )))
    );
    assert!(aborted().aborted());
    assert!(!Error::Codec("aborted".to_string()).aborted());
}

#[test]
fn the_first_transaction_of_an_attempt_is_kept() {
    let mut attempt = Tx::new();
    assert_eq!(attempt.seqno(), 0);
    assert!(matches!(attempt.selector(), TransactionSelector::Begin));
    assert_eq!(attempt.completion(true), Completion::Nothing);

    assert_eq!(attempt.begin_statement(), 1);
    attempt.end_statement(None);
    assert!(matches!(attempt.selector(), TransactionSelector::Begin));
    assert_eq!(attempt.completion(true), Completion::Nothing);

    assert_eq!(attempt.begin_statement(), 2);
    attempt.end_statement(Some(&tx(7)));
    assert!(matches!(attempt.selector(), TransactionSelector::Id(t) if *t == tx(7)));

    assert_eq!(attempt.begin_statement(), 3);
    attempt.end_statement(Some(&tx(8)));
    assert!(matches!(attempt.selector(), TransactionSelector::Id(t) if *t == tx(7)));
    assert_eq!(attempt.completion(true), Completion::Commit(tx(7)));
    assert_eq!(attempt.completion(false), Completion::Rollback(tx(7)));

    attempt.reset();
    assert_eq!(attempt.seqno(), 0);
    assert_eq!(attempt.completion(false), Completion::Nothing);
    assert_eq!(attempt.begin_statement(), 1);
}

#[test]
fn read_only_statements_run_in_transactions_of_their_own() {
    let strong = ReadOnly::new(None);
    assert!(matches!(
        strong.selector(),
        TransactionSelector::SingleUse(None)
    ));
    assert_eq!(strong.seqno(), None);
    let stale = ReadOnly::new(Some(TimestampBound::MaxStaleness(
        std::time::Duration::from_secs(10),
    )));
    assert!(matches!(
        stale.selector(),
        TransactionSelector::SingleUse(Some(TimestampBound::MaxStaleness(d)))
            if d == std::time::Duration::from_secs(10)
    ));
    assert!(matches!(
        stale.selector(),
        TransactionSelector::SingleUse(Some(TimestampBound::MaxStaleness(_)))
    ));
}

#[test]
fn pool_timeout_becomes_a_client_error() {
    assert_eq!(
        Error::from_run_error(RunError::TimedOut),
        Error::Client("timeout while obtaining new session".to_string())
    );
    assert_eq!(
        Error::from_run_error(RunError::User(Error::Auth("no token".to_string()))),
        Error::Auth("no token".to_string())
    );
}

fn insert_answer(transaction: Option<Vec<u8>>, rows: i64) -> WireResultSet {
    WireResultSet {
        metadata: Some(WireMetadata {
            row_type: None,
            transaction,
        }),
        rows: vec![],
        stats: Some(WireStats {
            row_count: Some(WireRowCount::RowCountExact(rows)),
        }),
    }
}

#[test]
fn an_insert_is_committed_and_then_read() {
    let mut attempt = Tx::new();
    attempt.reset();
    let seqno = attempt.begin_statement();
    assert_eq!(seqno, 1);
    let answer = ResultSet::try_from(insert_answer(Some(vec![1, 2, 3]), 1)).unwrap();
    attempt.end_statement(answer.transaction());
    let count = answer.row_count();
    assert_eq!(count, Ok(1));
    assert_eq!(
        attempt.completion(count.is_ok()),
        Completion::Commit(Transaction::new(vec![1, 2, 3]))
    );
    assert_eq!(verdict(Ok(())), Verdict::Deliver);

    let read = WireResultSet {
        metadata: Some(WireMetadata {
            row_type: Some(WireStructType {
                fields: vec![
                    WireField {
                        name: "id".to_string(),
                        field_type: Some(WireType {
                            code: 2,
                            array_element_type: None,
                            struct_type: None,
                        }),
                    },
                    WireField {
                        name: "name".to_string(),
                        field_type: Some(WireType {
                            code: 6,
                            array_element_type: None,
                            struct_type: None,
                        }),
                    },
                ],
            }),
            transaction: None,
        }),
        rows: vec![vec![
            WireValue::new(Kind::StringValue("42".to_string())),
            WireValue::new(Kind::StringValue("ferris".to_string())),
        ]],
        stats: None,
    };
    let result_set = ResultSet::try_from(read).unwrap();
    let rows = result_set.iter();
    assert_eq!(rows.len(), 1);
    assert_eq!(rows[0].get::<u32, _>("id"), Ok(42));
    assert_eq!(rows[0].get::<&str, _>("name"), Ok("ferris"));
}

#[test]
fn batch_status_decides_the_whole_batch() {
    assert_eq!(
        check_batch_status(None),
        Err(Error::Codec("missing status".to_string()))
    );
    assert_eq!(
        check_batch_status(Some(WireStatus {
            code: 0,
            message: "fine".to_string()
        })),
        Ok(())
    );
    assert_eq!(
        check_batch_status(Some(WireStatus {
            code: 10,
            message: "lost".to_string()
        })),
        Err(Error::Status(Status::new(Code::Aborted, "lost".to_string())))
    );
    assert_eq!(
        check_batch_status(Some(WireStatus {
            code: 99,
            message: "what".to_string()
        })),
        Err(Error::Status(Status::new(Code::Unknown, "what".to_string())))
    );
    assert_eq!(
        batch_results(
            Some(WireStatus {
                code: 3,
                message: "bad".to_string()
            }),
            vec![insert_answer(None, 1)]
        ),
        Err(Error::Status(Status::new(
            Code::InvalidArgument,
            "bad".to_string()
        )))
    );
}

#[test]
fn batch_results_are_decoded_in_order() {
    let ok = Some(WireStatus {
        code: 0,
        message: String::new(),
    });
    let sets = batch_results(ok, vec![insert_answer(Some(vec![9]), 1), insert_answer(None, 5)])
        .unwrap();
    assert_eq!(sets.len(), 2);
    assert_eq!(sets[0].transaction(), Some(&Transaction::new(vec![9])));
    assert_eq!(sets[1].transaction(), None);
    assert_eq!(update_counts(&sets), Ok(vec![1, 5]));

    let ok = Some(WireStatus {
        code: 0,
        message: String::new(),
    });
    let lower_bound = WireResultSet {
        metadata: None,
        rows: vec![],
        stats: Some(WireStats {
            row_count: Some(WireRowCount::RowCountLowerBound(3)),
        }),
    };
    assert_eq!(
        batch_results(ok, vec![insert_answer(None, 1), lower_bound]),
        Err(Error::Client(
            "lower bound row count is unsupported".to_string()
        ))
    );
    assert_eq!(batch_results(
        Some(WireStatus {
            code: 0,
            message: String::new(),
        }),
        vec![]
    ), Ok(vec![]));
}

#[test]
fn code_numbers_are_those_of_the_protocol() {
    let table = [
        (Code::Success, 0),
        (Code::Cancelled, 1),
        (Code::Unknown, 2),
        (Code::InvalidArgument, 3),
        (Code::DeadlineExceeded, 4),
        (Code::NotFound, 5),
        (Code::AlreadyExists, 6),
        (Code::PermissionDenied, 7),
        (Code::ResourceExhausted, 8),
        (Code::FailedPrecondition, 9),
        (Code::Aborted, 10),
        (Code::OutOfRange, 11),
        (Code::Unimplemented, 12),
        (Code::Internal, 13),
        (Code::Unavailable, 14),
        (Code::DataLoss, 15),
        (Code::Unauthenticated, 16),
    ];
    for (code, number) in table {
        assert_eq!(code.to_i32(), number);
        assert_eq!(Code::from_i32(number), code);
    }
    assert_eq!(Code::from_i32(17), Code::Unknown);
    assert_eq!(Code::from_i32(-1), Code::Unknown);
    assert_eq!(Code::from_i32(i32::MAX), Code::Unknown);
}

#[test]
fn errors_describe_themselves() {
    assert_eq!(
        Error::Client("a".to_string()).describe(),
        "spanner client error: a"
    );
    assert_eq!(
        Error::Config("b".to_string()).describe(),
        "configuration error: b"
    );
    assert_eq!(Error::Codec("c".to_string()).describe(), "codec error: c");
    assert_eq!(
        Error::Auth("d".to_string()).describe(),
        "authentication error: d"
    );
    assert_eq!(
        Error::TransportError("e".to_string()).describe(),
        "transport error: e"
    );
    let status = Status::new(Code::NotFound, "f".to_string());
    assert_eq!(status.code(), Code::NotFound);
    assert_eq!(status.message(), "f");
    assert_eq!(
        Error::Status(status).describe(),
        "unexpected gRPC status: f"
    );
    let e = Error::Status(Status::new(Code::NotFound, "f".to_string()));
    assert_eq!(e.duplicate(), e);
}
