use dbrev::errors::RevError;
use dbrev::reconcile::Reconciler;

fn lines(texts: &[&str]) -> Vec<String> {
    texts.iter().map(|t| t.to_string()).collect()
}

fn run_to_completion(rec: &mut Reconciler) -> Vec<(u64, String)> {
    let mut applied = Vec::new();
    while let Some((pos, stmt)) = rec.next_statement() {
        applied.push((pos, stmt));
        rec.commit_next();
    }
    applied
}

#[test]
fn fresh_run_logs_whole_file() {
    let file = lines(&[
        "CREATE TABLE a(x int);",
        "ALTER TABLE a ADD COLUMN y int;",
        "DROP TABLE a;",
    ]);
    let mut rec = Reconciler::new(Vec::new(), file.clone(), "init.sql".to_string(), "db".to_string())
        .expect("an empty log must reconcile against any file");
    assert_eq!(rec.pending_count(), 3);
    let applied = run_to_completion(&mut rec);
    assert_eq!(applied.len(), 3);
    for (i, (pos, stmt)) in applied.iter().enumerate() {
        assert_eq!(*pos, i as u64);
        assert_eq!(stmt, &file[i]);
    }
    assert!(rec.is_complete());
    assert_eq!(rec.reconciled(), file);
}

#[test]
fn upgrade_scenario_two_statements() {
    let file = lines(&["CREATE TABLE t(x int);", "INSERT INTO t VALUES(1);"]);
    let mut rec = Reconciler::new(Vec::new(), file.clone(), "init.sql".to_string(), "db".to_string())
        .expect("an empty log must reconcile against any file");
    let applied = run_to_completion(&mut rec);
    assert_eq!(
        applied,
        vec![
            (0, "CREATE TABLE t(x int);".to_string()),
            (1, "INSERT INTO t VALUES(1);".to_string()),
        ]
    );
    assert_eq!(rec.reconciled(), file);
}

#[test]
fn second_run_applies_nothing() {
    let file = lines(&["CREATE TABLE t(x int);", "INSERT INTO t VALUES(1);"]);
    let mut first = Reconciler::new(Vec::new(), file.clone(), "init.sql".to_string(), "db".to_string())
        .expect("an empty log must reconcile against any file");
    run_to_completion(&mut first);
    let log = first.reconciled();

    let mut second = Reconciler::new(log, file.clone(), "init.sql".to_string(), "db".to_string())
        .expect("an unchanged file must reconcile against its own log");
    assert_eq!(second.pending_count(), 0);
    assert!(second.is_complete());
    let applied = run_to_completion(&mut second);
    assert!(applied.is_empty());
    assert_eq!(second.reconciled(), file);
}

#[test]
fn mutated_line_is_conflict() {
    let file = lines(&["CREATE TABLE t(x int);", "INSERT INTO t VALUES(1);"]);
    let mut rec = Reconciler::new(Vec::new(), file.clone(), "init.sql".to_string(), "db".to_string())
        .expect("an empty log must reconcile against any file");
    run_to_completion(&mut rec);
    let log = rec.reconciled();

    let mut edited = file.clone();
    edited[1] = "INSERT INTO t VALUES(2);".to_string();
    let err = Reconciler::new(log, edited, "init.sql".to_string(), "db".to_string())
        .expect_err("an edited logged line must conflict");
    assert_eq!(
        err,
        RevError::Conflict {
            position: 1,
            file_text: "INSERT INTO t VALUES(2);".to_string(),
            log_text: "INSERT INTO t VALUES(1);".to_string(),
            file_path: "init.sql".to_string(),
            target: "db".to_string(),
        }
    );
}

#[test]
fn conflict_reports_first_divergent_line() {
    let log = lines(&["a", "b", "c"]);
    let file = lines(&["a", "x", "y"]);
    let err = Reconciler::new(log, file, "f".to_string(), "t".to_string())
        .expect_err("divergent lines must conflict");
    match err {
        RevError::Conflict { position, file_text, log_text, .. } => {
            assert_eq!(position, 1);
            assert_eq!(file_text, "x");
            assert_eq!(log_text, "b");
        }
        other => panic!("expected a conflict, got {:?}", other),
    }
}

#[test]
fn conflict_is_reported_before_staleness() {
    let log = lines(&["a", "b", "c"]);
    let file = lines(&["x"]);
    let err = Reconciler::new(log, file, "f".to_string(), "t".to_string())
        .expect_err("a divergent first line must conflict");
    assert!(matches!(err, RevError::Conflict { position: 0, .. }));
}

#[test]
fn stale_file_applies_nothing() {
    let log = lines(&["a", "b", "c"]);
    let file = lines(&["a", "b"]);
    let err = Reconciler::new(log, file, "init.sql".to_string(), "t".to_string())
        .expect_err("a log longer than the file is stale");
    assert_eq!(err, RevError::StaleFile { file_path: "init.sql".to_string() });
}

#[test]
fn empty_file_and_empty_log_are_reconciled() {
    let mut rec = Reconciler::new(Vec::new(), Vec::new(), "f".to_string(), "t".to_string())
        .expect("two empty sides must reconcile");
    assert!(rec.is_complete());
    assert_eq!(rec.pending_count(), 0);
    assert!(run_to_completion(&mut rec).is_empty());
    assert_eq!(rec.reconciled(), Vec::<String>::new());
}

#[test]
fn partial_log_resumes_where_it_stopped() {
    let log = lines(&["a"]);
    let file = lines(&["a", "b", "c"]);
    let mut rec = Reconciler::new(log, file.clone(), "f".to_string(), "t".to_string())
        .expect("a matching prefix must reconcile");
    assert_eq!(rec.pending_count(), 2);
    let applied = run_to_completion(&mut rec);
    assert_eq!(applied, vec![(1, "b".to_string()), (2, "c".to_string())]);
    assert_eq!(rec.reconciled(), file);
}
