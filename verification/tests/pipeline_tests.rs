use finalyst::finance::{
    analysis_filename, analysis_path, build_prompt, reports_dir, require_document, run_status,
    statement_path, summaries_path, workspace_dir, DocumentKind, ReportScan, RunStatus, ScanStep,
    StatementRun, PAGE_DELAY_SECS, RETRY_DELAY_SECS, STATEMENT_DELAY_SECS,
};
use finalyst::helper::ToDocument;
use finalyst::ToolError;

#[test]
fn statement_run_walks_the_fixed_order() {
    let mut run = StatementRun::new();
    assert_eq!(run.current_kind(), Some(DocumentKind::Income));
    run.on_analyzed();
    assert_eq!(run.current_kind(), Some(DocumentKind::CashFlow));
    run.on_analyzed();
    assert_eq!(run.current_kind(), Some(DocumentKind::BalanceSheet));
    run.on_analyzed();
    assert_eq!(run.current_kind(), None);
    assert_eq!(run.status(), RunStatus::Complete);
}

#[test]
fn missing_income_statement_still_attempts_the_rest() {
    // The income statement file is absent: the run skips it and still
    // attempts the cash flow statement and the balance sheet, and the
    // final status reflects the partial success.
    let mut run = StatementRun::new();
    assert_eq!(run.current_kind(), Some(DocumentKind::Income));
    assert_eq!(require_document(None).unwrap_err(), ToolError::MissingDocument);
    run.on_missing();
    assert_eq!(run.current_kind(), Some(DocumentKind::CashFlow));
    run.on_analyzed();
    assert_eq!(run.current_kind(), Some(DocumentKind::BalanceSheet));
    run.on_analyzed();
    assert_eq!(run.current_kind(), None);
    assert_eq!(run.status(), RunStatus::Partial);
}

#[test]
fn run_with_no_completed_unit_is_failed() {
    let mut run = StatementRun::new();
    run.on_missing();
    run.on_missing();
    run.on_missing();
    assert_eq!(run.status(), RunStatus::Failed);
}

#[test]
fn present_document_passes_through() {
    assert_eq!(require_document(Some("Revenue: 100".to_string())).unwrap(), "Revenue: 100");
}

#[test]
fn income_analysis_artifact_holds_exactly_the_response() {
    // Ticker ACME, income_statement.txt containing "Revenue: 100",
    // mocked completion returning "<p>Analysis</p>": the artifact under
    // analysis/income_analysis.html holds exactly the response.
    let mut run = StatementRun::new();
    let kind = run.current_kind().unwrap();
    assert_eq!(kind, DocumentKind::Income);
    let text = require_document(Some("Revenue: 100".to_string())).unwrap();
    let _prompt = build_prompt(kind, "ACME", &text, None);
    let mocked_response = "<p>Analysis</p>".to_string();
    let artifact = mocked_response.to_document();
    assert_eq!(artifact, "<p>Analysis</p>");
    assert_eq!(analysis_filename(kind), "income_analysis.html");
    assert_eq!(
        analysis_path("/data/financials", "ACME", &analysis_filename(kind)),
        "/data/financials/ACME/analysis/income_analysis.html"
    );
    run.on_analyzed();
    assert_eq!(run.status(), RunStatus::Complete);
}

#[test]
fn empty_page_is_skipped_without_a_completion_call() {
    // A two-page report where page 0 yields text and page 1 yields
    // nothing: exactly one completion call is made and the summary
    // file receives exactly one line.
    let pages = vec!["page one text".to_string(), "".to_string()];
    let mut scan = ReportScan::new("ACME".to_string(), pages);
    let mut completion_calls = 0;
    loop {
        match scan.next_step() {
            ScanStep::Query(prompt) => {
                assert_eq!(prompt, build_prompt(DocumentKind::ReportPage, "ACME", "page one text", Some(0)));
                completion_calls += 1;
                scan.on_page_success("summary of page one".to_string());
            }
            ScanStep::SkipPage => scan.on_page_skipped(),
            ScanStep::Finished => break,
        }
    }
    assert_eq!(completion_calls, 1);
    assert_eq!(scan.summaries, vec!["summary of page one".to_string()]);
    assert_eq!(scan.summaries.to_document(), "summary of page one\n");
    assert!(!scan.aborted);
}

#[test]
fn page_that_fails_once_then_succeeds_yields_one_entry() {
    let pages = vec!["only page".to_string()];
    let mut scan = ReportScan::new("ACME".to_string(), pages);
    let first_prompt = match scan.next_step() {
        ScanStep::Query(p) => p,
        _ => panic!("expected a completion for the non-empty page"),
    };
    scan.on_page_failure();
    assert!(!scan.aborted);
    // The retry re-sends the identical prompt.
    let retry_prompt = match scan.next_step() {
        ScanStep::Query(p) => p,
        _ => panic!("expected the retry to re-send the page"),
    };
    assert_eq!(first_prompt, retry_prompt);
    scan.on_page_success("the summary".to_string());
    assert_eq!(scan.summaries, vec!["the summary".to_string()]);
    assert!(matches!(scan.next_step(), ScanStep::Finished));
}

#[test]
fn page_that_fails_twice_yields_no_entry_and_aborts_the_report() {
    let pages = vec!["only page".to_string(), "second page".to_string()];
    let mut scan = ReportScan::new("ACME".to_string(), pages);
    assert!(matches!(scan.next_step(), ScanStep::Query(_)));
    scan.on_page_failure();
    assert!(matches!(scan.next_step(), ScanStep::Query(_)));
    scan.on_page_failure();
    assert!(scan.aborted);
    assert_eq!(scan.summaries.len(), 0);
    assert!(matches!(scan.next_step(), ScanStep::Finished));
}

#[test]
fn workspace_paths_follow_the_convention() {
    assert_eq!(workspace_dir("/data/financials", "ACME"), "/data/financials/ACME");
    assert_eq!(
        statement_path("/data/financials", "ACME", DocumentKind::Income),
        "/data/financials/ACME/income_statement.txt"
    );
    assert_eq!(
        statement_path("/data/financials", "ACME", DocumentKind::CashFlow),
        "/data/financials/ACME/cash_flow_statement.txt"
    );
    assert_eq!(
        statement_path("/data/financials", "ACME", DocumentKind::BalanceSheet),
        "/data/financials/ACME/balance_sheet_statement.txt"
    );
    assert_eq!(reports_dir("/data/financials", "ACME"), "/data/financials/ACME/reports");
    assert_eq!(
        summaries_path("/data/financials", "ACME"),
        "/data/financials/ACME/analysis/summaries.txt"
    );
    assert_eq!(
        analysis_path("/data/financials", "ACME", "annual_2024.pdf"),
        "/data/financials/ACME/analysis/annual_2024.pdf"
    );
}

#[test]
fn analysis_filenames_are_fixed_per_kind() {
    assert_eq!(analysis_filename(DocumentKind::Income), "income_analysis.html");
    assert_eq!(analysis_filename(DocumentKind::CashFlow), "cash_flow_analysis.html");
    assert_eq!(analysis_filename(DocumentKind::BalanceSheet), "balance_sheet_analysis.html");
}

#[test]
fn inter_call_delays_are_the_documented_constants() {
    assert_eq!(STATEMENT_DELAY_SECS, 30);
    assert_eq!(PAGE_DELAY_SECS, 30);
    assert_eq!(RETRY_DELAY_SECS, 120);
}

#[test]
fn unit_status_folds_completed_and_skipped_counts() {
    assert_eq!(run_status(3, 0), RunStatus::Complete);
    assert_eq!(run_status(0, 0), RunStatus::Complete);
    assert_eq!(run_status(2, 1), RunStatus::Partial);
    assert_eq!(run_status(0, 3), RunStatus::Failed);
}
