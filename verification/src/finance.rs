//! The financial-analysis workflow: document kinds, the prompt
//! builder, the workspace path convention, and the two pipeline state
//! machines — the statement run over the three financial statements
//! and the page scan over one report PDF's extracted text.
//!
//! The pipeline's outside work — reading files, extracting PDF text,
//! sending completions, sleeping between calls, writing artifacts —
//! is the caller's: the caller asks a state machine what to do next
//! and hands back the outcome.

use vstd::prelude::*;
use crate::helper::dec_str;
use crate::helper::usize_to_string;
use crate::llm::Model;
use crate::llm::LLM;
use crate::ToolError;

verus! {

/// The seconds the pipeline waits between statement analyses.
pub const STATEMENT_DELAY_SECS: u64 = 30;

/// The seconds the pipeline waits after each report page.
pub const PAGE_DELAY_SECS: u64 = 30;

/// The seconds the pipeline waits before retrying one failed
/// page-level completion.
pub const RETRY_DELAY_SECS: u64 = 120;

/// The kinds of document the pipeline analyzes.
#[derive(Clone, Copy, Debug, PartialEq, Eq, Structural)]
pub enum DocumentKind {
    Income,
    CashFlow,
    BalanceSheet,
    ReportPage,
}

/// The noun each statement kind's template names; a report page has
/// its own template and no noun.
pub open spec fn statement_noun(kind: DocumentKind) -> Seq<char> {
    match kind {
        DocumentKind::Income => "income statement"@,
        DocumentKind::CashFlow => "cash flow statement"@,
        DocumentKind::BalanceSheet => "balance sheet statement"@,
        DocumentKind::ReportPage => Seq::empty(),
    }
}

/// The prompt of one statement analysis: the shared statement
/// template with the kind's noun, the ticker and the verbatim
/// statement text interpolated.
pub open spec fn statement_prompt_text(
    kind: DocumentKind,
    ticker: Seq<char>,
    text: Seq<char>,
) -> Seq<char> {
    "- I want you analyze the provided "@ + statement_noun(kind)
        + " in detail for the stock ticker "@ + ticker
        + "\n- I want to break information down by both annual and quarter.\n- The "@
        + statement_noun(kind) + " is as follows: "@ + text
        + "\n- Please write in paragraphs and use spaces to make things easier to read.\n- It is imperative for each heading to be on a new line.\n- It is imperative for you to respect and avoid tampering with financial figures: do not interchange millions and billions, and do not substitute a comma with a period.\n- Make a detailed report of your findings."@
}

/// The prompt of one report-page analysis: the page template with the
/// ticker, the page number and the verbatim extracted page text
/// interpolated.
pub open spec fn page_prompt_text(ticker: Seq<char>, text: Seq<char>, page: nat) -> Seq<char> {
    "- You are being given investment information page by page for the stock ticker "@ + ticker
        + "\n- I want you to scan through the information.\n- I want you to explain what is being said on the page and summarize it into something easily digestible for someone that is not financially literate or savvy.\n- It is imperative for you to respect and avoid tampering with financial figures: do not interchange millions and billions, and do not substitute a comma with a period.\n- It is imperative to follow this format:\n**PAGE NUMBER: **\n**REPORT: **\n- current page number "@
        + dec_str(page) + " => "@ + text
}

/// The prompt of one analysis request: the kind's template with the
/// ticker, the document text and (for a report page) the page number
/// interpolated.
pub open spec fn prompt_text(
    kind: DocumentKind,
    ticker: Seq<char>,
    text: Seq<char>,
    page_index: Option<nat>,
) -> Seq<char> {
    match kind {
        DocumentKind::ReportPage => page_prompt_text(
            ticker,
            text,
            match page_index {
                Some(p) => p,
                None => 0,
            },
        ),
        _ => statement_prompt_text(kind, ticker, text),
    }
}

/// The page index as the spec sees it.
pub open spec fn spec_page_index(page_index: Option<usize>) -> Option<nat> {
    match page_index {
        Some(p) => Some(p as nat),
        None => None,
    }
}

/// Builds the analysis prompt of one document. This is the whole
/// prompt builder: a pure mapping from the request to the instruction
/// string.
pub fn build_prompt(kind: DocumentKind, ticker: &str, text: &str, page_index: Option<usize>) -> (r:
    String)
    requires
        kind is ReportPage ==> page_index is Some,
    ensures
        r@ == prompt_text(kind, ticker@, text@, spec_page_index(page_index)),
{
    match kind {
        DocumentKind::ReportPage => {
            let page = match page_index {
                Some(p) => p,
                None => 0,
            };
            let page_str = usize_to_string(page);
            let mut r = String::new();
            r.append(
                "- You are being given investment information page by page for the stock ticker ",
            );
            r.append(ticker);
            r.append(
                "\n- I want you to scan through the information.\n- I want you to explain what is being said on the page and summarize it into something easily digestible for someone that is not financially literate or savvy.\n- It is imperative for you to respect and avoid tampering with financial figures: do not interchange millions and billions, and do not substitute a comma with a period.\n- It is imperative to follow this format:\n**PAGE NUMBER: **\n**REPORT: **\n- current page number ",
            );
            r.append(page_str.as_str());
            r.append(" => ");
            r.append(text);
            assert(r@ =~= prompt_text(kind, ticker@, text@, spec_page_index(page_index)));
            r
        },
        _ => {
            let noun: &str = match kind {
                DocumentKind::Income => "income statement",
                DocumentKind::CashFlow => "cash flow statement",
                DocumentKind::BalanceSheet => "balance sheet statement",
                DocumentKind::ReportPage => "",
            };
            assert(noun@ == statement_noun(kind));
            let mut r = String::new();
            r.append("- I want you analyze the provided ");
            r.append(noun);
            r.append(" in detail for the stock ticker ");
            r.append(ticker);
            r.append("\n- I want to break information down by both annual and quarter.\n- The ");
            r.append(noun);
            r.append(" is as follows: ");
            r.append(text);
            r.append(
                "\n- Please write in paragraphs and use spaces to make things easier to read.\n- It is imperative for each heading to be on a new line.\n- It is imperative for you to respect and avoid tampering with financial figures: do not interchange millions and billions, and do not substitute a comma with a period.\n- Make a detailed report of your findings.",
            );
            assert(r@ =~= prompt_text(kind, ticker@, text@, spec_page_index(page_index)));
            r
        },
    }
}

/// Building a prompt twice from an identical request yields identical
/// output: the prompt is a function of the kind, the ticker, the text
/// and the page index alone.
pub proof fn lemma_prompt_build_deterministic(
    r1: Seq<char>,
    r2: Seq<char>,
    kind: DocumentKind,
    ticker: Seq<char>,
    text: Seq<char>,
    page_index: Option<nat>,
)
    requires
        r1 == prompt_text(kind, ticker, text, page_index),
        r2 == prompt_text(kind, ticker, text, page_index),
    ensures
        r1 == r2,
{
}

/// The workspace directory of one ticker under the configured root.
pub open spec fn workspace_dir_text(root: Seq<char>, ticker: Seq<char>) -> Seq<char> {
    root + "/"@ + ticker
}

/// The input filename of one statement kind.
pub open spec fn statement_filename_text(kind: DocumentKind) -> Seq<char> {
    match kind {
        DocumentKind::Income => "income_statement.txt"@,
        DocumentKind::CashFlow => "cash_flow_statement.txt"@,
        DocumentKind::BalanceSheet => "balance_sheet_statement.txt"@,
        DocumentKind::ReportPage => Seq::empty(),
    }
}

/// The analysis artifact filename of one statement kind.
pub open spec fn analysis_filename_text(kind: DocumentKind) -> Seq<char> {
    match kind {
        DocumentKind::Income => "income_analysis.html"@,
        DocumentKind::CashFlow => "cash_flow_analysis.html"@,
        DocumentKind::BalanceSheet => "balance_sheet_analysis.html"@,
        DocumentKind::ReportPage => Seq::empty(),
    }
}

/// The workspace directory of one ticker.
pub fn workspace_dir(root: &str, ticker: &str) -> (r: String)
    ensures
        r@ == workspace_dir_text(root@, ticker@),
{
    let mut r = String::new();
    r.append(root);
    r.append("/");
    r.append(ticker);
    r
}

/// The input filename of one statement kind.
pub fn statement_filename(kind: DocumentKind) -> (r: String)
    requires
        !(kind is ReportPage),
    ensures
        r@ == statement_filename_text(kind),
{
    match kind {
        DocumentKind::Income => String::from_str("income_statement.txt"),
        DocumentKind::CashFlow => String::from_str("cash_flow_statement.txt"),
        DocumentKind::BalanceSheet => String::from_str("balance_sheet_statement.txt"),
        DocumentKind::ReportPage => String::new(),
    }
}

/// The analysis artifact filename of one statement kind.
pub fn analysis_filename(kind: DocumentKind) -> (r: String)
    requires
        !(kind is ReportPage),
    ensures
        r@ == analysis_filename_text(kind),
{
    match kind {
        DocumentKind::Income => String::from_str("income_analysis.html"),
        DocumentKind::CashFlow => String::from_str("cash_flow_analysis.html"),
        DocumentKind::BalanceSheet => String::from_str("balance_sheet_analysis.html"),
        DocumentKind::ReportPage => String::new(),
    }
}

/// The full path of one statement input file.
pub fn statement_path(root: &str, ticker: &str, kind: DocumentKind) -> (r: String)
    requires
        !(kind is ReportPage),
    ensures
        r@ == workspace_dir_text(root@, ticker@) + "/"@ + statement_filename_text(kind),
{
    let mut r = workspace_dir(root, ticker);
    r.append("/");
    let name = statement_filename(kind);
    r.append(name.as_str());
    r
}

/// The full path of one analysis artifact.
pub fn analysis_path(root: &str, ticker: &str, artifact: &str) -> (r: String)
    ensures
        r@ == workspace_dir_text(root@, ticker@) + "/analysis/"@ + artifact@,
{
    let mut r = workspace_dir(root, ticker);
    r.append("/analysis/");
    r.append(artifact);
    r
}

/// The reports directory of one ticker.
pub fn reports_dir(root: &str, ticker: &str) -> (r: String)
    ensures
        r@ == workspace_dir_text(root@, ticker@) + "/reports"@,
{
    let mut r = workspace_dir(root, ticker);
    r.append("/reports");
    r
}

/// The path of the incrementally appended page-summary file.
pub fn summaries_path(root: &str, ticker: &str) -> (r: String)
    ensures
        r@ == workspace_dir_text(root@, ticker@) + "/analysis/summaries.txt"@,
{
    let mut r = workspace_dir(root, ticker);
    r.append("/analysis/summaries.txt");
    r
}

/// The financial-analysis workflow of one ticker.
#[derive(Clone)]
pub struct Finance {
    pub ticker: String,
    pub llm: LLM,
}

impl Finance {
    /// A workflow for the given ticker, driven through the given
    /// client configuration.
    pub fn new(ticker: String, llm: LLM) -> (f: Finance)
        ensures
            f.ticker == ticker,
            f.llm == llm,
    {
        Finance { ticker, llm }
    }

    /// The analysis prompt of one statement of this ticker.
    pub fn statement_prompt(&self, kind: DocumentKind, text: &str) -> (r: String)
        requires
            !(kind is ReportPage),
        ensures
            r@ == prompt_text(kind, self.ticker@, text@, None),
    {
        build_prompt(kind, self.ticker.as_str(), text, None)
    }
}

/// The persona the workflow sets as its session's system prompt.
pub open spec fn analyst_persona() -> Seq<char> {
    "Act as a financial analyst named Mustafa. Mustafa has an MBA in Finance and he is a CFA, with long experience in financial analysis and investing in companies. His writing style is direct, concise and non-apologetic, with the goal of helping his clients. He does not assume that his clients know financial jargon, so he explains all financial concepts when creating his report, breaks complex problems down into smaller, manageable steps, and is mindful of the figures, million or billion, that he mentions in his report."@
}

/// The persona the workflow sets as its session's system prompt.
pub fn analyst_system_prompt() -> (r: String)
    ensures
        r@ == analyst_persona(),
{
    String::from_str(
        "Act as a financial analyst named Mustafa. Mustafa has an MBA in Finance and he is a CFA, with long experience in financial analysis and investing in companies. His writing style is direct, concise and non-apologetic, with the goal of helping his clients. He does not assume that his clients know financial jargon, so he explains all financial concepts when creating his report, breaks complex problems down into smaller, manageable steps, and is mindful of the figures, million or billion, that he mentions in his report.",
    )
}

/// The aggregation prompt of the optional final step: every page
/// summary gathered into one executive-summary request, sent to a
/// smaller, faster model.
pub open spec fn executive_summary_text(ticker: Seq<char>, summaries: Seq<char>) -> Seq<char> {
    "- The following are page-by-page summaries of the reports for the stock ticker "@ + ticker
        + "\n- I want you to aggregate them into one executive summary that is easy to read for someone that is not financially literate or savvy.\n- It is imperative for you to respect and avoid tampering with financial figures: do not interchange millions and billions, and do not substitute a comma with a period.\n- The summaries are as follows: "@
        + summaries
}

/// Builds the executive-summary prompt over the gathered page
/// summaries.
pub fn executive_summary_prompt(ticker: &str, summaries: &str) -> (r: String)
    ensures
        r@ == executive_summary_text(ticker@, summaries@),
{
    let mut r = String::new();
    r.append("- The following are page-by-page summaries of the reports for the stock ticker ");
    r.append(ticker);
    r.append(
        "\n- I want you to aggregate them into one executive summary that is easy to read for someone that is not financially literate or savvy.\n- It is imperative for you to respect and avoid tampering with financial figures: do not interchange millions and billions, and do not substitute a comma with a period.\n- The summaries are as follows: ",
    );
    r.append(summaries);
    assert(r@ =~= executive_summary_text(ticker@, summaries@));
    r
}

/// The model of the executive-summary step: a smaller, faster model
/// than the per-document analyses use.
pub const EXECUTIVE_SUMMARY_MODEL: Model = Model::LLMA8b;

/// Maps the outcome of reading one statement file: an absent file is
/// the typed `MissingDocument` condition, which the statement run
/// treats as a skip.
pub fn require_document(contents: Option<String>) -> (r: Result<String, ToolError>)
    ensures
        match contents {
            Some(text) => r == Ok::<String, ToolError>(text),
            None => r == Err::<String, ToolError>(ToolError::MissingDocument),
        },
{
    match contents {
        Some(text) => Ok(text),
        None => Err(ToolError::MissingDocument),
    }
}

/// The fixed order of the statement phase: income statement, cash
/// flow statement, balance sheet.
pub open spec fn statement_order() -> Seq<DocumentKind> {
    seq![DocumentKind::Income, DocumentKind::CashFlow, DocumentKind::BalanceSheet]
}

/// The final status of a statement run: every unit completed, some
/// units completed and some were skipped, or nothing completed.
#[derive(Clone, Copy, Debug, PartialEq, Eq, Structural)]
pub enum RunStatus {
    Complete,
    Partial,
    Failed,
}

/// The final status of any count of pipeline units: `Complete` when
/// nothing was skipped, `Partial` when the attempted units completed
/// beside skipped ones, `Failed` when no unit completed.
pub open spec fn spec_run_status(completed: int, skipped: int) -> RunStatus {
    if skipped == 0 {
        RunStatus::Complete
    } else if completed > 0 {
        RunStatus::Partial
    } else {
        RunStatus::Failed
    }
}

/// The final status over the given unit counts. The whole pipeline's
/// status folds the statement units and the report units together.
pub fn run_status(completed: usize, skipped: usize) -> (r: RunStatus)
    ensures
        r == spec_run_status(completed as int, skipped as int),
{
    if skipped == 0 {
        RunStatus::Complete
    } else if completed > 0 {
        RunStatus::Partial
    } else {
        RunStatus::Failed
    }
}

/// The statement phase of the pipeline: walks the three statements in
/// their fixed order, skipping a statement whose input file is
/// missing and carrying on with the rest.
#[derive(Clone, Copy, Debug)]
pub struct StatementRun {
    pub next: usize,
    pub completed: usize,
    pub skipped: usize,
}

impl StatementRun {
    /// Well-formedness: every earlier unit was either completed or
    /// skipped.
    pub open spec fn wf(&self) -> bool {
        &&& self.next <= statement_order().len()
        &&& self.completed + self.skipped == self.next
    }

    /// The run after the current statement was analyzed and written.
    pub open spec fn spec_on_analyzed(self) -> StatementRun {
        StatementRun {
            next: (self.next + 1) as usize,
            completed: (self.completed + 1) as usize,
            skipped: self.skipped,
        }
    }

    /// The run after the current statement's input file was found
    /// missing and the unit was skipped.
    pub open spec fn spec_on_missing(self) -> StatementRun {
        StatementRun {
            next: (self.next + 1) as usize,
            completed: self.completed,
            skipped: (self.skipped + 1) as usize,
        }
    }

    /// The final status of the statement phase alone.
    pub open spec fn spec_status(self) -> RunStatus {
        spec_run_status(self.completed as int, self.skipped as int)
    }

    /// A run that has processed nothing yet.
    pub fn new() -> (r: StatementRun)
        ensures
            r.wf(),
            r.next == 0,
            r.completed == 0,
            r.skipped == 0,
    {
        StatementRun { next: 0, completed: 0, skipped: 0 }
    }

    /// The statement to process next, or `None` once all three are
    /// done.
    pub fn current_kind(&self) -> (r: Option<DocumentKind>)
        requires
            self.wf(),
        ensures
            r == if self.next < statement_order().len() {
                Some(statement_order()[self.next as int])
            } else {
                None::<DocumentKind>
            },
    {
        if self.next == 0 {
            Some(DocumentKind::Income)
        } else if self.next == 1 {
            Some(DocumentKind::CashFlow)
        } else if self.next == 2 {
            Some(DocumentKind::BalanceSheet)
        } else {
            None
        }
    }

    /// Records that the current statement was analyzed and its
    /// artifact written.
    pub fn on_analyzed(&mut self)
        requires
            old(self).wf(),
            old(self).next < statement_order().len(),
        ensures
            *final(self) == old(self).spec_on_analyzed(),
            final(self).wf(),
    {
        self.next += 1;
        self.completed += 1;
    }

    /// Records that the current statement's input file is missing and
    /// the unit is skipped; the run carries on with the next
    /// statement.
    pub fn on_missing(&mut self)
        requires
            old(self).wf(),
            old(self).next < statement_order().len(),
        ensures
            *final(self) == old(self).spec_on_missing(),
            final(self).wf(),
    {
        self.next += 1;
        self.skipped += 1;
    }

    /// The final status of the run.
    pub fn status(&self) -> (r: RunStatus)
        ensures
            r == self.spec_status(),
    {
        run_status(self.completed, self.skipped)
    }
}

/// A missing statement does not end the run: the next statement is
/// still attempted, and once any other unit completes the final
/// status reflects the partial success.
pub proof fn lemma_missing_statement_continues(r: StatementRun)
    requires
        r.wf(),
        r.next < statement_order().len(),
    ensures
        ({
            let s = r.spec_on_missing();
            &&& s.wf()
            &&& s.next == r.next + 1
            &&& s.completed == r.completed
            &&& s.skipped == r.skipped + 1
            &&& (s.next < statement_order().len() ==> statement_order()[s.next as int]
                == statement_order()[r.next + 1])
            &&& (s.completed > 0 ==> s.spec_status() == RunStatus::Partial)
            &&& s.spec_status() != RunStatus::Complete
        }),
{
}

/// The mathematical image of a [`ReportScan`].
pub struct ScanView {
    pub ticker: Seq<char>,
    pub pages: Seq<Seq<char>>,
    pub next_page: int,
    pub retried: bool,
    pub aborted: bool,
    pub summaries: Seq<Seq<char>>,
}

impl ScanView {
    /// Well-formedness: the cursor never passes the end.
    pub open spec fn wf(self) -> bool {
        0 <= self.next_page <= self.pages.len()
    }

    /// Whether a page remains to process.
    pub open spec fn scanning(self) -> bool {
        &&& !self.aborted
        &&& self.next_page < self.pages.len()
    }

    /// The scan after the current page, whose extracted text is
    /// empty, was passed over without a completion call.
    pub open spec fn on_skip(self) -> ScanView {
        ScanView { next_page: self.next_page + 1, retried: false, ..self }
    }

    /// The scan after the current page's completion succeeded: its
    /// summary joins the list, once, and the scan moves on.
    pub open spec fn on_success(self, response: Seq<char>) -> ScanView {
        ScanView {
            next_page: self.next_page + 1,
            retried: false,
            summaries: self.summaries.push(response),
            ..self
        }
    }

    /// The scan after the current page's completion failed: the first
    /// failure arms the single retry, a second failure aborts the
    /// whole report with no entry for the page.
    pub open spec fn on_failure(self) -> ScanView {
        if !self.retried {
            ScanView { retried: true, ..self }
        } else {
            ScanView { aborted: true, ..self }
        }
    }
}

/// What the caller should do next with one report scan.
pub enum ScanStep {
    /// Send this prompt as a completion and report the outcome.
    Query(String),
    /// The current page has no extracted text: pass it over.
    SkipPage,
    /// Every page was processed, or the report was aborted.
    Finished,
}

/// The page scan of one report: walks the extracted page texts in
/// order, asks for one completion per non-empty page with a single
/// retry on failure, and collects the page summaries.
pub struct ReportScan {
    pub ticker: String,
    pub pages: Vec<String>,
    pub next_page: usize,
    pub retried: bool,
    pub aborted: bool,
    pub summaries: Vec<String>,
}

impl View for ReportScan {
    type V = ScanView;

    open spec fn view(&self) -> ScanView {
        ScanView {
            ticker: self.ticker@,
            pages: self.pages.deep_view(),
            next_page: self.next_page as int,
            retried: self.retried,
            aborted: self.aborted,
            summaries: self.summaries.deep_view(),
        }
    }
}

impl ReportScan {
    /// A scan over the extracted page texts of one report.
    pub fn new(ticker: String, pages: Vec<String>) -> (s: ReportScan)
        ensures
            s@.wf(),
            s@.ticker == ticker@,
            s@.pages == pages.deep_view(),
            s@.next_page == 0,
            !s@.retried,
            !s@.aborted,
            s@.summaries == Seq::<Seq<char>>::empty(),
    {
        let s = ReportScan {
            ticker,
            pages,
            next_page: 0,
            retried: false,
            aborted: false,
            summaries: Vec::new(),
        };
        proof {
            assert(s@.summaries =~= Seq::<Seq<char>>::empty());
        }
        s
    }

    /// What to do next: finished once every page is processed or the
    /// report was aborted; pass over a page with empty extracted
    /// text; otherwise send the page's prompt.
    pub fn next_step(&self) -> (r: ScanStep)
        requires
            self@.wf(),
        ensures
            match r {
                ScanStep::Finished => !self@.scanning(),
                ScanStep::SkipPage => self@.scanning() && self@.pages[self@.next_page].len() == 0,
                ScanStep::Query(p) => self@.scanning() && self@.pages[self@.next_page].len() > 0
                    && p@ == prompt_text(
                    DocumentKind::ReportPage,
                    self@.ticker,
                    self@.pages[self@.next_page],
                    Some(self@.next_page as nat),
                ),
            },
    {
        if self.aborted || self.next_page >= self.pages.len() {
            ScanStep::Finished
        } else {
            let text = &self.pages[self.next_page];
            if text.as_str().unicode_len() == 0 {
                ScanStep::SkipPage
            } else {
                ScanStep::Query(
                    build_prompt(
                        DocumentKind::ReportPage,
                        self.ticker.as_str(),
                        text.as_str(),
                        Some(self.next_page),
                    ),
                )
            }
        }
    }

    /// Passes over the current page, whose extracted text is empty.
    pub fn on_page_skipped(&mut self)
        requires
            old(self)@.wf(),
            old(self)@.scanning(),
            old(self)@.pages[old(self)@.next_page].len() == 0,
        ensures
            final(self)@ == old(self)@.on_skip(),
            final(self)@.wf(),
    {
        let n = self.pages.len();
        proof {
            assert(self.pages.deep_view().len() == n);
        }
        self.next_page += 1;
        self.retried = false;
    }

    /// Records the successful completion of the current page: exactly
    /// one summary entry is appended for it.
    pub fn on_page_success(&mut self, response: String)
        requires
            old(self)@.wf(),
            old(self)@.scanning(),
        ensures
            final(self)@ == old(self)@.on_success(response@),
            final(self)@.wf(),
    {
        let n = self.pages.len();
        proof {
            assert(self.pages.deep_view().len() == n);
        }
        self.summaries.push(response);
        self.next_page += 1;
        self.retried = false;
        proof {
            assert(self@.summaries =~= old(self)@.summaries.push(self@.summaries.last()));
        }
    }

    /// Records one failed completion of the current page: the first
    /// failure arms the single retry, a second aborts the report.
    pub fn on_page_failure(&mut self)
        requires
            old(self)@.wf(),
            old(self)@.scanning(),
        ensures
            final(self)@ == old(self)@.on_failure(),
            final(self)@.wf(),
    {
        if !self.retried {
            self.retried = true;
        } else {
            self.aborted = true;
        }
    }
}

/// The single bounded retry yields exactly one summary entry for a
/// page that fails once and then succeeds, with no duplicate; a page
/// that fails twice yields no entry and the document-level skip is
/// recorded.
pub proof fn lemma_retry_yields_single_entry(s: ScanView, response: Seq<char>)
    requires
        s.wf(),
        s.scanning(),
        !s.retried,
    ensures
        ({
            let recovered = s.on_failure().on_success(response);
            &&& recovered.summaries == s.summaries.push(response)
            &&& recovered.next_page == s.next_page + 1
            &&& !recovered.aborted
        }),
        ({
            let given_up = s.on_failure().on_failure();
            &&& given_up.summaries == s.summaries
            &&& given_up.aborted
        }),
{
}

} // verus!
