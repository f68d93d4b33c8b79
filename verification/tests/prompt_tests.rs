use finalyst::finance::{
    build_prompt, executive_summary_prompt, DocumentKind, Finance, EXECUTIVE_SUMMARY_MODEL,
};
use finalyst::helper::usize_to_string;
use finalyst::llm::{Model, LLM};

#[test]
fn prompt_building_is_idempotent() {
    let a = build_prompt(DocumentKind::CashFlow, "ACME", "Cash: 5", None);
    let b = build_prompt(DocumentKind::CashFlow, "ACME", "Cash: 5", None);
    assert_eq!(a, b);
    let c = build_prompt(DocumentKind::ReportPage, "ACME", "page text", Some(3));
    let d = build_prompt(DocumentKind::ReportPage, "ACME", "page text", Some(3));
    assert_eq!(c, d);
}

#[test]
fn income_prompt_is_exact() {
    let p = build_prompt(DocumentKind::Income, "ACME", "Revenue: 100", None);
    assert_eq!(
        p,
        "- I want you analyze the provided income statement in detail for the stock ticker ACME\n\
         - I want to break information down by both annual and quarter.\n\
         - The income statement is as follows: Revenue: 100\n\
         - Please write in paragraphs and use spaces to make things easier to read.\n\
         - It is imperative for each heading to be on a new line.\n\
         - It is imperative for you to respect and avoid tampering with financial figures: \
         do not interchange millions and billions, and do not substitute a comma with a period.\n\
         - Make a detailed report of your findings."
    );
}

#[test]
fn statement_prompts_embed_their_noun() {
    let cash = build_prompt(DocumentKind::CashFlow, "T", "x", None);
    assert!(cash.contains(
        "- I want you analyze the provided cash flow statement in detail for the stock ticker T\n"
    ));
    assert!(cash.contains("- The cash flow statement is as follows: x\n"));
    let bal = build_prompt(DocumentKind::BalanceSheet, "T", "x", None);
    assert!(bal.contains(
        "- I want you analyze the provided balance sheet statement in detail for the stock ticker T\n"
    ));
    assert!(bal.contains("- The balance sheet statement is as follows: x\n"));
}

#[test]
fn page_prompt_is_exact() {
    let p = build_prompt(DocumentKind::ReportPage, "ACME", "Q1 results", Some(1));
    assert_eq!(
        p,
        "- You are being given investment information page by page for the stock ticker ACME\n\
         - I want you to scan through the information.\n\
         - I want you to explain what is being said on the page and summarize it into something \
         easily digestible for someone that is not financially literate or savvy.\n\
         - It is imperative for you to respect and avoid tampering with financial figures: \
         do not interchange millions and billions, and do not substitute a comma with a period.\n\
         - It is imperative to follow this format:\n\
         **PAGE NUMBER: **\n\
         **REPORT: **\n\
         - current page number 1 => Q1 results"
    );
}

#[test]
fn finance_statement_prompt_uses_its_ticker() {
    let fin = Finance::new("ACME".to_string(), LLM::new());
    let p = fin.statement_prompt(DocumentKind::Income, "Revenue: 100");
    assert_eq!(p, build_prompt(DocumentKind::Income, "ACME", "Revenue: 100", None));
}

#[test]
fn decimal_rendering_is_exact() {
    assert_eq!(usize_to_string(0), "0");
    assert_eq!(usize_to_string(7), "7");
    assert_eq!(usize_to_string(10), "10");
    assert_eq!(usize_to_string(120), "120");
    assert_eq!(usize_to_string(98765), "98765");
    assert_eq!(usize_to_string(4294967295), "4294967295");
}

#[test]
fn executive_summary_prompt_is_exact() {
    let p = executive_summary_prompt("ACME", "summary one\nsummary two\n");
    assert_eq!(
        p,
        "- The following are page-by-page summaries of the reports for the stock ticker ACME\n\
         - I want you to aggregate them into one executive summary that is easy to read for \
         someone that is not financially literate or savvy.\n\
         - It is imperative for you to respect and avoid tampering with financial figures: \
         do not interchange millions and billions, and do not substitute a comma with a period.\n\
         - The summaries are as follows: summary one\nsummary two\n"
    );
    assert_eq!(EXECUTIVE_SUMMARY_MODEL, Model::LLMA8b);
}
