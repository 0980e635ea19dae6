use graph_flow::medical::{check_present, validate_feedback, validate_pdf_path};
use graph_flow::pubmed::{extract_xml_value, parse_pubmed_xml};

const REPLY: &str = "<?xml version=\"1.0\"?>\n<PubmedArticleSet>\n<PubmedArticle>\n  <MedlineCitation>\n    <PMID Version=\"1\">  111  </PMID>\n    <Journal><Title> Brain Journal </Title></Journal>\n    <ArticleTitle>First title</ArticleTitle>\n    <Abstract><AbstractText> First abstract </AbstractText></Abstract>\n  </MedlineCitation>\n</PubmedArticle>\n<PubmedArticle>\n  <MedlineCitation>\n    <ArticleTitle>No id here</ArticleTitle>\n  </MedlineCitation>\n</PubmedArticle>\n<PubmedArticle>\n  <PMID Version=\"1\">222</PMID>\n  <ArticleTitle>Second</ArticleTitle>\n</PubmedArticle>\n</PubmedArticleSet>";

#[test]
fn extract_value_with_attributes_and_trimming() {
    assert_eq!(extract_xml_value("<PMID Version=\"1\">  42 </PMID>", "<PMID"), Some("42".to_string()));
    assert_eq!(extract_xml_value("<a><Title>  T  </Title></a>", "Title"), Some("T".to_string()));
    assert_eq!(extract_xml_value("<Title>T</Title>", "<Title>"), Some("T".to_string()));
    assert_eq!(extract_xml_value("<Title>never closed", "<Title>"), None);
    assert_eq!(extract_xml_value("nothing", "<PMID"), None);
    assert_eq!(extract_xml_value("", "Title"), None);
}

#[test]
fn extract_value_takes_first_occurrence() {
    let xml = "<x>one</x><x>two</x>";
    assert_eq!(extract_xml_value(xml, "x"), Some("one".to_string()));
}

#[test]
fn parse_reply_keeps_sections_with_a_pmid() {
    let articles = parse_pubmed_xml(REPLY);
    assert_eq!(articles.len(), 2);
    assert_eq!(articles[0].pmid, "111");
    assert_eq!(articles[0].title, "First title");
    assert_eq!(articles[0].abstract_text, "First abstract");
    assert_eq!(articles[0].journal.as_deref(), Some("Brain Journal"));
    assert_eq!(articles[0].authors, None);
    assert_eq!(articles[1].pmid, "222");
    assert_eq!(articles[1].title, "Second");
    assert_eq!(articles[1].abstract_text, "");
    assert_eq!(articles[1].journal.as_deref(), Some(""));
    assert_eq!(articles[1].publication_date, None);
}

#[test]
fn parse_reply_without_articles() {
    assert!(parse_pubmed_xml("").is_empty());
    assert!(parse_pubmed_xml("<PubmedArticleSet></PubmedArticleSet>").is_empty());
}

#[test]
fn validators_reject_blank_input() {
    assert_eq!(validate_pdf_path("  \t "), Err("PDF path is required".to_string()));
    assert_eq!(validate_pdf_path(" /data/a.pdf "), Ok(()));
    assert_eq!(validate_feedback(""), Err("Feedback cannot be empty".to_string()));
    assert_eq!(validate_feedback("looks right"), Ok(()));
    assert_eq!(check_present("", "e"), Err("e".to_string()));
    assert_eq!(check_present("x", "e"), Ok(()));
}
