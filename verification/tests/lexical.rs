use sophia::error::TermError;
use sophia::lexical::{
    is_absolute_iri_ref, is_valid_bnode_id, is_valid_iri_ref, is_valid_lang_tag, is_valid_var_name,
};
use sophia::term::{BoxTerm, StaticTerm};

#[test]
fn iri_references_accepted_and_refused() {
    assert!(is_valid_iri_ref("http://example.org/foo/bar"));
    assert!(is_valid_iri_ref("http://example.org/hé/\u{10000}/"));
    assert!(is_valid_iri_ref("#me"));
    assert!(is_valid_iri_ref(""));
    assert!(is_valid_iri_ref("x-no-base:///"));
    assert!(!is_valid_iri_ref("http://example.org/a b"));
    assert!(!is_valid_iri_ref("http://example.org/<a>"));
    assert!(!is_valid_iri_ref("a\"b"));
    assert!(!is_valid_iri_ref("a{b"));
    assert!(!is_valid_iri_ref("a}b"));
    assert!(!is_valid_iri_ref("a|b"));
    assert!(!is_valid_iri_ref("a^b"));
    assert!(!is_valid_iri_ref("a`b"));
    assert!(!is_valid_iri_ref("a\\b"));
    assert!(!is_valid_iri_ref("a\nb"));
    assert!(!is_valid_iri_ref("a\u{0}b"));
}

#[test]
fn percent_starts_an_encoded_byte() {
    assert!(is_valid_iri_ref("http://example.org/a%20b"));
    assert!(is_valid_iri_ref("%41%4a%4A"));
    assert!(is_valid_iri_ref("%aF"));
    assert!(!is_valid_iri_ref("%"));
    assert!(!is_valid_iri_ref("%4"));
    assert!(!is_valid_iri_ref("a%4"));
    assert!(!is_valid_iri_ref("%4g"));
    assert!(!is_valid_iri_ref("%g4"));
    assert!(!is_valid_iri_ref("%%41"));
    assert!(!is_valid_iri_ref("http://example.org/100%"));
    assert_eq!(
        BoxTerm::new_iri_suffixed("http://a/%4", "1").unwrap().value(),
        "http://a/%41"
    );
    assert_eq!(
        BoxTerm::new_iri_suffixed("http://a/%", "zz").unwrap_err(),
        TermError::InvalidIri("http://a/%zz".to_string())
    );
}

#[test]
fn absolute_iris_start_with_a_scheme() {
    assert!(is_absolute_iri_ref("http://example.org/"));
    assert!(is_absolute_iri_ref("urn:isbn:0"));
    assert!(is_absolute_iri_ref("a+b-c.d1:x"));
    assert!(!is_absolute_iri_ref("#me"));
    assert!(!is_absolute_iri_ref("foo/bar:baz"));
    assert!(!is_absolute_iri_ref("1http://a"));
    assert!(!is_absolute_iri_ref(":a"));
    assert!(!is_absolute_iri_ref(""));
    assert!(!is_absolute_iri_ref("http"));
    assert!(BoxTerm::new_iri("http://example.org/").unwrap().is_absolute());
    assert!(!BoxTerm::new_iri("../x").unwrap().is_absolute());
    assert!(BoxTerm::new_iri_suffixed("ht", "tp://a").unwrap().is_absolute());
    assert!(!BoxTerm::new_bnode("b").unwrap().is_absolute());
}

#[test]
fn language_tags_accepted_and_refused() {
    assert!(is_valid_lang_tag("fr"));
    assert!(is_valid_lang_tag("fr-FR"));
    assert!(is_valid_lang_tag("en-US-x-private1"));
    assert!(is_valid_lang_tag("de-1996"));
    assert!(!is_valid_lang_tag(""));
    assert!(!is_valid_lang_tag("-fr"));
    assert!(!is_valid_lang_tag("fr-"));
    assert!(!is_valid_lang_tag("fr--FR"));
    assert!(!is_valid_lang_tag("1fr"));
    assert!(!is_valid_lang_tag("f1"));
    assert!(!is_valid_lang_tag("fr_FR"));
    assert!(!is_valid_lang_tag("fr FR"));
    assert!(!is_valid_lang_tag("é"));
}

#[test]
fn blank_node_labels_accepted_and_refused() {
    assert!(is_valid_bnode_id("foo_bar.baz"));
    assert!(is_valid_bnode_id("b0"));
    assert!(is_valid_bnode_id("0"));
    assert!(is_valid_bnode_id("_x"));
    assert!(is_valid_bnode_id("a-b"));
    assert!(is_valid_bnode_id("riog00000001"));
    assert!(is_valid_bnode_id("é\u{b7}"));
    assert!(!is_valid_bnode_id(""));
    assert!(!is_valid_bnode_id("a."));
    assert!(!is_valid_bnode_id(".a"));
    assert!(!is_valid_bnode_id("-a"));
    assert!(!is_valid_bnode_id("a b"));
    assert!(!is_valid_bnode_id("a:b"));
    assert!(!is_valid_bnode_id("\u{b7}a"));
}

#[test]
fn variable_names_accepted_and_refused() {
    assert!(is_valid_var_name("x"));
    assert!(is_valid_var_name("x1"));
    assert!(is_valid_var_name("1x"));
    assert!(is_valid_var_name("_"));
    assert!(is_valid_var_name("é"));
    assert!(!is_valid_var_name(""));
    assert!(!is_valid_var_name("a-b"));
    assert!(!is_valid_var_name("a.b"));
    assert!(!is_valid_var_name("a b"));
    assert!(!is_valid_var_name("?a"));
}

#[test]
fn each_constructor_fails_with_its_own_error() {
    assert_eq!(
        BoxTerm::new_iri("not an iri").unwrap_err(),
        TermError::InvalidIri("not an iri".to_string())
    );
    assert_eq!(
        BoxTerm::new_iri_suffixed("http://a/", "b c").unwrap_err(),
        TermError::InvalidIri("http://a/b c".to_string())
    );
    assert_eq!(
        BoxTerm::new_bnode("a.").unwrap_err(),
        TermError::InvalidBlankNodeId("a.".to_string())
    );
    assert_eq!(
        BoxTerm::new_literal_lang("chat", "fr-").unwrap_err(),
        TermError::InvalidLanguageTag("fr-".to_string())
    );
    assert_eq!(
        BoxTerm::new_variable("a-b").unwrap_err(),
        TermError::InvalidVariableName("a-b".to_string())
    );
    assert_eq!(
        StaticTerm::new_literal_dt("42", StaticTerm::new_bnode("b1").unwrap()).unwrap_err(),
        TermError::InvalidDatatype("b1".to_string())
    );
    assert_eq!(
        StaticTerm::new_literal_dt("42", StaticTerm::new_literal_lang("x", "en").unwrap())
            .unwrap_err(),
        TermError::InvalidDatatype("x".to_string())
    );
}

#[test]
fn errors_describe_themselves() {
    assert_eq!(
        TermError::InvalidIri("a b".to_string()).to_string(),
        "invalid IRI: a b"
    );
    assert_eq!(
        TermError::InvalidLanguageTag("fr-".to_string()).to_string(),
        "invalid language tag: fr-"
    );
    assert_eq!(
        TermError::InvalidBlankNodeId("a.".to_string()).to_string(),
        "invalid blank node label: a."
    );
    assert_eq!(
        TermError::InvalidVariableName("a-b".to_string()).to_string(),
        "invalid variable name: a-b"
    );
    assert_eq!(
        TermError::InvalidDatatype("b1".to_string()).to_string(),
        "datatype is not an IRI: b1"
    );
}
