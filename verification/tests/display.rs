use sophia::literal::AsLiteral;
use sophia::ns::xsd;
use sophia::term::StaticTerm;

fn nt_terms() -> Vec<(StaticTerm, &'static str)> {
    vec![
        (
            StaticTerm::new_iri("http://example.org/foo/bar").unwrap(),
            r"<http://example.org/foo/bar>",
        ),
        (
            StaticTerm::new_iri_suffixed("http://example.org/foo/", "bar").unwrap(),
            r"<http://example.org/foo/bar>",
        ),
        (
            // IRI with non ascii term
            StaticTerm::new_iri("http://example.org/hé/\u{10000}/").unwrap(),
            "<http://example.org/hé/\u{10000}/>",
        ),
        (
            // BNode nice
            StaticTerm::new_bnode("foo_bar.baz").unwrap(),
            r"_:foo_bar.baz",
        ),
        (
            StaticTerm::new_literal_lang("chat", "fr-FR").unwrap(),
            r#""chat"@fr-FR"#,
        ),
        ("chat".as_term(), r#""chat""#),
        (
            StaticTerm::new_literal_dt("42", xsd::integer()).unwrap(),
            r#""42"^^<http://www.w3.org/2001/XMLSchema#integer>"#,
        ),
        (
            " \n \r \\ \" hello world".as_term(),
            r#"" \n \r \\ \" hello world""#,
        ),
        (
            // Literal with non-ascii characters
            "é \u{10000}".as_term(),
            // in canonical form, non-ascii characters are NOT escaped in literals
            "\"é \u{10000}\"",
        ),
    ]
}

#[test]
fn terms() {
    for (term, expected) in nt_terms().iter() {
        let got = format!("{}", term.to_string());
        assert_eq!(&got, expected);
    }
}
