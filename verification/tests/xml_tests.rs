//! Tests of the RDF/XML parser on whole documents, mostly the W3C primer
//! examples, plus the boundary behaviours and error cases.

use rdf_xml::errors::RdfError;
use rdf_xml::factory;
use rdf_xml::graph::VecGraph;
use rdf_xml::sinks::Inserter;
use rdf_xml::term::{LiteralKind, Term, Triple};
use rdf_xml::vocab::xsd;
use rdf_xml::xml::Config;

fn parse_all(txt: &str) -> (Vec<Triple>, Vec<RdfError>) {
    let mut parser = Config::default().parse_str(txt);
    let mut triples = Vec::new();
    let mut errors = Vec::new();
    loop {
        match parser.next_triple() {
            Some(Ok(t)) => triples.push(t),
            Some(Err(e)) => errors.push(e),
            None => break,
        }
    }
    (triples, errors)
}

fn graph_of(triples: &[Triple]) -> VecGraph {
    let mut g = VecGraph::new();
    let mut sink = Inserter::new();
    for t in triples {
        sink.feed(&mut g, t).unwrap();
    }
    g
}

fn iri(text: &str) -> Term {
    factory::iri(text.to_string()).unwrap()
}

fn lit_str(lex: &str) -> Term {
    Term::Literal(lex.to_string(), LiteralKind::Typed(xsd::string_iri()))
}

fn lit_dt(lex: &str, dt: &str) -> Term {
    match factory::iri(dt.to_string()).unwrap() {
        Term::Iri(i) => Term::Literal(lex.to_string(), LiteralKind::Typed(i)),
        _ => unreachable!(),
    }
}

fn lit_lang(lex: &str, tag: &str) -> Term {
    factory::literal_lang(lex.to_string(), tag).unwrap()
}

fn bnode(label: &str) -> Term {
    factory::bnode(label.to_string()).unwrap()
}

#[test]
fn w3c_example_07() {
    let (triples, errors) = parse_all(
        r#"<?xml version="1.0"?>
            <rdf:RDF xmlns:rdf="http://www.w3.org/1999/02/22-rdf-syntax-ns#"
                     xmlns:dc="http://purl.org/dc/elements/1.1/"
                     xmlns:ex="http://example.org/stuff/1.0/">
              <rdf:Description rdf:about="http://www.w3.org/TR/rdf-syntax-grammar"
            		   dc:title="RDF/XML Syntax Specification (Revised)">
                <ex:editor>
                  <rdf:Description ex:fullName="Dave Beckett">
            	<ex:homePage rdf:resource="http://purl.org/net/dajobe/" />
                  </rdf:Description>
                </ex:editor>
              </rdf:Description>
            </rdf:RDF>
        "#,
    );
    assert!(errors.is_empty(), "unexpected errors: {:?}", errors);
    let g = graph_of(&triples);
    assert_eq!(g.len(), 4, "unexpected number of triples: {:?}", triples);
    assert!(g.contains(
        &iri("http://www.w3.org/TR/rdf-syntax-grammar"),
        &iri("http://purl.org/dc/elements/1.1/title"),
        &lit_str("RDF/XML Syntax Specification (Revised)"),
    ));
}

#[test]
fn w3c_example_07_all_triples() {
    // The same document as `w3c_example_07`; every expected triple checked.
    let (triples, _) = parse_all(
        r#"<?xml version="1.0"?>
            <rdf:RDF xmlns:rdf="http://www.w3.org/1999/02/22-rdf-syntax-ns#"
                     xmlns:dc="http://purl.org/dc/elements/1.1/"
                     xmlns:ex="http://example.org/stuff/1.0/">
              <rdf:Description rdf:about="http://www.w3.org/TR/rdf-syntax-grammar"
            		   dc:title="RDF/XML Syntax Specification (Revised)">
                <ex:editor>
                  <rdf:Description ex:fullName="Dave Beckett">
            	<ex:homePage rdf:resource="http://purl.org/net/dajobe/" />
                  </rdf:Description>
                </ex:editor>
              </rdf:Description>
            </rdf:RDF>
        "#,
    );
    let g = graph_of(&triples);
    assert_eq!(g.len(), 4);
    let grammar = iri("http://www.w3.org/TR/rdf-syntax-grammar");
    // the inner description gets the first generated blank node
    let editor = bnode("n0");
    assert!(g.contains(
        &grammar,
        &iri("http://purl.org/dc/elements/1.1/title"),
        &lit_str("RDF/XML Syntax Specification (Revised)"),
    ));
    assert!(g.contains(&grammar, &iri("http://example.org/stuff/1.0/editor"), &editor));
    assert!(g.contains(
        &editor,
        &iri("http://example.org/stuff/1.0/fullName"),
        &lit_str("Dave Beckett"),
    ));
    assert!(g.contains(
        &editor,
        &iri("http://example.org/stuff/1.0/homePage"),
        &iri("http://purl.org/net/dajobe/"),
    ));
}

#[test]
fn w3c_example_08() {
    let (triples, errors) = parse_all(
        r#"<?xml version="1.0" encoding="utf-8"?>
            <rdf:RDF xmlns:rdf="http://www.w3.org/1999/02/22-rdf-syntax-ns#"
                     xmlns:dc="http://purl.org/dc/elements/1.1/">
              <rdf:Description rdf:about="http://www.w3.org/TR/rdf-syntax-grammar">
                <dc:title>RDF/XML Syntax Specification (Revised)</dc:title>
                <dc:title xml:lang="en">RDF/XML Syntax Specification (Revised)</dc:title>
                <dc:title xml:lang="en-US">RDF/XML Syntax Specification (Revised)</dc:title>
              </rdf:Description>

              <rdf:Description rdf:about="http://example.org/buecher/baum" xml:lang="de">
                <dc:title>Der Baum</dc:title>
                <dc:description>Das Buch ist außergewöhnlich</dc:description>
                <dc:title xml:lang="en">The Tree</dc:title>
              </rdf:Description>
            </rdf:RDF>
        "#,
    );
    assert!(errors.is_empty(), "unexpected errors: {:?}", errors);
    let g = graph_of(&triples);
    assert_eq!(g.len(), 6, "unexpected number of triples: {:?}", triples);
    let grammar = iri("http://www.w3.org/TR/rdf-syntax-grammar");
    let baum = iri("http://example.org/buecher/baum");
    let title = iri("http://purl.org/dc/elements/1.1/title");
    let description = iri("http://purl.org/dc/elements/1.1/description");
    assert!(g.contains(&grammar, &title, &lit_str("RDF/XML Syntax Specification (Revised)")));
    assert!(g.contains(
        &grammar,
        &title,
        &lit_lang("RDF/XML Syntax Specification (Revised)", "en"),
    ));
    assert!(g.contains(
        &grammar,
        &title,
        &lit_lang("RDF/XML Syntax Specification (Revised)", "en-us"),
    ));
    assert!(g.contains(&baum, &title, &lit_lang("Der Baum", "de")));
    assert!(g.contains(&baum, &description, &lit_lang("Das Buch ist außergewöhnlich", "de")));
    assert!(g.contains(&baum, &title, &lit_lang("The Tree", "en")));
}

#[test]
fn w3c_example_09() {
    let (triples, errors) = parse_all(
        r#"<?xml version="1.0"?>
            <rdf:RDF xmlns:rdf="http://www.w3.org/1999/02/22-rdf-syntax-ns#"
                     xmlns:ex="http://example.org/stuff/1.0/">
              <rdf:Description rdf:about="http://example.org/item01">
                <ex:size rdf:datatype="http://www.w3.org/2001/XMLSchema#int">123</ex:size>
              </rdf:Description>
            </rdf:RDF>
        "#,
    );
    assert!(errors.is_empty(), "unexpected errors: {:?}", errors);
    assert_eq!(triples.len(), 1, "unexpected triples: {:?}", triples);
    let expected = Triple {
        s: iri("http://example.org/item01"),
        p: iri("http://example.org/stuff/1.0/size"),
        o: lit_dt("123", "http://www.w3.org/2001/XMLSchema#int"),
    };
    assert!(triples[0] == expected, "got {:?}", triples[0]);
}

#[test]
fn w3c_example_11() {
    let (triples, errors) = parse_all(
        r#"<?xml version="1.0"?>
            <rdf:RDF xmlns:rdf="http://www.w3.org/1999/02/22-rdf-syntax-ns#"
                     xmlns:dc="http://purl.org/dc/elements/1.1/"
                     xmlns:ex="http://example.org/stuff/1.0/">
              <rdf:Description rdf:about="http://www.w3.org/TR/rdf-syntax-grammar"
            		   dc:title="RDF/XML Syntax Specification (Revised)">
                <ex:editor rdf:nodeID="abc"/>
              </rdf:Description>

              <rdf:Description rdf:nodeID="abc"
                               ex:fullName="Dave Beckett">
                <ex:homePage rdf:resource="http://purl.org/net/dajobe/"/>
              </rdf:Description>
            </rdf:RDF>
        "#,
    );
    assert!(errors.is_empty(), "unexpected errors: {:?}", errors);
    let g = graph_of(&triples);
    assert_eq!(g.len(), 4, "unexpected number of triples: {:?}", triples);
    let grammar = iri("http://www.w3.org/TR/rdf-syntax-grammar");
    let abc = bnode("oabc");
    assert!(g.contains(
        &grammar,
        &iri("http://purl.org/dc/elements/1.1/title"),
        &lit_str("RDF/XML Syntax Specification (Revised)"),
    ));
    assert!(g.contains(&grammar, &iri("http://example.org/stuff/1.0/editor"), &abc));
    assert!(g.contains(
        &abc,
        &iri("http://example.org/stuff/1.0/fullName"),
        &lit_str("Dave Beckett"),
    ));
    assert!(g.contains(
        &abc,
        &iri("http://example.org/stuff/1.0/homePage"),
        &iri("http://purl.org/net/dajobe/"),
    ));
}

#[test]
fn w3c_example_14() {
    let (triples, errors) = parse_all(
        r#"<?xml version="1.0"?>
            <rdf:RDF xmlns:rdf="http://www.w3.org/1999/02/22-rdf-syntax-ns#"
                     xmlns:dc="http://purl.org/dc/elements/1.1/"
                     xmlns:ex="http://example.org/stuff/1.0/">
              <rdf:Description rdf:about="http://example.org/thing">
                <rdf:type rdf:resource="http://example.org/stuff/1.0/Document"/>
                <dc:title>A marvelous thing</dc:title>
              </rdf:Description>
            </rdf:RDF>
        "#,
    );
    assert!(errors.is_empty(), "unexpected errors: {:?}", errors);
    let g = graph_of(&triples);
    assert_eq!(g.len(), 2, "unexpected number of triples: {:?}", triples);
    let thing = iri("http://example.org/thing");
    assert!(g.contains(
        &thing,
        &iri("http://www.w3.org/1999/02/22-rdf-syntax-ns#type"),
        &iri("http://example.org/stuff/1.0/Document"),
    ));
    assert!(g.contains(
        &thing,
        &iri("http://purl.org/dc/elements/1.1/title"),
        &lit_str("A marvelous thing"),
    ));
}

#[test]
fn w3c_example_15() {
    let (triples, errors) = parse_all(
        r#"<?xml version="1.0"?>
            <rdf:RDF xmlns:rdf="http://www.w3.org/1999/02/22-rdf-syntax-ns#"
                     xmlns:dc="http://purl.org/dc/elements/1.1/"
                     xmlns:ex="http://example.org/stuff/1.0/">
              <ex:Document rdf:about="http://example.org/thing">
                <dc:title>A marvelous thing</dc:title>
              </ex:Document>
            </rdf:RDF>
        "#,
    );
    assert!(errors.is_empty(), "unexpected errors: {:?}", errors);
    let g = graph_of(&triples);
    assert_eq!(g.len(), 2, "unexpected number of triples: {:?}", triples);
    let thing = iri("http://example.org/thing");
    assert!(g.contains(
        &thing,
        &iri("http://www.w3.org/1999/02/22-rdf-syntax-ns#type"),
        &iri("http://example.org/stuff/1.0/Document"),
    ));
    assert!(g.contains(
        &thing,
        &iri("http://purl.org/dc/elements/1.1/title"),
        &lit_str("A marvelous thing"),
    ));
}

#[test]
fn w3c_example_17() {
    let (triples, errors) = parse_all(
        r#"<?xml version="1.0"?>
            <rdf:RDF xmlns:rdf="http://www.w3.org/1999/02/22-rdf-syntax-ns#">
              <rdf:Seq rdf:about="http://example.org/favourite-fruit">
                <rdf:_1 rdf:resource="http://example.org/banana"/>
                <rdf:_2 rdf:resource="http://example.org/apple"/>
                <rdf:_3 rdf:resource="http://example.org/pear"/>
              </rdf:Seq>
            </rdf:RDF>
        "#,
    );
    assert!(errors.is_empty(), "unexpected errors: {:?}", errors);
    let g = graph_of(&triples);
    assert_eq!(g.len(), 4, "unexpected number of triples: {:?}", triples);
    let fruit = iri("http://example.org/favourite-fruit");
    let ns = "http://www.w3.org/1999/02/22-rdf-syntax-ns#";
    assert!(g.contains(
        &fruit,
        &iri(&format!("{}type", ns)),
        &iri(&format!("{}Seq", ns)),
    ));
    assert!(g.contains(&fruit, &iri(&format!("{}_1", ns)), &iri("http://example.org/banana")));
    assert!(g.contains(&fruit, &iri(&format!("{}_2", ns)), &iri("http://example.org/apple")));
    assert!(g.contains(&fruit, &iri(&format!("{}_3", ns)), &iri("http://example.org/pear")));
}

#[test]
fn empty_document_emits_nothing() {
    let (triples, errors) = parse_all("<rdf:RDF/>");
    assert!(triples.is_empty());
    assert!(errors.is_empty());
    let (triples2, errors2) = parse_all(
        r#"<rdf:RDF xmlns:rdf="http://www.w3.org/1999/02/22-rdf-syntax-ns#"></rdf:RDF>"#,
    );
    assert!(triples2.is_empty());
    assert!(errors2.is_empty());
}

#[test]
fn anonymous_nodes_get_fresh_subjects() {
    let (triples, errors) = parse_all(
        r#"<rdf:RDF xmlns:rdf="http://www.w3.org/1999/02/22-rdf-syntax-ns#"
                    xmlns:ex="http://example.org/">
             <rdf:Description ex:a="1"></rdf:Description>
             <rdf:Description ex:a="2"></rdf:Description>
           </rdf:RDF>"#,
    );
    assert!(errors.is_empty(), "unexpected errors: {:?}", errors);
    assert_eq!(triples.len(), 2);
    assert!(triples[0].s == bnode("n0"), "got {:?}", triples[0].s);
    assert!(triples[1].s == bnode("n1"), "got {:?}", triples[1].s);
    assert!(triples[0].s != triples[1].s);
}

#[test]
fn datatype_overrides_language() {
    let (triples, errors) = parse_all(
        r#"<rdf:RDF xmlns:rdf="http://www.w3.org/1999/02/22-rdf-syntax-ns#"
                    xmlns:ex="http://example.org/">
             <rdf:Description rdf:about="http://example.org/i" xml:lang="de">
               <ex:size rdf:datatype="http://www.w3.org/2001/XMLSchema#int">7</ex:size>
             </rdf:Description>
           </rdf:RDF>"#,
    );
    assert!(errors.is_empty(), "unexpected errors: {:?}", errors);
    assert_eq!(triples.len(), 1);
    assert!(triples[0].o == lit_dt("7", "http://www.w3.org/2001/XMLSchema#int"));
}

#[test]
fn absent_datatype_and_lang_gives_xsd_string() {
    let (triples, errors) = parse_all(
        r#"<rdf:RDF xmlns:rdf="http://www.w3.org/1999/02/22-rdf-syntax-ns#"
                    xmlns:ex="http://example.org/">
             <rdf:Description rdf:about="http://example.org/i">
               <ex:note>plain</ex:note>
             </rdf:Description>
           </rdf:RDF>"#,
    );
    assert!(errors.is_empty(), "unexpected errors: {:?}", errors);
    assert_eq!(triples.len(), 1);
    assert!(triples[0].o == lit_str("plain"));
}

#[test]
fn empty_lang_clears_inherited_tag() {
    let (triples, errors) = parse_all(
        r#"<rdf:RDF xmlns:rdf="http://www.w3.org/1999/02/22-rdf-syntax-ns#"
                    xmlns:ex="http://example.org/">
             <rdf:Description rdf:about="http://example.org/i" xml:lang="de">
               <ex:note xml:lang="">plain</ex:note>
             </rdf:Description>
           </rdf:RDF>"#,
    );
    assert!(errors.is_empty(), "unexpected errors: {:?}", errors);
    assert_eq!(triples.len(), 1);
    assert!(triples[0].o == lit_str("plain"));
}

#[test]
fn attribute_order_gives_equal_multisets() {
    let a = parse_all(
        r#"<rdf:RDF xmlns:rdf="http://www.w3.org/1999/02/22-rdf-syntax-ns#"
                    xmlns:ex="http://example.org/">
             <rdf:Description rdf:about="http://example.org/i" ex:a="1" ex:b="2"/>
           </rdf:RDF>"#,
    )
    .0;
    let b = parse_all(
        r#"<rdf:RDF xmlns:rdf="http://www.w3.org/1999/02/22-rdf-syntax-ns#"
                    xmlns:ex="http://example.org/">
             <rdf:Description ex:b="2" rdf:about="http://example.org/i" ex:a="1"/>
           </rdf:RDF>"#,
    )
    .0;
    assert_eq!(a.len(), b.len());
    for t in &a {
        assert!(b.iter().any(|u| u == t), "missing triple {:?}", t);
    }
    for t in &b {
        assert!(a.iter().any(|u| u == t), "missing triple {:?}", t);
    }
}

#[test]
fn whitespace_outside_predicate_content_is_insignificant() {
    let compact = parse_all(
        r#"<rdf:RDF xmlns:rdf="http://www.w3.org/1999/02/22-rdf-syntax-ns#" xmlns:ex="http://example.org/"><rdf:Description rdf:about="http://example.org/i"><ex:note>x</ex:note></rdf:Description></rdf:RDF>"#,
    )
    .0;
    let spaced = parse_all(
        "<rdf:RDF xmlns:rdf=\"http://www.w3.org/1999/02/22-rdf-syntax-ns#\" xmlns:ex=\"http://example.org/\">\n  <rdf:Description rdf:about=\"http://example.org/i\">\n    <ex:note>x</ex:note>\n  </rdf:Description>\n</rdf:RDF>\n",
    )
    .0;
    assert_eq!(compact.len(), spaced.len());
    for t in &compact {
        assert!(spaced.iter().any(|u| u == t), "missing triple {:?}", t);
    }
}

#[test]
fn ambiguous_subject_is_reported() {
    // Subject determination fails, so the node's own triples -- the type
    // triple and the property triple -- are suppressed as well.
    let (triples, errors) = parse_all(
        r#"<rdf:RDF xmlns:rdf="http://www.w3.org/1999/02/22-rdf-syntax-ns#"
                    xmlns:ex="http://example.org/">
             <ex:Thing rdf:about="http://example.org/a" rdf:nodeID="x" ex:note="v"/>
           </rdf:RDF>"#,
    );
    assert!(
        errors.iter().any(|e| matches!(e, RdfError::AmbiguousSubject)),
        "got {:?}",
        errors
    );
    assert!(triples.is_empty(), "expected no triples, got {:?}", triples);
}

#[test]
fn ambiguous_object_is_reported() {
    // Object determination fails, so the predicate emits no triple.
    let (triples, errors) = parse_all(
        r#"<rdf:RDF xmlns:rdf="http://www.w3.org/1999/02/22-rdf-syntax-ns#"
                    xmlns:ex="http://example.org/">
             <rdf:Description rdf:about="http://example.org/a">
               <ex:p rdf:resource="http://example.org/b" rdf:nodeID="x"/>
             </rdf:Description>
           </rdf:RDF>"#,
    );
    assert!(
        errors.iter().any(|e| matches!(e, RdfError::AmbiguousObject)),
        "got {:?}",
        errors
    );
    assert!(triples.is_empty(), "expected no triples, got {:?}", triples);
}

#[test]
fn unknown_prefix_is_reported() {
    let (_, errors) = parse_all(
        r#"<rdf:RDF xmlns:rdf="http://www.w3.org/1999/02/22-rdf-syntax-ns#">
             <nope:Thing rdf:about="http://example.org/a"></nope:Thing>
           </rdf:RDF>"#,
    );
    assert!(
        errors.iter().any(|e| matches!(e, RdfError::UnknownPrefix(p) if p == "nope")),
        "got {:?}",
        errors
    );
}

#[test]
fn missing_prefix_is_reported() {
    let (_, errors) = parse_all(
        r#"<rdf:RDF xmlns:rdf="http://www.w3.org/1999/02/22-rdf-syntax-ns#">
             <Thing rdf:about="http://example.org/a"></Thing>
           </rdf:RDF>"#,
    );
    assert!(
        errors.iter().any(|e| matches!(e, RdfError::MissingPrefix(p) if p == "Thing")),
        "got {:?}",
        errors
    );
}

#[test]
fn default_namespace_resolves_element_names() {
    let (triples, errors) = parse_all(
        r#"<rdf:RDF xmlns:rdf="http://www.w3.org/1999/02/22-rdf-syntax-ns#"
                    xmlns="http://example.org/ns/">
             <Widget rdf:about="http://example.org/w"></Widget>
           </rdf:RDF>"#,
    );
    assert!(errors.is_empty(), "unexpected errors: {:?}", errors);
    assert_eq!(triples.len(), 1);
    let expected = Triple {
        s: iri("http://example.org/w"),
        p: iri("http://www.w3.org/1999/02/22-rdf-syntax-ns#type"),
        o: iri("http://example.org/ns/Widget"),
    };
    assert!(triples[0] == expected, "got {:?}", triples[0]);
}

#[test]
fn reserved_xmlns_prefix_is_reported() {
    let (_, errors) = parse_all(
        r#"<rdf:RDF xmlns:rdf="http://www.w3.org/1999/02/22-rdf-syntax-ns#"
                    xmlns:_="http://example.org/"></rdf:RDF>"#,
    );
    assert!(
        errors.iter().any(|e| matches!(e, RdfError::ReservedPrefix)),
        "got {:?}",
        errors
    );
}

#[test]
fn invalid_about_iri_is_reported() {
    let (_, errors) = parse_all(
        r#"<rdf:RDF xmlns:rdf="http://www.w3.org/1999/02/22-rdf-syntax-ns#">
             <rdf:Description rdf:about="http://bad example/"></rdf:Description>
           </rdf:RDF>"#,
    );
    assert!(
        errors.iter().any(|e| matches!(e, RdfError::InvalidIri(_))),
        "got {:?}",
        errors
    );
}

#[test]
fn malformed_language_tag_is_reported() {
    let (_, errors) = parse_all(
        r#"<rdf:RDF xmlns:rdf="http://www.w3.org/1999/02/22-rdf-syntax-ns#"
                    xmlns:ex="http://example.org/">
             <rdf:Description rdf:about="http://example.org/i" xml:lang="not a tag">
               <ex:note>x</ex:note>
             </rdf:Description>
           </rdf:RDF>"#,
    );
    assert!(
        errors.iter().any(|e| matches!(e, RdfError::MalformedLanguageTag(_))),
        "got {:?}",
        errors
    );
}

#[test]
fn rdf_id_is_not_implemented() {
    let (_, errors) = parse_all(
        r#"<rdf:RDF xmlns:rdf="http://www.w3.org/1999/02/22-rdf-syntax-ns#">
             <rdf:Description rdf:ID="frag"></rdf:Description>
           </rdf:RDF>"#,
    );
    assert!(
        errors.iter().any(|e| matches!(e, RdfError::NotImplemented(s) if s == "rdf:ID")),
        "got {:?}",
        errors
    );
}

#[test]
fn parse_type_is_not_implemented() {
    let (_, errors) = parse_all(
        r#"<rdf:RDF xmlns:rdf="http://www.w3.org/1999/02/22-rdf-syntax-ns#"
                    xmlns:ex="http://example.org/">
             <rdf:Description rdf:about="http://example.org/i">
               <ex:p rdf:parseType="Literal">x</ex:p>
             </rdf:Description>
           </rdf:RDF>"#,
    );
    assert!(
        errors.iter().any(|e| matches!(e, RdfError::NotImplemented(s) if s == "rdf:parseType")),
        "got {:?}",
        errors
    );
}

#[test]
fn escaped_text_is_resolved() {
    let (triples, errors) = parse_all(
        r#"<rdf:RDF xmlns:rdf="http://www.w3.org/1999/02/22-rdf-syntax-ns#"
                    xmlns:ex="http://example.org/">
             <rdf:Description rdf:about="http://example.org/i">
               <ex:note>a&amp;b</ex:note>
             </rdf:Description>
           </rdf:RDF>"#,
    );
    assert!(errors.is_empty(), "unexpected errors: {:?}", errors);
    assert_eq!(triples.len(), 1);
    assert!(triples[0].o == lit_str("a&b"), "got {:?}", triples[0].o);
}

#[test]
fn nested_node_as_object_no_spurious_type() {
    // A nested rdf:Description is linked as the object of the enclosing
    // predicate and gets no rdf:type triple of its own.
    let (triples, _) = parse_all(
        r#"<rdf:RDF xmlns:rdf="http://www.w3.org/1999/02/22-rdf-syntax-ns#"
                    xmlns:ex="http://example.org/">
             <rdf:Description rdf:about="http://example.org/top">
               <ex:editor><rdf:Description ex:fullName="Dave Beckett"></rdf:Description></ex:editor>
             </rdf:Description>
           </rdf:RDF>"#,
    );
    let type_iri = iri("http://www.w3.org/1999/02/22-rdf-syntax-ns#type");
    assert_eq!(triples.len(), 2);
    assert!(triples.iter().all(|t| t.p != type_iri));
}
