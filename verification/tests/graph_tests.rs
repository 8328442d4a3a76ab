//! Tests of the in-memory graph, the sinks and the event-level parser entry
//! point.

use rdf_xml::errors::RdfError;
use rdf_xml::event::XmlEvent;
use rdf_xml::factory;
use rdf_xml::graph::{MutableGraph, VecGraph};
use rdf_xml::sinks::{Inserter, Remover};
use rdf_xml::term::{Term, Triple};
use rdf_xml::xml::Config;

fn iri(text: &str) -> Term {
    factory::iri(text.to_string()).unwrap()
}

fn triple(s: &str, p: &str, o: &str) -> Triple {
    Triple { s: iri(s), p: iri(p), o: iri(o) }
}

#[test]
fn insert_deduplicates_and_counts() {
    let mut g = VecGraph::new();
    let t1 = triple("http://e/a", "http://e/p", "http://e/b");
    let t2 = triple("http://e/a", "http://e/p", "http://e/c");
    let mut sink = Inserter::new();
    sink.feed(&mut g, &t1).unwrap();
    sink.feed(&mut g, &t2).unwrap();
    sink.feed(&mut g, &t1).unwrap();
    assert_eq!(sink.finish(), 2);
    assert_eq!(g.len(), 2);
    assert!(g.contains(&t1.s, &t1.p, &t1.o));
    assert!(g.contains(&t2.s, &t2.p, &t2.o));
}

#[test]
fn remove_counts_only_present_triples() {
    let mut g = VecGraph::new();
    let t1 = triple("http://e/a", "http://e/p", "http://e/b");
    let t2 = triple("http://e/a", "http://e/p", "http://e/c");
    g.insert(&t1.s, &t1.p, &t1.o).unwrap();
    let mut sink = Remover::new();
    sink.feed(&mut g, &t1).unwrap();
    sink.feed(&mut g, &t2).unwrap();
    assert_eq!(sink.finish(), 1);
    assert_eq!(g.len(), 0);
    assert!(!g.contains(&t1.s, &t1.p, &t1.o));
}

#[test]
fn graph_insert_reports_newness() {
    let mut g = VecGraph::new();
    let t = triple("http://e/a", "http://e/p", "http://e/b");
    assert!(g.insert(&t.s, &t.p, &t.o).unwrap());
    assert!(!g.insert(&t.s, &t.p, &t.o).unwrap());
    assert!(g.remove(&t.s, &t.p, &t.o).unwrap());
    assert!(!g.remove(&t.s, &t.p, &t.o).unwrap());
}

#[test]
fn unexpected_eof_on_open_document() {
    // the event stream ends while an element is still open
    let events = vec![
        XmlEvent::Start { name: "rdf:RDF".to_string(), attrs: vec![] },
        XmlEvent::Start {
            name: "rdf:Description".to_string(),
            attrs: vec![("rdf:about".to_string(), "http://example.org/a".to_string())],
        },
    ];
    let results = Config::default().parse_events(&events);
    assert!(
        results.iter().any(|r| matches!(r, Err(RdfError::UnexpectedEof))),
        "got {:?}",
        results
    );
}

#[test]
fn balanced_event_stream_has_no_eof_error() {
    let events = vec![
        XmlEvent::Start { name: "rdf:RDF".to_string(), attrs: vec![] },
        XmlEvent::End { name: "rdf:RDF".to_string() },
    ];
    let results = Config::default().parse_events(&events);
    assert!(results.is_empty(), "got {:?}", results);
}

#[test]
fn event_stream_matches_string_parse() {
    // Hand-built events for a one-triple document give the same triple as
    // parsing the equivalent string.
    let rdfns = "http://www.w3.org/1999/02/22-rdf-syntax-ns#";
    let events = vec![
        XmlEvent::Start {
            name: "rdf:RDF".to_string(),
            attrs: vec![("xmlns:rdf".to_string(), rdfns.to_string()), (
                "xmlns:ex".to_string(),
                "http://example.org/".to_string(),
            )],
        },
        XmlEvent::Start {
            name: "rdf:Description".to_string(),
            attrs: vec![("rdf:about".to_string(), "http://example.org/i".to_string())],
        },
        XmlEvent::Start { name: "ex:note".to_string(), attrs: vec![] },
        XmlEvent::Text { content: "x".to_string() },
        XmlEvent::End { name: "ex:note".to_string() },
        XmlEvent::End { name: "rdf:Description".to_string() },
        XmlEvent::End { name: "rdf:RDF".to_string() },
    ];
    let results = Config::default().parse_events(&events);
    let from_events: Vec<&Triple> = results.iter().filter_map(|r| r.as_ref().ok()).collect();

    let txt = format!(
        "<rdf:RDF xmlns:rdf=\"{}\" xmlns:ex=\"http://example.org/\"><rdf:Description rdf:about=\"http://example.org/i\"><ex:note>x</ex:note></rdf:Description></rdf:RDF>",
        rdfns
    );
    let mut parser = Config::default().parse_str(&txt);
    let mut from_str = Vec::new();
    while let Some(r) = parser.next_triple() {
        from_str.push(r.unwrap());
    }
    assert_eq!(from_events.len(), from_str.len());
    assert!(from_events[0] == &from_str[0]);
}
