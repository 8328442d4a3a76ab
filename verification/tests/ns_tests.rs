//! Tests of the namespace layer and the term factory.

use rdf_xml::errors::RdfError;
use rdf_xml::factory;
use rdf_xml::ns::Namespace;
use rdf_xml::term::{LiteralKind, Term};
use rdf_xml::vocab::{rdf, xsd};

#[test]
fn test_same_term() {
    let ns1 = Namespace::new("http://schema.org/").unwrap();
    let ns2 = Namespace::new("http://schema.org/").unwrap();

    assert_eq!(ns1.get("name").unwrap(), ns1.get("name").unwrap());
    assert_eq!(ns2.get("name").unwrap(), ns2.get("name").unwrap());
    assert_eq!(ns1.get("name").unwrap(), ns2.get("name").unwrap());
}

#[test]
fn test_different_terms() {
    let ns1 = Namespace::new("http://schema.org/").unwrap();
    assert_ne!(ns1.get("name").unwrap(), ns1.get("nam").unwrap());
}

#[test]
fn test_invalid_namespace() {
    assert!(Namespace::new("http://schema.org ").is_err());
}

#[test]
fn test_invalid_suffix() {
    let ns1 = Namespace::new("http://schema.org/").unwrap();
    assert!(ns1.get("name ").is_err());
}

#[test]
fn split_is_invisible_to_equality() {
    // The same IRI text split differently denotes the same term.
    let ns = Namespace::new("http://schema.org/").unwrap();
    let split = ns.get("name").unwrap();
    let whole = factory::iri("http://schema.org/name".to_string()).unwrap();
    assert_eq!(split, whole);
}

#[test]
fn vocabulary_terms_have_documented_values() {
    let type_full = factory::iri(
        "http://www.w3.org/1999/02/22-rdf-syntax-ns#type".to_string(),
    )
    .unwrap();
    assert_eq!(rdf::type_(), type_full);
    let string_full =
        factory::iri("http://www.w3.org/2001/XMLSchema#string".to_string()).unwrap();
    assert_eq!(xsd::string(), string_full);
    assert_eq!(rdf::prefix(), "http://www.w3.org/1999/02/22-rdf-syntax-ns#".to_string());
}

#[test]
fn factory_validates_iris() {
    assert!(factory::iri("http://example.org/ok".to_string()).is_ok());
    match factory::iri("http://bad example/".to_string()) {
        Err(RdfError::InvalidIri(text)) => assert_eq!(text, "http://bad example/"),
        other => panic!("expected InvalidIri, got {:?}", other),
    }
}

#[test]
fn factory_marks_absolute_iris() {
    match factory::iri("http://example.org/a".to_string()).unwrap() {
        Term::Iri(i) => assert!(i.absolute),
        other => panic!("expected an IRI term, got {:?}", other),
    }
    match factory::iri("relative/path".to_string()).unwrap() {
        Term::Iri(i) => assert!(!i.absolute),
        other => panic!("expected an IRI term, got {:?}", other),
    }
}

#[test]
fn factory_rejects_empty_bnode_label() {
    assert!(factory::bnode(String::new()).is_err());
    assert!(factory::bnode("abc".to_string()).is_ok());
}

#[test]
fn language_tags_are_validated_and_lowercased() {
    match factory::literal_lang("The Tree".to_string(), "en-US") {
        Ok(Term::Literal(lex, LiteralKind::Lang(tag))) => {
            assert_eq!(lex, "The Tree");
            assert_eq!(tag, "en-us");
        }
        other => panic!("expected a language-tagged literal, got {:?}", other),
    }
    match factory::literal_lang("x".to_string(), "not a tag!") {
        Err(RdfError::MalformedLanguageTag(t)) => assert_eq!(t, "not a tag!"),
        other => panic!("expected MalformedLanguageTag, got {:?}", other),
    }
}

#[test]
fn reserved_prefix_is_refused() {
    let mut pm = rdf_xml::prefix::PrefixMapping::default();
    match pm.add_prefix("_", "http://example.org/") {
        Err(RdfError::ReservedPrefix) => {}
        other => panic!("expected ReservedPrefix, got {:?}", other),
    }
    assert!(pm.add_prefix("ex", "http://example.org/").is_ok());
}

#[test]
fn curie_expansion_reports_missing_and_unknown_prefixes() {
    let pm = rdf_xml::prefix::PrefixMapping::default();
    match pm.expand_curie_string("nocolon") {
        Err(RdfError::MissingPrefix(s)) => assert_eq!(s, "nocolon"),
        other => panic!("expected MissingPrefix, got {:?}", other),
    }
    match pm.expand_curie_string("nope:local") {
        Err(RdfError::UnknownPrefix(p)) => assert_eq!(p, "nope"),
        other => panic!("expected UnknownPrefix, got {:?}", other),
    }
    // the fresh mapping is seeded with `xml`
    let lang = pm.expand_curie_string("xml:lang").unwrap();
    assert_eq!(lang, rdf_xml::vocab::xml::lang());
}

#[test]
fn default_namespace_resolves_bare_names() {
    let mut pm = rdf_xml::prefix::PrefixMapping::default();
    pm.set_default("http://example.org/ns/").unwrap();
    let t = pm.expand_curie_string("Widget").unwrap();
    assert_eq!(t, factory::iri("http://example.org/ns/Widget".to_string()).unwrap());
}

#[test]
fn namespace_try_from_iri_requires_no_suffix() {
    let ns = Namespace::new("http://schema.org/").unwrap();
    let suffixed = ns.get_iri("name").unwrap();
    match Namespace::try_from_iri(suffixed) {
        Err(RdfError::IsSuffixed) => {}
        other => panic!("expected IsSuffixed, got {:?}", other),
    }
    let plain = factory::iri("http://schema.org/".to_string()).unwrap();
    match plain {
        Term::Iri(i) => {
            let back = Namespace::try_from_iri(i).unwrap();
            assert_eq!(back.as_str(), "http://schema.org/");
        }
        other => panic!("expected an IRI term, got {:?}", other),
    }
}

#[test]
fn namespace_map_applies_function() {
    let ns = Namespace::new("http://schema.org/").unwrap();
    let mapped = ns.map(|s: String| s);
    assert_eq!(mapped.as_str(), "http://schema.org/");
    let ns2 = Namespace::new("http://schema.org/").unwrap();
    let tried: Result<Namespace, ()> = ns2.try_map(|s: String| Ok(s));
    assert_eq!(tried.unwrap().as_str(), "http://schema.org/");
}
