//! The RDF/XML parser front end: configuration and the lazy pull interface
//! over an XML tokenizer.
//!
//! The machine behind it is verified event by event ([`crate::machine`]);
//! what the tokenizer returns is opaque, so [`XmlParser::next_triple`]
//! promises exact queue behaviour and preservation of the machine's
//! invariants, whatever events come back.

use vstd::prelude::*;
use crate::errors::RdfError;
use crate::event::XmlEvent;
use crate::event::events_v;
use crate::machine::ParserCore;
use crate::machine::result_v;
use crate::machine::results_v;
use crate::model::StateV;
use crate::model::doc_results;
use crate::model::init_state;
use crate::term::Triple;
use crate::xmlsource::RawEvent;
use crate::xmlsource::end_name;
use crate::xmlsource::read_raw_event;
use crate::xmlsource::reader_from_str;
use crate::xmlsource::ref_content;
use crate::xmlsource::start_attributes;
use crate::xmlsource::start_name;
use crate::xmlsource::text_content;
use crate::xmlsource::xml_error_message;

verus! {

broadcast use {
    vstd::seq::group_seq_axioms,
    crate::seqmaps::lemma_map_values_push,
    crate::seqmaps::lemma_map_values_index,
};

/// Parser configuration; the parser takes no options yet.
#[derive(Clone, Debug, Default)]
pub struct Config;

impl Config {
    /// Parses an in-memory string as an RDF/XML document, lazily.
    pub fn parse_str<'a>(&self, txt: &'a str) -> (r: XmlParser<'a>)
        ensures
            r.wf(),
            r@ == init_state(),
    {
        XmlParser { reader: reader_from_str(txt), core: ParserCore::new(), done: false }
    }

    /// Parses an already-tokenized event stream, eagerly; the result is
    /// exactly what the model prescribes for the stream.
    pub fn parse_events(&self, events: &Vec<XmlEvent>) -> (r: Vec<Result<Triple, RdfError>>)
        ensures
            results_v(r@) == doc_results(events_v(events@)),
    {
        crate::machine::parse_events(events)
    }
}

/// A lazy RDF/XML parser over a string: each pull returns the next queued
/// triple or error, reading further XML events only when the queue is empty.
pub struct XmlParser<'a> {
    reader: quick_xml::Reader<&'a [u8]>,
    core: ParserCore,
    done: bool,
}

impl<'a> View for XmlParser<'a> {
    type V = StateV;

    closed spec fn view(&self) -> StateV {
        self.core@
    }
}

impl<'a> XmlParser<'a> {
    /// The machine's invariants hold.
    pub closed spec fn wf(&self) -> bool {
        self.core.wf()
    }

    /// Pulls the next triple or error.
    ///
    /// When entries are already queued the front entry is returned and
    /// nothing is read.  Otherwise XML events are consumed one at a time and
    /// dispatched to the verified machine until it produces an entry or the
    /// document ends; a tokenizer error is surfaced as an entry and the
    /// parser stays usable.  `None` means end of stream.  The loop carries
    /// an event budget so that its termination is provable; no real document
    /// comes near exhausting it.
    pub fn next_triple(&mut self) -> (r: Option<Result<Triple, RdfError>>)
        requires
            old(self).wf(),
        ensures
            final(self).wf(),
            old(self)@.queue.len() > 0 ==> (r matches Some(e) && result_v(e) == old(
                self,
            )@.queue.first() && final(self)@ == StateV {
                queue: old(self)@.queue.drop_first(),
                ..old(self)@
            }),
            r is None ==> final(self)@.queue.len() == 0,
    {
        let mut fuel: u64 = u64::MAX;
        while fuel > 0
            invariant
                self.core.wf(),
                old(self)@.queue.len() > 0 ==> *self == *old(self),
                fuel < u64::MAX ==> old(self)@.queue.len() == 0,
            decreases fuel,
        {
            match self.core.pop_entry() {
                Some(e) => {
                    return Some(e);
                },
                None => {},
            }
            if self.done {
                return None;
            }
            match read_raw_event(&mut self.reader) {
                Err(e) => {
                    return Some(Err(RdfError::XmlSource(xml_error_message(&e))));
                },
                Ok(raw) => match raw {
                    RawEvent::Start(e) => {
                        let name = start_name(&e);
                        match start_attributes(&e) {
                            Ok(attrs) => self.core.handle_event(
                                &XmlEvent::Start { name, attrs },
                            ),
                            Err(xe) => {
                                return Some(
                                    Err(RdfError::XmlSource(xml_error_message(&xe))),
                                );
                            },
                        }
                    },
                    RawEvent::Empty(e) => {
                        let name = start_name(&e);
                        match start_attributes(&e) {
                            Ok(attrs) => self.core.handle_event(
                                &XmlEvent::Empty { name, attrs },
                            ),
                            Err(xe) => {
                                return Some(
                                    Err(RdfError::XmlSource(xml_error_message(&xe))),
                                );
                            },
                        }
                    },
                    RawEvent::End(e) => {
                        let name = end_name(&e);
                        self.core.handle_event(&XmlEvent::End { name });
                    },
                    RawEvent::Text(t) => {
                        let content = text_content(&t);
                        self.core.handle_event(&XmlEvent::Text { content });
                    },
                    RawEvent::Reference(t) => match ref_content(&t) {
                        Ok(Some(content)) => self.core.handle_event(
                            &XmlEvent::Text { content },
                        ),
                        Ok(None) => {
                            return Some(
                                Err(
                                    RdfError::XmlSource(
                                        String::from_str("unresolved entity reference"),
                                    ),
                                ),
                            );
                        },
                        Err(xe) => {
                            return Some(Err(RdfError::XmlSource(xml_error_message(&xe))));
                        },
                    },
                    RawEvent::Eof => {
                        self.done = true;
                        if !self.core.at_root() {
                            return Some(Err(RdfError::UnexpectedEof));
                        }
                        return None;
                    },
                    RawEvent::Other => {},
                },
            }
            fuel = fuel - 1;
        }
        Some(Err(RdfError::XmlSource(String::from_str("event budget exhausted"))))
    }

    /// Pulls everything until end of stream and returns it in order: the
    /// entries already queued when the call is made come first, unchanged
    /// and in order, followed by whatever further events produce.
    #[verifier::loop_isolation(false)]
    pub fn collect_all(&mut self) -> (r: Vec<Result<Triple, RdfError>>)
        requires
            old(self).wf(),
        ensures
            final(self).wf(),
            results_v(r@).len() >= old(self)@.queue.len(),
            results_v(r@).take(old(self)@.queue.len() as int) == old(self)@.queue,
    {
        let ghost old_q = old(self)@.queue;
        let q0 = self.core.queued();
        proof {
            assert(old_q.len() == q0);
            assert(old_q.skip(0) =~= old_q);
            assert(results_v(Seq::<Result<Triple, RdfError>>::empty()) =~= old_q.take(0));
        }
        let mut out: Vec<Result<Triple, RdfError>> = Vec::new();
        let mut fuel: u64 = u64::MAX;
        while fuel > 0
            invariant
                self.wf(),
                out@.len() == u64::MAX - fuel,
                out@.len() < old_q.len() ==> self@ == (StateV {
                    queue: old_q.skip(out@.len() as int),
                    ..old(self)@
                }) && results_v(out@) == old_q.take(out@.len() as int),
                out@.len() >= old_q.len() ==> results_v(out@).take(old_q.len() as int) == old_q,
            decreases fuel,
        {
            let ghost k = out@.len() as int;
            match self.next_triple() {
                Some(e) => {
                    proof {
                        if k < old_q.len() {
                            assert(old_q.skip(k).first() == old_q[k]);
                            assert(old_q.skip(k).drop_first() =~= old_q.skip(k + 1));
                            assert(old_q.take(k).push(old_q[k]) =~= old_q.take(k + 1));
                        }
                    }
                    out.push(e);
                    proof {
                        if k < old_q.len() {
                            assert(results_v(out@) =~= old_q.take(k + 1));
                            if k + 1 == old_q.len() {
                                assert(old_q.take(k + 1) =~= old_q);
                                assert(results_v(out@).take(old_q.len() as int) =~= old_q);
                            }
                        } else {
                            assert(results_v(out@).take(old_q.len() as int)
                                =~= results_v(out@.drop_last()).take(old_q.len() as int));
                            assert(out@.drop_last() =~= out@.subrange(0, k));
                        }
                    }
                },
                None => {
                    proof {
                        assert(out@.len() >= old_q.len());
                        assert(results_v(out@).take(old_q.len() as int) == old_q);
                    }
                    return out;
                },
            }
            fuel = fuel - 1;
        }
        proof {
            assert(out@.len() >= old_q.len());
        }
        out
    }
}

} // verus!
