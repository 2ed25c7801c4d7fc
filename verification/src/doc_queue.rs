//! A FIFO queue of fetched documents handed from the crawl to the word
//! extraction; a None in the queue signals the end of the crawl.

use vstd::prelude::*;
use std::collections::VecDeque;

verus! {

/// The view of one queued document.
pub open spec fn doc_view(d: Option<Vec<u8>>) -> Option<Seq<u8>> {
    match d {
        Some(b) => Some(b@),
        None => None,
    }
}

/// Provides a FIFO queue for documents.
pub struct DocQueue {
    docs: VecDeque<Option<Vec<u8>>>,
}

impl View for DocQueue {
    type V = Seq<Option<Seq<u8>>>;

    closed spec fn view(&self) -> Seq<Option<Seq<u8>>> {
        self.docs@.map_values(|d: Option<Vec<u8>>| doc_view(d))
    }
}

impl DocQueue {
    /// Returns a new DocQueue instance.
    pub fn new() -> (q: DocQueue)
        ensures
            q@ == Seq::<Option<Seq<u8>>>::empty(),
    {
        let q = DocQueue { docs: VecDeque::new() };
        proof {
            assert(q@ =~= Seq::empty());
        }
        q
    }

    /// Push a document into the queue.
    pub fn push(&mut self, doc: Option<Vec<u8>>)
        ensures
            final(self)@ == old(self)@.push(doc_view(doc)),
    {
        self.docs.push_back(doc);
        proof {
            assert(final(self)@ =~= old(self)@.push(doc_view(doc)));
        }
    }

    /// Pop the oldest document from the queue; an empty queue yields None,
    /// as does a queued end-of-crawl marker.
    pub fn pop(&mut self) -> (doc: Option<Vec<u8>>)
        ensures
            old(self)@.len() > 0 ==> final(self)@ == old(self)@.drop_first() && doc_view(doc)
                == old(self)@[0],
            old(self)@.len() == 0 ==> final(self)@ == old(self)@ && doc is None,
    {
        let doc = if let Some(d) = self.docs.pop_front() {
            d
        } else {
            None
        };
        proof {
            if old(self)@.len() > 0 {
                assert(final(self)@ =~= old(self)@.drop_first());
            }
        }
        doc
    }

    /// Return if the queue is empty or not.
    pub fn is_empty(&self) -> (r: bool)
        ensures
            r == (self@.len() == 0),
    {
        self.docs.len() == 0
    }
}

} // verus!
