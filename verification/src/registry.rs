use vstd::prelude::*;

verus! {

/// The tags known after `tag` was asked for: a new tag goes to the end.
pub open spec fn resolved(tags: Seq<Seq<char>>, tag: Seq<char>) -> Seq<Seq<char>> {
    if tags.contains(tag) {
        tags
    } else {
        tags.push(tag)
    }
}

/// The place of `tag` among the tags known after it was asked for.
pub open spec fn slot_of(tags: Seq<Seq<char>>, tag: Seq<char>) -> int {
    resolved(tags, tag).index_of(tag)
}

/// The tags known after records with the tags `arrivals` came in, in that
/// order, to a registry that knew `tags`.
pub open spec fn streams_after(tags: Seq<Seq<char>>, arrivals: Seq<Seq<char>>) -> Seq<Seq<char>>
    decreases arrivals.len(),
{
    if arrivals.len() == 0 {
        tags
    } else {
        resolved(streams_after(tags, arrivals.drop_last()), arrivals.last())
    }
}

/// Where a stream's sink stands, and whether it has yet to be created.
#[derive(Debug, Clone, Copy)]
pub struct SinkSlot {
    pub index: usize,
    pub created: bool,
}

/// The streams that have a sink, in the order in which they were first seen.
/// A stream's place in that order names its sink.
#[derive(Debug)]
pub struct StreamRegistry {
    tags: Vec<String>,
}

impl View for StreamRegistry {
    type V = Seq<Seq<char>>;

    closed spec fn view(&self) -> Seq<Seq<char>> {
        Seq::new(self.tags@.len(), |i: int| self.tags@[i]@)
    }
}

impl StreamRegistry {
    /// No tag stands in the registry twice.
    pub open spec fn wf(&self) -> bool {
        self@.no_duplicates()
    }

    /// A registry without streams.
    pub fn new() -> (registry: StreamRegistry)
        ensures
            registry.wf(),
            registry@ == Seq::<Seq<char>>::empty(),
    {
        let registry = StreamRegistry { tags: Vec::new() };
        assert(registry@ =~= Seq::<Seq<char>>::empty());
        registry
    }

    /// The number of streams that have a sink.
    pub fn len(&self) -> (n: usize)
        ensures
            n == self@.len(),
    {
        self.tags.len()
    }

    /// The tag of the stream at `index`.
    pub fn tag_at(&self, index: usize) -> (tag: &String)
        requires
            index < self@.len(),
        ensures
            tag@ == self@[index as int],
    {
        &self.tags[index]
    }

    /// The place of `tag`, if its stream has a sink.
    pub fn find(&self, tag: &String) -> (place: Option<usize>)
        ensures
            place is Some <==> self@.contains(tag@),
            place matches Some(i) ==> i < self@.len() && self@[i as int] == tag@,
    {
        let mut i: usize = 0;
        while i < self.tags.len()
            invariant
                i <= self.tags@.len(),
                self@.len() == self.tags@.len(),
                forall|j: int| 0 <= j < i ==> self@[j] != tag@,
            decreases self.tags@.len() - i,
        {
            if self.tags[i] == *tag {
                assert(self@[i as int] == tag@);
                return Some(i);
            }
            i = i + 1;
        }
        None
    }

    /// Finds the sink of `tag`, giving it the next free place if its stream
    /// is new. Streams already known keep their places.
    pub fn resolve(&mut self, tag: &String) -> (slot: SinkSlot)
        requires
            old(self).wf(),
        ensures
            final(self).wf(),
            final(self)@ == resolved(old(self)@, tag@),
            slot.index == slot_of(old(self)@, tag@),
            slot.index < final(self)@.len(),
            final(self)@[slot.index as int] == tag@,
            slot.created == !old(self)@.contains(tag@),
    {
        match self.find(tag) {
            Some(index) => {
                proof {
                    let found = self@.index_of(tag@);
                    assert(self@[found] == tag@);
                }
                SinkSlot { index, created: false }
            },
            None => {
                let index = self.tags.len();
                let ghost before = self@;
                self.tags.push(tag.clone());
                proof {
                    assert(self@ =~= before.push(tag@));
                    assert(self@[index as int] == tag@);
                    let found = self@.index_of(tag@);
                    assert(self@[found] == tag@);
                    assert(found == index) by {
                        if found != index {
                            assert(before[found] == tag@);
                        }
                    }
                }
                SinkSlot { index, created: true }
            },
        }
    }
}

} // verus!
