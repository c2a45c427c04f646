use vstd::prelude::*;

verus! {

/// The snap length of one stream.
#[derive(Debug)]
pub struct TagLimit {
    pub tag: String,
    pub limit: usize,
}

/// What the pipeline is started with.
#[derive(Debug)]
pub struct Config {
    /// Where the listener for tagged streams binds, if anywhere.
    pub unix_socket: Option<String>,
    /// Snap lengths by tag. Of two entries for one tag the later counts.
    pub max_incl_len: Vec<TagLimit>,
    /// The snap length of every tag without an entry.
    pub default_max_incl_len: usize,
    /// The interfaces to capture on.
    pub interfaces: Vec<String>,
}

/// The mapping from tag to snap length that a list of entries spells.
pub open spec fn limits_of(entries: Seq<TagLimit>) -> Map<Seq<char>, usize>
    decreases entries.len(),
{
    if entries.len() == 0 {
        Map::empty()
    } else {
        limits_of(entries.drop_last()).insert(entries.last().tag@, entries.last().limit)
    }
}

/// Entries from `from` on that do not name `tag` leave its limit to the
/// entries before them.
pub proof fn lemma_limits_skip(entries: Seq<TagLimit>, from: int, tag: Seq<char>)
    requires
        0 <= from <= entries.len(),
        forall|j: int| from <= j < entries.len() ==> entries[j].tag@ != tag,
    ensures
        limits_of(entries).contains_key(tag) == limits_of(entries.take(from)).contains_key(tag),
        limits_of(entries).contains_key(tag) ==> limits_of(entries)[tag] == limits_of(
            entries.take(from),
        )[tag],
    decreases entries.len(),
{
    if from == entries.len() {
        assert(entries.take(from) =~= entries);
    } else {
        let front = entries.drop_last();
        assert(front.take(from) =~= entries.take(from));
        lemma_limits_skip(front, from, tag);
    }
}

/// The last entry that names `tag` gives its limit.
pub proof fn lemma_limits_last(entries: Seq<TagLimit>, at: int, tag: Seq<char>)
    requires
        0 <= at < entries.len(),
        entries[at].tag@ == tag,
        forall|j: int| at < j < entries.len() ==> entries[j].tag@ != tag,
    ensures
        limits_of(entries).contains_key(tag),
        limits_of(entries)[tag] == entries[at].limit,
{
    let upto = entries.take(at + 1);
    lemma_limits_skip(entries, at + 1, tag);
    assert(upto.drop_last() =~= entries.take(at));
    assert(upto.last() == entries[at]);
}

impl Config {
    /// The explicit snap lengths, as a mapping.
    pub open spec fn limits(&self) -> Map<Seq<char>, usize> {
        limits_of(self.max_incl_len@)
    }

    /// The snap length in force for `tag`.
    pub open spec fn limit_for(&self, tag: Seq<char>) -> usize {
        if self.limits().contains_key(tag) {
            self.limits()[tag]
        } else {
            self.default_max_incl_len
        }
    }

    /// A configuration with a default snap length, no explicit ones, no
    /// interfaces and no listener.
    pub fn new(default_max_incl_len: usize) -> (config: Config)
        ensures
            config.limits() == Map::<Seq<char>, usize>::empty(),
            config.default_max_incl_len == default_max_incl_len,
            config.unix_socket is None,
            config.interfaces@.len() == 0,
            config.max_incl_len@.len() == 0,
    {
        Config {
            unix_socket: None,
            max_incl_len: Vec::new(),
            default_max_incl_len,
            interfaces: Vec::new(),
        }
    }

    /// Gives `tag` a snap length of its own, in place of any it had.
    pub fn set_limit(&mut self, tag: String, limit: usize)
        ensures
            final(self).limits() == old(self).limits().insert(tag@, limit),
            final(self).default_max_incl_len == old(self).default_max_incl_len,
            final(self).unix_socket == old(self).unix_socket,
            final(self).interfaces == old(self).interfaces,
    {
        let ghost before = self.max_incl_len@;
        self.max_incl_len.push(TagLimit { tag, limit });
        proof {
            assert(self.max_incl_len@.drop_last() =~= before);
        }
    }

    /// Looks up the snap length in force for `tag`.
    pub fn max_len_for(&self, tag: &String) -> (limit: usize)
        ensures
            limit == self.limit_for(tag@),
    {
        let mut i: usize = self.max_incl_len.len();
        while i > 0
            invariant
                i <= self.max_incl_len@.len(),
                forall|j: int| i <= j < self.max_incl_len@.len() ==> self.max_incl_len@[j].tag@ != tag@,
            decreases i,
        {
            i = i - 1;
            if self.max_incl_len[i].tag == *tag {
                proof {
                    lemma_limits_last(self.max_incl_len@, i as int, tag@);
                }
                return self.max_incl_len[i].limit;
            }
        }
        proof {
            lemma_limits_skip(self.max_incl_len@, 0, tag@);
        }
        self.default_max_incl_len
    }
}

} // verus!
