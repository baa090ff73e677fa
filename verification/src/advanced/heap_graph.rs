use vstd::prelude::*;

verus! {

/// The reference edges of a heap walk, as pairs of (referrer tag, target tag).
#[derive(Debug, Clone)]
pub struct HeapGraph {
    pub edges: Vec<(i64, i64)>,
}

/// The tags that one tagging pass handed out: from `start` up to, not including,
/// `end`.
#[derive(Debug, Clone)]
pub struct TagRange {
    pub start: i64,
    pub end: i64,
    pub tagged: i64,
}

/// Hands out consecutive tags to the objects of a heap walk that have none.
#[derive(Debug, Clone)]
pub struct Tagger {
    next: i64,
    tagged: i64,
}

impl Tagger {
    /// The tag that the next untagged object gets.
    pub closed spec fn next_tag(&self) -> int {
        self.next as int
    }

    /// Number of objects tagged so far.
    pub closed spec fn tagged_count(&self) -> int {
        self.tagged as int
    }

    /// A tagger that starts at `start_tag` and has tagged nothing.
    pub fn new(start_tag: i64) -> (t: Self)
        ensures
            t.next_tag() == start_tag,
            t.tagged_count() == 0,
    {
        Tagger { next: start_tag, tagged: 0 }
    }

    /// Another tag can be handed out without leaving the range of tags.
    pub open spec fn has_room(&self) -> bool {
        self.next_tag() < i64::MAX && self.tagged_count() < i64::MAX
    }

    /// Whether another tag can be handed out.
    pub fn can_tag(&self) -> (room: bool)
        ensures
            room == self.has_room(),
    {
        self.next < i64::MAX && self.tagged < i64::MAX
    }

    /// Visits an object with the given tag and returns the tag it has afterwards.
    /// An object with tag 0 gets the next tag; a tagged object keeps its tag.
    pub fn visit(&mut self, tag: i64) -> (tag_after: i64)
        requires
            old(self).has_room(),
        ensures
            tag != 0 ==> tag_after == tag && final(self).next_tag() == old(self).next_tag() && final(self).tagged_count() == old(self).tagged_count(),
            tag == 0 ==> tag_after == old(self).next_tag() && final(self).next_tag() == old(self).next_tag() + 1 && final(self).tagged_count() == old(self).tagged_count() + 1,
    {
        if tag == 0 {
            let given: i64 = self.next;
            self.next = self.next + 1;
            self.tagged = self.tagged + 1;
            given
        } else {
            tag
        }
    }

    /// The range of tags handed out by a pass that started at `start_tag`.
    pub fn range(&self, start_tag: i64) -> (r: TagRange)
        ensures
            r.start == start_tag,
            r.end == self.next_tag(),
            r.tagged == self.tagged_count(),
    {
        TagRange { start: start_tag, end: self.next, tagged: self.tagged }
    }
}

impl HeapGraph {
    /// A graph without edges.
    pub fn new() -> (g: Self)
        ensures
            g.edges@ == Seq::<(i64, i64)>::empty(),
    {
        HeapGraph { edges: Vec::new() }
    }

    /// Records a reference from the object tagged `referrer_tag` to the object
    /// tagged `target_tag`. A reference with an untagged end is not recorded.
    pub fn record_edge(&mut self, referrer_tag: i64, target_tag: i64)
        ensures
            referrer_tag != 0 && target_tag != 0 ==> final(self).edges@ == old(self).edges@.push(
                (referrer_tag, target_tag),
            ),
            referrer_tag == 0 || target_tag == 0 ==> final(self).edges@ == old(self).edges@,
    {
        if referrer_tag != 0 && target_tag != 0 {
            self.edges.push((referrer_tag, target_tag));
        }
    }
}

} // verus!
