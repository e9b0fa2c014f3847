//! The font cache: a process-lifetime table mapping a font description
//! (family and style key) to a loaded font handle, deduplicating load
//! requests.
//!
//! Actual font resources are owned by the external text backend; this
//! crate models a loaded font as a handle (a small index) that the
//! backend keys its resources by. Creating a cache entry is the one
//! observable effect of a load, so "the backend is asked to load exactly
//! once per distinct description" becomes "the cache holds exactly one
//! entry per distinct description".

use vstd::prelude::*;

verus! {

/// A font description, used as the cache key; equality is structural
/// (on the character content of both fields).
#[derive(Debug)]
pub struct FontDescription {
    pub family: String,
    pub style: String,
}

/// The mathematical value of a [`FontDescription`]: the character
/// sequences of its two fields.
#[verifier::ext_equal]
pub struct FontDescriptionV {
    pub family: Seq<char>,
    pub style: Seq<char>,
}

impl View for FontDescription {
    type V = FontDescriptionV;

    open spec fn view(&self) -> FontDescriptionV {
        FontDescriptionV { family: self.family@, style: self.style@ }
    }
}

impl FontDescription {
    /// Builds a description from its two key strings.
    pub fn from_str(style: &str, family: &str) -> (d: FontDescription)
        ensures
            d@.family == family@,
            d@.style == style@,
    {
        FontDescription { family: family.to_owned(), style: style.to_owned() }
    }

    /// Structural equality of two descriptions.
    pub fn matches(&self, other: &FontDescription) -> (r: bool)
        ensures
            r == (self@ =~= other@),
    {
        self.family == other.family && self.style == other.style
    }
}

/// A shared handle to a loaded font. The cache hands out the same handle
/// for the same description; the external text backend keys the actual
/// font resource by the handle's index.
#[derive(Clone, Copy, PartialEq, Eq, Structural, Debug)]
pub struct FontHandle {
    pub id: usize,
}

/// One cache entry: a description and the handle it resolved to.
#[derive(Debug)]
pub struct FontEntry {
    pub desc: FontDescription,
    pub handle: FontHandle,
}

/// The mathematical value of a cache entry.
#[verifier::ext_equal]
pub struct FontEntryV {
    pub desc: FontDescriptionV,
    pub handle: FontHandle,
}

impl View for FontEntry {
    type V = FontEntryV;

    open spec fn view(&self) -> FontEntryV {
        FontEntryV { desc: self.desc@, handle: self.handle }
    }
}

/// First handle registered for `desc` among `entries`, if any.
pub open spec fn lookup(entries: Seq<FontEntryV>, desc: FontDescriptionV) -> Option<FontHandle>
    decreases entries.len(),
{
    if entries.len() == 0 {
        None
    } else if entries[0].desc.family == desc.family && entries[0].desc.style == desc.style {
        Some(entries[0].handle)
    } else {
        lookup(entries.drop_first(), desc)
    }
}

/// The table of fonts loaded so far.
#[derive(Debug)]
pub struct FontCache {
    entries: Vec<FontEntry>,
}

/// The mathematical value of the cache: the sequence of entries in
/// registration order.
#[verifier::ext_equal]
pub struct FontCacheV {
    pub entries: Seq<FontEntryV>,
}

impl View for FontCache {
    type V = FontCacheV;

    closed spec fn view(&self) -> FontCacheV {
        FontCacheV { entries: Seq::new(self.entries@.len(), |i: int| self.entries@[i]@) }
    }
}

impl FontCacheV {
    /// The cache's invariant: handles are exactly the entry indices (so
    /// each load produced one fresh handle), and no description occurs
    /// twice (so each distinct description was loaded exactly once).
    pub open spec fn wf(self) -> bool {
        &&& forall|i: int|
            0 <= i < self.entries.len() ==> (#[trigger] self.entries[i].handle) == (FontHandle {
                id: i as usize,
            })
        &&& forall|i: int, j: int|
            0 <= i < j < self.entries.len() ==> !((#[trigger] self.entries[i].desc).family
                == (#[trigger] self.entries[j].desc).family && self.entries[i].desc.style
                == self.entries[j].desc.style)
    }
}

/// What one load-or-fetch step does to the cache: the key now resolves
/// to the returned handle; a key seen before resolves to its old handle
/// and the cache is untouched (no second load); an unseen key gets the
/// next fresh handle and exactly one new entry (its one load).
pub open spec fn add_or_get_post(
    pre: FontCacheV,
    desc: FontDescriptionV,
    post: FontCacheV,
    h: FontHandle,
) -> bool {
    &&& lookup(post.entries, desc) == Some(h)
    &&& match lookup(pre.entries, desc) {
        Some(h0) => h == h0 && post.entries =~= pre.entries,
        None => {
            &&& h == (FontHandle { id: pre.entries.len() as usize })
            &&& post.entries =~= pre.entries.push(FontEntryV { desc, handle: h })
        },
    }
}

/// Repeated load-or-fetch with the same description returns the same
/// handle every time and performs no further load: after the first
/// step, the cache no longer changes.
pub proof fn lemma_add_or_get_idempotent(
    pre: FontCacheV,
    desc: FontDescriptionV,
    mid: FontCacheV,
    h1: FontHandle,
    post: FontCacheV,
    h2: FontHandle,
)
    requires
        add_or_get_post(pre, desc, mid, h1),
        add_or_get_post(mid, desc, post, h2),
    ensures
        h2 == h1,
        post.entries == mid.entries,
{
}

impl FontCache {
    /// An empty cache: nothing loaded yet.
    pub fn new() -> (c: FontCache)
        ensures
            c@.entries =~= Seq::<FontEntryV>::empty(),
            c@.wf(),
    {
        FontCache { entries: Vec::new() }
    }

    /// How many distinct descriptions have been loaded.
    pub fn len(&self) -> (n: usize)
        ensures
            n == self@.entries.len(),
    {
        self.entries.len()
    }

    /// Lookup without creation: the handle registered for `desc`, or
    /// `None` if the description was never seen. A miss is not an error;
    /// the caller falls back to loading.
    pub fn get_by_description(&self, desc: &FontDescription) -> (r: Option<FontHandle>)
        ensures
            r == lookup(self@.entries, desc@),
    {
        let n = self.entries.len();
        let mut i: usize = 0;
        proof {
            assert(self@.entries.skip(0) =~= self@.entries);
        }
        while i < n
            invariant
                i <= n,
                n == self@.entries.len(),
                lookup(self@.entries, desc@) == lookup(self@.entries.skip(i as int), desc@),
            decreases n - i,
        {
            proof {
                assert(self@.entries.skip(i as int)[0] == self@.entries[i as int]);
                assert(self@.entries.skip(i as int).drop_first() =~= self@.entries.skip(
                    i as int + 1,
                ));
            }
            if self.entries[i].desc.matches(desc) {
                return Some(self.entries[i].handle);
            }
            i += 1;
        }
        proof {
            assert(self@.entries.skip(n as int) =~= Seq::<FontEntryV>::empty());
        }
        None
    }

    /// Returns the handle already registered for `desc`, or registers a
    /// fresh one: at most one load per distinct description, ever.
    pub fn add_or_get(&mut self, desc: FontDescription) -> (h: FontHandle)
        requires
            old(self)@.wf(),
        ensures
            final(self)@.wf(),
            add_or_get_post(old(self)@, desc@, final(self)@, h),
    {
        let existing = self.get_by_description(&desc);
        match existing {
            Some(h) => {
                proof {
                    lemma_lookup_found(self@.entries, desc@);
                }
                h
            },
            None => {
                let h = FontHandle { id: self.entries.len() };
                let ghost pre = self@.entries;
                self.entries.push(FontEntry { desc, handle: h });
                proof {
                    assert(self@.entries =~= pre.push(FontEntryV { desc: desc@, handle: h }));
                    lemma_lookup_push(pre, FontEntryV { desc: desc@, handle: h }, desc@);
                    assert forall|i: int, j: int|
                        0 <= i < j < self@.entries.len() implies !((
                    #[trigger] self@.entries[i].desc).family == (
                    #[trigger] self@.entries[j].desc).family && self@.entries[i].desc.style
                        == self@.entries[j].desc.style) by {
                        if j == pre.len() {
                            lemma_lookup_none_all_differ(pre, desc@, i);
                        }
                    }
                }
                h
            },
        }
    }
}

/// A hit in `lookup` names an entry of the sequence.
proof fn lemma_lookup_found(entries: Seq<FontEntryV>, desc: FontDescriptionV)
    ensures
        match lookup(entries, desc) {
            Some(h) => exists|i: int|
                0 <= i < entries.len() && (#[trigger] entries[i]).handle == h && entries[i].desc.family
                    == desc.family && entries[i].desc.style == desc.style,
            None => true,
        },
    decreases entries.len(),
{
    if entries.len() > 0 {
        if !(entries[0].desc.family == desc.family && entries[0].desc.style == desc.style) {
            lemma_lookup_found(entries.drop_first(), desc);
            if lookup(entries, desc) is Some {
                let i = choose|i: int|
                    0 <= i < entries.drop_first().len() && (#[trigger] entries.drop_first()[i]).handle
                        == lookup(entries, desc)->Some_0 && entries.drop_first()[i].desc.family
                        == desc.family && entries.drop_first()[i].desc.style == desc.style;
                assert(entries[i + 1] == entries.drop_first()[i]);
            }
        }
    }
}

/// If `lookup` misses, every entry's description differs from `desc`.
proof fn lemma_lookup_none_all_differ(entries: Seq<FontEntryV>, desc: FontDescriptionV, i: int)
    requires
        lookup(entries, desc) is None,
        0 <= i < entries.len(),
    ensures
        !(entries[i].desc.family == desc.family && entries[i].desc.style == desc.style),
    decreases entries.len(),
{
    if i > 0 {
        assert(entries.drop_first()[i - 1] == entries[i]);
        lemma_lookup_none_all_differ(entries.drop_first(), desc, i - 1);
    }
}

/// Looking up after pushing one entry: the key just pushed resolves to
/// it when it was absent before; any other key resolves as before.
proof fn lemma_lookup_push(entries: Seq<FontEntryV>, e: FontEntryV, desc: FontDescriptionV)
    ensures
        lookup(entries, desc) is Some ==> lookup(entries.push(e), desc) == lookup(entries, desc),
        lookup(entries, desc) is None && e.desc.family == desc.family && e.desc.style == desc.style
            ==> lookup(entries.push(e), desc) == Some(e.handle),
        lookup(entries, desc) is None && !(e.desc.family == desc.family && e.desc.style
            == desc.style) ==> lookup(entries.push(e), desc) is None,
    decreases entries.len(),
{
    if entries.len() == 0 {
        assert(entries.push(e)[0] == e);
        assert(entries.push(e).drop_first() =~= Seq::<FontEntryV>::empty());
        assert(lookup(Seq::<FontEntryV>::empty(), desc) is None);
    } else {
        assert(entries.push(e)[0] == entries[0]);
        assert(entries.push(e).drop_first() =~= entries.drop_first().push(e));
        lemma_lookup_push(entries.drop_first(), e, desc);
    }
}

} // verus!
