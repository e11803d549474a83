use vstd::prelude::*;

verus! {

/// One entry of the source registry: a human-readable source name paired
/// with the URL of its syndication feed.
pub struct SourceEntry {
    pub name: String,
    pub url: String,
}

/// The URL configured for `name` in `entries`: the URL of the first entry
/// whose name matches, or `None` when no entry matches.
pub open spec fn lookup(entries: Seq<SourceEntry>, name: Seq<char>) -> Option<Seq<char>>
    decreases entries.len(),
{
    if entries.len() == 0 {
        None
    } else if entries[0].name@ == name {
        Some(entries[0].url@)
    } else {
        lookup(entries.drop_first(), name)
    }
}

/// All entry names are pairwise distinct.
pub open spec fn distinct_names(entries: Seq<SourceEntry>) -> bool {
    forall|i: int, j: int|
        0 <= i < j < entries.len() ==> entries[i].name@ != entries[j].name@
}

/// The fixed mapping from source name to feed URL. Immutable after
/// construction; its name set is exactly the set of options ever offered
/// to the user.
pub struct Registry {
    entries: Vec<SourceEntry>,
}

impl Registry {
    /// The configured entries, in enumeration order.
    pub closed spec fn entries_seq(&self) -> Seq<SourceEntry> {
        self.entries@
    }

    /// Well-formed: no two entries share a name.
    pub open spec fn wf(&self) -> bool {
        distinct_names(self.entries_seq())
    }

    /// Build a registry from a fixed list of entries, refusing a list in
    /// which two entries share a name.
    pub fn from_entries(entries: Vec<SourceEntry>) -> (r: Option<Registry>)
        ensures
            match r {
                Some(reg) => reg.wf() && reg.entries_seq() == entries@,
                None => !distinct_names(entries@),
            },
    {
        let n = entries.len();
        let mut i: usize = 0;
        while i < n
            invariant
                n == entries@.len(),
                i <= n,
                forall|p: int, q: int| 0 <= p < q < i ==> entries@[p].name@ != entries@[q].name@,
                forall|p: int, q: int|
                    0 <= p < i && p < q < n ==> entries@[p].name@ != entries@[q].name@,
            decreases n - i,
        {
            let mut j: usize = i + 1;
            while j < n
                invariant
                    n == entries@.len(),
                    i < j <= n,
                    forall|q: int| i < q < j ==> entries@[i as int].name@ != entries@[q].name@,
                decreases n - j,
            {
                if entries[i].name.eq(&entries[j].name) {
                    return None;
                }
                j += 1;
            }
            i += 1;
        }
        Some(Registry { entries })
    }

    /// The shipped configuration: two sources, offered in this order.
    pub fn default_sources() -> (r: Registry)
        ensures
            r.wf(),
            r.entries_seq().len() == 2,
            r.entries_seq()[0].name@ == "TVR"@,
            r.entries_seq()[0].url@ == "http://stiri.tvr.ro/rss/stiri.xml"@,
            r.entries_seq()[1].name@ == "MediaFax"@,
            r.entries_seq()[1].url@ == "https://www.mediafax.ro/rss"@,
    {
        let mut entries: Vec<SourceEntry> = Vec::new();
        entries.push(
            SourceEntry {
                name: String::from_str("TVR"),
                url: String::from_str("http://stiri.tvr.ro/rss/stiri.xml"),
            },
        );
        entries.push(
            SourceEntry {
                name: String::from_str("MediaFax"),
                url: String::from_str("https://www.mediafax.ro/rss"),
            },
        );
        proof {
            reveal_strlit("TVR");
            reveal_strlit("MediaFax");
            assert("TVR"@.len() == 3);
            assert("MediaFax"@.len() == 8);
        }
        Registry { entries }
    }

    /// How many sources are configured.
    pub fn len(&self) -> (r: usize)
        ensures
            r == self.entries_seq().len(),
    {
        self.entries.len()
    }

    /// The source names, in the registry's enumeration order.
    pub fn names(&self) -> (r: Vec<String>)
        ensures
            r@.len() == self.entries_seq().len(),
            forall|k: int| 0 <= k < r@.len() ==> r@[k]@ == self.entries_seq()[k].name@,
    {
        let mut out: Vec<String> = Vec::new();
        let n = self.entries.len();
        let mut i: usize = 0;
        while i < n
            invariant
                n == self.entries_seq().len(),
                i <= n,
                out@.len() == i,
                forall|k: int| 0 <= k < i ==> out@[k]@ == self.entries_seq()[k].name@,
            decreases n - i,
        {
            out.push(self.entries[i].name.clone());
            i += 1;
        }
        out
    }

    /// Resolve a source name to its configured feed URL: `Some` exactly when
    /// some entry carries that name, and then the URL of the first such entry.
    pub fn resolve(&self, name: &str) -> (r: Option<String>)
        ensures
            match r {
                Some(url) => lookup(self.entries_seq(), name@) == Some(url@),
                None => lookup(self.entries_seq(), name@) is None,
            },
    {
        let key = String::from_str(name);
        let n = self.entries.len();
        let mut i: usize = 0;
        proof {
            assert(self.entries_seq().skip(0) =~= self.entries_seq());
        }
        while i < n
            invariant
                n == self.entries_seq().len(),
                i <= n,
                key@ == name@,
                lookup(self.entries_seq(), name@) == lookup(
                    self.entries_seq().skip(i as int),
                    name@,
                ),
                forall|k: int| 0 <= k < i ==> self.entries_seq()[k].name@ != name@,
            decreases n - i,
        {
            if self.entries[i].name.eq(&key) {
                proof {
                    lemma_lookup_head(self.entries_seq().skip(i as int), name@);
                }
                return Some(self.entries[i].url.clone());
            }
            proof {
                lemma_lookup_tail(self.entries_seq().skip(i as int), name@);
                assert(self.entries_seq().skip(i as int).drop_first() =~= self.entries_seq().skip(
                    i + 1,
                ));
            }
            i += 1;
        }
        proof {
            assert(self.entries_seq().skip(n as int) =~= Seq::<SourceEntry>::empty());
        }
        None
    }
}

/// On a non-empty entry list whose head matches, `lookup` gives the head's URL.
proof fn lemma_lookup_head(entries: Seq<SourceEntry>, name: Seq<char>)
    requires
        entries.len() > 0,
        entries[0].name@ == name,
    ensures
        lookup(entries, name) == Some(entries[0].url@),
{
}

/// On a non-empty entry list whose head does not match, `lookup` defers to the tail.
proof fn lemma_lookup_tail(entries: Seq<SourceEntry>, name: Seq<char>)
    requires
        entries.len() > 0,
        entries[0].name@ != name,
    ensures
        lookup(entries, name) == lookup(entries.drop_first(), name),
{
}

/// Resolving any name the registry enumerates yields exactly the URL
/// configured beside it: with distinct names, the entry found first is the
/// entry the name belongs to.
pub proof fn lemma_resolve_configured(entries: Seq<SourceEntry>, k: int)
    requires
        distinct_names(entries),
        0 <= k < entries.len(),
    ensures
        lookup(entries, entries[k].name@) == Some(entries[k].url@),
    decreases k,
{
    if k == 0 {
    } else {
        assert(entries[0].name@ != entries[k].name@);
        lemma_resolve_configured(entries.drop_first(), k - 1);
    }
}

} // verus!
