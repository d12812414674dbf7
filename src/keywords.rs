use vstd::prelude::*;

verus! {

/// Documentation of the keywords, keyed by the keyword as it is written.
pub struct KeywordDocsMap {
    entries: Vec<(String, String)>,
}

/// The keywords that have documentation, in the order they are stored.
pub open spec fn documented_keywords() -> Seq<Seq<char>> {
    seq![
        "EXPLAIN"@,
        "FROM"@,
        "GROUP BY"@,
        "LIMIT"@,
        "ONLY"@,
        "ORDER BY"@,
        "PARALLEL"@,
        "SELECT"@,
        "SPLIT"@,
        "TIMEOUT"@,
        "VALUE"@,
        "WHERE"@,
        "WITH"@,
    ]
}

/// The documentation stored first under `key`, if any.
pub open spec fn lookup(entries: Seq<(Seq<char>, Seq<char>)>, key: Seq<char>) -> Option<Seq<char>>
    decreases entries.len(),
{
    if entries.len() == 0 {
        None
    } else if entries[0].0 == key {
        Some(entries[0].1)
    } else {
        lookup(entries.drop_first(), key)
    }
}

impl View for KeywordDocsMap {
    type V = Seq<(Seq<char>, Seq<char>)>;

    closed spec fn view(&self) -> Seq<(Seq<char>, Seq<char>)> {
        self.entries@.map_values(|e: (String, String)| (e.0@, e.1@))
    }
}

impl KeywordDocsMap {
    /// The keys, in the order they are stored.
    pub open spec fn keys(&self) -> Seq<Seq<char>> {
        self@.map_values(|e: (Seq<char>, Seq<char>)| e.0)
    }

    /// No keyword is stored twice.
    pub open spec fn wf(&self) -> bool {
        forall|i: int, j: int| 0 <= i < j < self@.len() ==> self@[i].0 != self@[j].0
    }

    /// The documentation of `keyword`, if it has any.
    pub fn get(&self, keyword: &String) -> (r: Option<String>)
        ensures
            match r {
                Some(d) => lookup(self@, keyword@) == Some(d@),
                None => lookup(self@, keyword@) is None,
            },
    {
        let mut i: usize = 0;
        assert(self@.subrange(0, self@.len() as int) =~= self@);
        while i < self.entries.len()
            invariant
                i <= self.entries@.len(),
                lookup(self@, keyword@) == lookup(self@.subrange(i as int, self@.len() as int), keyword@),
            decreases self.entries@.len() - i,
        {
            let ghost rest = self@.subrange(i as int, self@.len() as int);
            assert(rest.drop_first() =~= self@.subrange(i + 1, self@.len() as int));
            assert(rest[0] == (self.entries@[i as int].0@, self.entries@[i as int].1@));
            if self.entries[i].0 == *keyword {
                return Some(self.entries[i].1.clone());
            }
            i = i + 1;
        }
        assert(self@.subrange(i as int, self@.len() as int) =~= seq![]);
        None
    }
}

fn entry(keyword: &str, doc: &str) -> (r: (String, String))
    ensures
        r.0@ == keyword@,
        r.1@ == doc@,
{
    (String::from_str(keyword), String::from_str(doc))
}

/// The documentation of every keyword that hover and completion describe.
pub fn load_kw_docs() -> (r: KeywordDocsMap)
    ensures
        r.keys() == documented_keywords(),
        r.wf(),
{
    let mut entries: Vec<(String, String)> = Vec::new();
    entries.push(entry("EXPLAIN", "**EXPLAIN**\n\nShows how the query is planned and executed instead of its results."));
    entries.push(entry("FROM", "**FROM**\n\nNames the tables, records or values that the statement reads."));
    entries.push(entry("GROUP BY", "**GROUP BY**\n\nGroups the records that share the values of the given fields."));
    entries.push(entry("LIMIT", "**LIMIT**\n\nReturns at most the given number of records."));
    entries.push(entry("ONLY", "**ONLY**\n\nReturns a single record rather than an array of records."));
    entries.push(entry("ORDER BY", "**ORDER BY**\n\nSorts the records by the given fields."));
    entries.push(entry("PARALLEL", "**PARALLEL**\n\nFetches the records of the targets in parallel."));
    entries.push(entry("SELECT", "**SELECT**\n\nReads fields or values from the given targets."));
    entries.push(entry("SPLIT", "**SPLIT**\n\nSplits each record into one record per value of an array field."));
    entries.push(entry("TIMEOUT", "**TIMEOUT**\n\nStops the statement when it runs longer than the given duration."));
    entries.push(entry("VALUE", "**VALUE**\n\nReturns the value of a single field rather than an object."));
    entries.push(entry("WHERE", "**WHERE**\n\nKeeps only the records for which the condition holds."));
    entries.push(entry("WITH", "**WITH**\n\nNames the indexes that the query planner may use."));
    let r = KeywordDocsMap { entries };
    proof {
        reveal_strlit("EXPLAIN");
        reveal_strlit("FROM");
        reveal_strlit("GROUP BY");
        reveal_strlit("LIMIT");
        reveal_strlit("ONLY");
        reveal_strlit("ORDER BY");
        reveal_strlit("PARALLEL");
        reveal_strlit("SELECT");
        reveal_strlit("SPLIT");
        reveal_strlit("TIMEOUT");
        reveal_strlit("VALUE");
        reveal_strlit("WHERE");
        reveal_strlit("WITH");
    }
    assert(r.keys() =~= documented_keywords());
    let ghost ks = documented_keywords();
    assert forall|i: int, j: int| 0 <= i < j < ks.len() implies ks[i] != ks[j] by {
        assert(ks[i].len() != ks[j].len() || ks[i][0] != ks[j][0]);
    }
    assert forall|i: int, j: int| 0 <= i < j < r@.len() implies r@[i].0 != r@[j].0 by {
        assert(r.keys()[i] == r@[i].0 && r.keys()[j] == r@[j].0);
    }
    r
}

} // verus!
