//! Units of measurement and the display suffix of each.
use vstd::prelude::*;
use crate::text::same_text;

verus! {

/// A unit of measurement that the suffix table knows.
///
/// `Unknown` is the catch-all unit `"?"`, whose suffix is `"?"` as well.
#[derive(Debug, Clone, Copy, PartialEq, Eq)]
pub enum Unit {
    Unknown,
    Blocks,
    Bytes,
    Calls,
    Connections,
    ContextSwitches,
    Corruptions,
    CurrentConsensusTerm,
    Deletes,
    Entries,
    Failures,
    Files,
    Hits,
    Indicator,
    Iterators,
    Keys,
    Messages,
    Microseconds,
    Milliseconds,
    Nanoseconds,
    Nr,
    Operations,
    Parsers,
    Processors,
    Properties,
    Queries,
    Reads,
    Rejections,
    Requests,
    Rows,
    Rpcs,
    Seeks,
    Syncs,
    Tasks,
    Threads,
    Transactions,
    Writes,
}

impl Unit {
    /// The unit's name, as it is written in a statistic's details.
    pub open spec fn spec_name(self) -> Seq<char> {
        match self {
            Unit::Unknown => "?"@,
            Unit::Blocks => "blocks"@,
            Unit::Bytes => "bytes"@,
            Unit::Calls => "calls"@,
            Unit::Connections => "connections"@,
            Unit::ContextSwitches => "context switches"@,
            Unit::Corruptions => "corruptions"@,
            Unit::CurrentConsensusTerm => "current consensus term"@,
            Unit::Deletes => "deletes"@,
            Unit::Entries => "entries"@,
            Unit::Failures => "failures"@,
            Unit::Files => "files"@,
            Unit::Hits => "hits"@,
            Unit::Indicator => "indicator"@,
            Unit::Iterators => "iterators"@,
            Unit::Keys => "keys"@,
            Unit::Messages => "messages"@,
            Unit::Microseconds => "microseconds"@,
            Unit::Milliseconds => "milliseconds"@,
            Unit::Nanoseconds => "nanoseconds"@,
            Unit::Nr => "nr"@,
            Unit::Operations => "operations"@,
            Unit::Parsers => "parsers"@,
            Unit::Processors => "processors"@,
            Unit::Properties => "properties"@,
            Unit::Queries => "queries"@,
            Unit::Reads => "reads"@,
            Unit::Rejections => "rejections"@,
            Unit::Requests => "requests"@,
            Unit::Rows => "rows"@,
            Unit::Rpcs => "rpcs"@,
            Unit::Seeks => "seeks"@,
            Unit::Syncs => "syncs"@,
            Unit::Tasks => "tasks"@,
            Unit::Threads => "threads"@,
            Unit::Transactions => "transactions"@,
            Unit::Writes => "writes"@,
        }
    }

    /// The short form of the unit's name, for compact display.
    pub open spec fn spec_suffix(self) -> Seq<char> {
        match self {
            Unit::Unknown => "?"@,
            Unit::Blocks => "blocks"@,
            Unit::Bytes => "bytes"@,
            Unit::Calls => "calls"@,
            Unit::Connections => "conn"@,
            Unit::ContextSwitches => "csws"@,
            Unit::Corruptions => "corrupt"@,
            Unit::CurrentConsensusTerm => "terms"@,
            Unit::Deletes => "dels"@,
            Unit::Entries => "entries"@,
            Unit::Failures => "fails"@,
            Unit::Files => "files"@,
            Unit::Hits => "hits"@,
            Unit::Indicator => "y/n"@,
            Unit::Iterators => "iters"@,
            Unit::Keys => "keys"@,
            Unit::Messages => "msgs"@,
            Unit::Microseconds => "us"@,
            Unit::Milliseconds => "ms"@,
            Unit::Nanoseconds => "ns"@,
            Unit::Nr => "nr"@,
            Unit::Operations => "ops"@,
            Unit::Parsers => "parsers"@,
            Unit::Processors => "procs"@,
            Unit::Properties => "props"@,
            Unit::Queries => "qry"@,
            Unit::Reads => "reads"@,
            Unit::Rejections => "reject"@,
            Unit::Requests => "reqs"@,
            Unit::Rows => "rows"@,
            Unit::Rpcs => "rpcs"@,
            Unit::Seeks => "seeks"@,
            Unit::Syncs => "syncs"@,
            Unit::Tasks => "tasks"@,
            Unit::Threads => "threads"@,
            Unit::Transactions => "txns"@,
            Unit::Writes => "writes"@,
        }
    }

    /// The unit's name.
    pub fn name(self) -> (r: &'static str)
        ensures
            r@ == self.spec_name(),
    {
        match self {
            Unit::Unknown => "?",
            Unit::Blocks => "blocks",
            Unit::Bytes => "bytes",
            Unit::Calls => "calls",
            Unit::Connections => "connections",
            Unit::ContextSwitches => "context switches",
            Unit::Corruptions => "corruptions",
            Unit::CurrentConsensusTerm => "current consensus term",
            Unit::Deletes => "deletes",
            Unit::Entries => "entries",
            Unit::Failures => "failures",
            Unit::Files => "files",
            Unit::Hits => "hits",
            Unit::Indicator => "indicator",
            Unit::Iterators => "iterators",
            Unit::Keys => "keys",
            Unit::Messages => "messages",
            Unit::Microseconds => "microseconds",
            Unit::Milliseconds => "milliseconds",
            Unit::Nanoseconds => "nanoseconds",
            Unit::Nr => "nr",
            Unit::Operations => "operations",
            Unit::Parsers => "parsers",
            Unit::Processors => "processors",
            Unit::Properties => "properties",
            Unit::Queries => "queries",
            Unit::Reads => "reads",
            Unit::Rejections => "rejections",
            Unit::Requests => "requests",
            Unit::Rows => "rows",
            Unit::Rpcs => "rpcs",
            Unit::Seeks => "seeks",
            Unit::Syncs => "syncs",
            Unit::Tasks => "tasks",
            Unit::Threads => "threads",
            Unit::Transactions => "transactions",
            Unit::Writes => "writes",
        }
    }

    /// The unit's display suffix.
    pub fn suffix(self) -> (r: &'static str)
        ensures
            r@ == self.spec_suffix(),
    {
        match self {
            Unit::Unknown => "?",
            Unit::Blocks => "blocks",
            Unit::Bytes => "bytes",
            Unit::Calls => "calls",
            Unit::Connections => "conn",
            Unit::ContextSwitches => "csws",
            Unit::Corruptions => "corrupt",
            Unit::CurrentConsensusTerm => "terms",
            Unit::Deletes => "dels",
            Unit::Entries => "entries",
            Unit::Failures => "fails",
            Unit::Files => "files",
            Unit::Hits => "hits",
            Unit::Indicator => "y/n",
            Unit::Iterators => "iters",
            Unit::Keys => "keys",
            Unit::Messages => "msgs",
            Unit::Microseconds => "us",
            Unit::Milliseconds => "ms",
            Unit::Nanoseconds => "ns",
            Unit::Nr => "nr",
            Unit::Operations => "ops",
            Unit::Parsers => "parsers",
            Unit::Processors => "procs",
            Unit::Properties => "props",
            Unit::Queries => "qry",
            Unit::Reads => "reads",
            Unit::Rejections => "reject",
            Unit::Requests => "reqs",
            Unit::Rows => "rows",
            Unit::Rpcs => "rpcs",
            Unit::Seeks => "seeks",
            Unit::Syncs => "syncs",
            Unit::Tasks => "tasks",
            Unit::Threads => "threads",
            Unit::Transactions => "txns",
            Unit::Writes => "writes",
        }
    }

    /// The unit with the given name, if the suffix table has one.
    pub fn from_name(name: &str) -> (r: Option<Unit>)
        ensures
            r == unit_named(name@),
    {
        reveal(unit_named);
        if same_text(name, "?") {
            return Some(Unit::Unknown);
        }
        if same_text(name, "blocks") {
            return Some(Unit::Blocks);
        }
        if same_text(name, "bytes") {
            return Some(Unit::Bytes);
        }
        if same_text(name, "calls") {
            return Some(Unit::Calls);
        }
        if same_text(name, "connections") {
            return Some(Unit::Connections);
        }
        if same_text(name, "context switches") {
            return Some(Unit::ContextSwitches);
        }
        if same_text(name, "corruptions") {
            return Some(Unit::Corruptions);
        }
        if same_text(name, "current consensus term") {
            return Some(Unit::CurrentConsensusTerm);
        }
        if same_text(name, "deletes") {
            return Some(Unit::Deletes);
        }
        if same_text(name, "entries") {
            return Some(Unit::Entries);
        }
        if same_text(name, "failures") {
            return Some(Unit::Failures);
        }
        if same_text(name, "files") {
            return Some(Unit::Files);
        }
        if same_text(name, "hits") {
            return Some(Unit::Hits);
        }
        if same_text(name, "indicator") {
            return Some(Unit::Indicator);
        }
        if same_text(name, "iterators") {
            return Some(Unit::Iterators);
        }
        if same_text(name, "keys") {
            return Some(Unit::Keys);
        }
        if same_text(name, "messages") {
            return Some(Unit::Messages);
        }
        if same_text(name, "microseconds") {
            return Some(Unit::Microseconds);
        }
        if same_text(name, "milliseconds") {
            return Some(Unit::Milliseconds);
        }
        if same_text(name, "nanoseconds") {
            return Some(Unit::Nanoseconds);
        }
        if same_text(name, "nr") {
            return Some(Unit::Nr);
        }
        if same_text(name, "operations") {
            return Some(Unit::Operations);
        }
        if same_text(name, "parsers") {
            return Some(Unit::Parsers);
        }
        if same_text(name, "processors") {
            return Some(Unit::Processors);
        }
        if same_text(name, "properties") {
            return Some(Unit::Properties);
        }
        if same_text(name, "queries") {
            return Some(Unit::Queries);
        }
        if same_text(name, "reads") {
            return Some(Unit::Reads);
        }
        if same_text(name, "rejections") {
            return Some(Unit::Rejections);
        }
        if same_text(name, "requests") {
            return Some(Unit::Requests);
        }
        if same_text(name, "rows") {
            return Some(Unit::Rows);
        }
        if same_text(name, "rpcs") {
            return Some(Unit::Rpcs);
        }
        if same_text(name, "seeks") {
            return Some(Unit::Seeks);
        }
        if same_text(name, "syncs") {
            return Some(Unit::Syncs);
        }
        if same_text(name, "tasks") {
            return Some(Unit::Tasks);
        }
        if same_text(name, "threads") {
            return Some(Unit::Threads);
        }
        if same_text(name, "transactions") {
            return Some(Unit::Transactions);
        }
        if same_text(name, "writes") {
            return Some(Unit::Writes);
        }
        None
    }
}

/// The first unit in the suffix table whose name is `name`, if any.
#[verifier::opaque]
pub open spec fn unit_named(name: Seq<char>) -> Option<Unit> {
    if name == "?"@ {
        Some(Unit::Unknown)
    } else if name == "blocks"@ {
        Some(Unit::Blocks)
    } else if name == "bytes"@ {
        Some(Unit::Bytes)
    } else if name == "calls"@ {
        Some(Unit::Calls)
    } else if name == "connections"@ {
        Some(Unit::Connections)
    } else if name == "context switches"@ {
        Some(Unit::ContextSwitches)
    } else if name == "corruptions"@ {
        Some(Unit::Corruptions)
    } else if name == "current consensus term"@ {
        Some(Unit::CurrentConsensusTerm)
    } else if name == "deletes"@ {
        Some(Unit::Deletes)
    } else if name == "entries"@ {
        Some(Unit::Entries)
    } else if name == "failures"@ {
        Some(Unit::Failures)
    } else if name == "files"@ {
        Some(Unit::Files)
    } else if name == "hits"@ {
        Some(Unit::Hits)
    } else if name == "indicator"@ {
        Some(Unit::Indicator)
    } else if name == "iterators"@ {
        Some(Unit::Iterators)
    } else if name == "keys"@ {
        Some(Unit::Keys)
    } else if name == "messages"@ {
        Some(Unit::Messages)
    } else if name == "microseconds"@ {
        Some(Unit::Microseconds)
    } else if name == "milliseconds"@ {
        Some(Unit::Milliseconds)
    } else if name == "nanoseconds"@ {
        Some(Unit::Nanoseconds)
    } else if name == "nr"@ {
        Some(Unit::Nr)
    } else if name == "operations"@ {
        Some(Unit::Operations)
    } else if name == "parsers"@ {
        Some(Unit::Parsers)
    } else if name == "processors"@ {
        Some(Unit::Processors)
    } else if name == "properties"@ {
        Some(Unit::Properties)
    } else if name == "queries"@ {
        Some(Unit::Queries)
    } else if name == "reads"@ {
        Some(Unit::Reads)
    } else if name == "rejections"@ {
        Some(Unit::Rejections)
    } else if name == "requests"@ {
        Some(Unit::Requests)
    } else if name == "rows"@ {
        Some(Unit::Rows)
    } else if name == "rpcs"@ {
        Some(Unit::Rpcs)
    } else if name == "seeks"@ {
        Some(Unit::Seeks)
    } else if name == "syncs"@ {
        Some(Unit::Syncs)
    } else if name == "tasks"@ {
        Some(Unit::Tasks)
    } else if name == "threads"@ {
        Some(Unit::Threads)
    } else if name == "transactions"@ {
        Some(Unit::Transactions)
    } else if name == "writes"@ {
        Some(Unit::Writes)
    } else {
        None
    }
}

/// The display suffix of a unit name: the suffix table's entry for it, and
/// the sentinel `"?"` for a name that the table does not hold.
pub open spec fn suffix_of(unit: Seq<char>) -> Seq<char> {
    match unit_named(unit) {
        Some(u) => u.spec_suffix(),
        None => "?"@,
    }
}

/// Every unit of the suffix table but the catch-all one resolves to a real
/// suffix: the sentinel `"?"` comes back only for `"?"` itself and for a
/// name that the table does not hold.
pub proof fn lemma_known_unit_has_suffix(u: Unit)
    ensures
        unit_named(u.spec_name()) is Some,
        u != Unit::Unknown ==> suffix_of(u.spec_name()) != "?"@,
{
    reveal(unit_named);
    reveal_strlit("?");
    reveal_strlit("blocks");
    reveal_strlit("bytes");
    reveal_strlit("calls");
    reveal_strlit("connections");
    reveal_strlit("conn");
    reveal_strlit("context switches");
    reveal_strlit("csws");
    reveal_strlit("corruptions");
    reveal_strlit("corrupt");
    reveal_strlit("current consensus term");
    reveal_strlit("terms");
    reveal_strlit("deletes");
    reveal_strlit("dels");
    reveal_strlit("entries");
    reveal_strlit("failures");
    reveal_strlit("fails");
    reveal_strlit("files");
    reveal_strlit("hits");
    reveal_strlit("indicator");
    reveal_strlit("y/n");
    reveal_strlit("iterators");
    reveal_strlit("iters");
    reveal_strlit("keys");
    reveal_strlit("messages");
    reveal_strlit("msgs");
    reveal_strlit("microseconds");
    reveal_strlit("us");
    reveal_strlit("milliseconds");
    reveal_strlit("ms");
    reveal_strlit("nanoseconds");
    reveal_strlit("ns");
    reveal_strlit("nr");
    reveal_strlit("operations");
    reveal_strlit("ops");
    reveal_strlit("parsers");
    reveal_strlit("processors");
    reveal_strlit("procs");
    reveal_strlit("properties");
    reveal_strlit("props");
    reveal_strlit("queries");
    reveal_strlit("qry");
    reveal_strlit("reads");
    reveal_strlit("rejections");
    reveal_strlit("reject");
    reveal_strlit("requests");
    reveal_strlit("reqs");
    reveal_strlit("rows");
    reveal_strlit("rpcs");
    reveal_strlit("seeks");
    reveal_strlit("syncs");
    reveal_strlit("tasks");
    reveal_strlit("threads");
    reveal_strlit("transactions");
    reveal_strlit("txns");
    reveal_strlit("writes");
    assert("?"@.len() == 1);
    assert("blocks"@.len() == 6);
    assert("bytes"@.len() == 5);
    assert("calls"@.len() == 5);
    assert("connections"@.len() == 11);
    assert("conn"@.len() == 4);
    assert("context switches"@.len() == 16);
    assert("csws"@.len() == 4);
    assert("corruptions"@.len() == 11);
    assert("corrupt"@.len() == 7);
    assert("current consensus term"@.len() == 22);
    assert("terms"@.len() == 5);
    assert("deletes"@.len() == 7);
    assert("dels"@.len() == 4);
    assert("entries"@.len() == 7);
    assert("failures"@.len() == 8);
    assert("fails"@.len() == 5);
    assert("files"@.len() == 5);
    assert("hits"@.len() == 4);
    assert("indicator"@.len() == 9);
    assert("y/n"@.len() == 3);
    assert("iterators"@.len() == 9);
    assert("iters"@.len() == 5);
    assert("keys"@.len() == 4);
    assert("messages"@.len() == 8);
    assert("msgs"@.len() == 4);
    assert("microseconds"@.len() == 12);
    assert("us"@.len() == 2);
    assert("milliseconds"@.len() == 12);
    assert("ms"@.len() == 2);
    assert("nanoseconds"@.len() == 11);
    assert("ns"@.len() == 2);
    assert("nr"@.len() == 2);
    assert("operations"@.len() == 10);
    assert("ops"@.len() == 3);
    assert("parsers"@.len() == 7);
    assert("processors"@.len() == 10);
    assert("procs"@.len() == 5);
    assert("properties"@.len() == 10);
    assert("props"@.len() == 5);
    assert("queries"@.len() == 7);
    assert("qry"@.len() == 3);
    assert("reads"@.len() == 5);
    assert("rejections"@.len() == 10);
    assert("reject"@.len() == 6);
    assert("requests"@.len() == 8);
    assert("reqs"@.len() == 4);
    assert("rows"@.len() == 4);
    assert("rpcs"@.len() == 4);
    assert("seeks"@.len() == 5);
    assert("syncs"@.len() == 5);
    assert("tasks"@.len() == 5);
    assert("threads"@.len() == 7);
    assert("transactions"@.len() == 12);
    assert("txns"@.len() == 4);
    assert("writes"@.len() == 6);
}

/// The unit that a name resolves to carries that name.
pub proof fn lemma_unit_named_carries_name(name: Seq<char>)
    ensures
        unit_named(name) matches Some(u) ==> u.spec_name() == name,
{
    reveal(unit_named);
}

/// The catch-all unit `"?"` resolves to the sentinel suffix `"?"`.
pub proof fn lemma_catch_all_suffix()
    ensures
        unit_named("?"@) == Some(Unit::Unknown),
        suffix_of("?"@) == "?"@,
{
    reveal(unit_named);
}

/// Resolving a unit name gives the sentinel suffix `"?"` only for `"?"`
/// itself and for a name that the suffix table does not hold.
pub proof fn lemma_sentinel_suffix(name: Seq<char>)
    ensures
        suffix_of(name) == "?"@ ==> name == "?"@ || unit_named(name) is None,
{
    lemma_unit_named_carries_name(name);
    if let Some(u) = unit_named(name) {
        lemma_known_unit_has_suffix(u);
    }
}

} // verus!
