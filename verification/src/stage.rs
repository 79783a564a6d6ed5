//! The contract-reported phase of a governance request, and the
//! interpretation of the raw string the stage query returns.
//!
//! The stage oracle hands back a JSON-encoded string, so the raw result may
//! arrive wrapped in quote characters. Interpretation first strips every
//! leading and trailing `"` (normalization), then matches the remainder
//! case-sensitively against the closed stage enumeration; anything else is
//! an unrecognized stage, reported distinctly rather than silently retried.

use vstd::prelude::*;

verus! {

/// The closed enumeration of protocol phases a request moves through, in
/// chronological order. `NonStarted` is what the contract reports before
/// the first commit window opens.
#[derive(Copy, Clone, Debug, PartialEq, Eq, Structural)]
pub enum Stage {
    NonStarted,
    CommitMiners,
    RevealMiners,
    CommitValidators,
    RevealValidators,
    Ended,
}

/// Position of a stage in the protocol's chronological order.
pub open spec fn stage_rank(s: Stage) -> int {
    match s {
        Stage::NonStarted => 0,
        Stage::CommitMiners => 1,
        Stage::RevealMiners => 2,
        Stage::CommitValidators => 3,
        Stage::RevealValidators => 4,
        Stage::Ended => 5,
    }
}

/// True when `a` lies strictly after `b` in the protocol's order. Stages
/// are monotonic from the contract's perspective, so observing a stage
/// later than the one a role waits for means that window is closed.
pub open spec fn spec_stage_is_later(a: Stage, b: Stage) -> bool {
    stage_rank(a) > stage_rank(b)
}

/// Executable form of [`spec_stage_is_later`].
pub fn stage_is_later(a: Stage, b: Stage) -> (r: bool)
    ensures
        r == spec_stage_is_later(a, b),
{
    stage_rank_exec(a) > stage_rank_exec(b)
}

/// Executable form of [`stage_rank`].
pub fn stage_rank_exec(s: Stage) -> (r: u32)
    ensures
        r as int == stage_rank(s),
{
    match s {
        Stage::NonStarted => 0,
        Stage::CommitMiners => 1,
        Stage::RevealMiners => 2,
        Stage::CommitValidators => 3,
        Stage::RevealValidators => 4,
        Stage::Ended => 5,
    }
}

/// Holds when stripping every leading and trailing quote character from
/// `s` leaves exactly the window `[i, j)`.
pub open spec fn is_quote_trim(s: Seq<char>, i: int, j: int) -> bool {
    &&& 0 <= i <= j <= s.len()
    &&& (forall|k: int| 0 <= k < i ==> s[k] == '"')
    &&& (forall|k: int| j <= k < s.len() ==> s[k] == '"')
    &&& (i < j ==> s[i] != '"' && s[j - 1] != '"')
}

/// `s` with every leading and trailing quote character removed.
pub open spec fn trim_quotes(s: Seq<char>) -> Seq<char> {
    let ij = choose|i: int, j: int| is_quote_trim(s, i, j);
    s.subrange(ij.0, ij.1)
}

/// Every character sequence has a quote-trim window.
pub proof fn lemma_quote_trim_exists(s: Seq<char>)
    ensures
        exists|i: int, j: int| is_quote_trim(s, i, j),
    decreases s.len(),
{
    if s.len() == 0 {
        assert(is_quote_trim(s, 0, 0));
    } else if s[0] == '"' {
        let tail = s.subrange(1, s.len() as int);
        lemma_quote_trim_exists(tail);
        let ij = choose|i: int, j: int| is_quote_trim(tail, i, j);
        assert forall|k: int| 0 <= k < ij.0 + 1 implies s[k] == '"' by {
            if k > 0 {
                assert(tail[k - 1] == s[k]);
            }
        }
        assert forall|k: int| ij.1 + 1 <= k < s.len() implies s[k] == '"' by {
            assert(tail[k - 1] == s[k]);
        }
        if ij.0 < ij.1 {
            assert(s[ij.0 + 1] == tail[ij.0]);
            assert(s[ij.1] == tail[ij.1 - 1]);
        }
        assert(is_quote_trim(s, ij.0 + 1, ij.1 + 1));
    } else if s[s.len() - 1] == '"' {
        let head = s.subrange(0, s.len() - 1);
        lemma_quote_trim_exists(head);
        let ij = choose|i: int, j: int| is_quote_trim(head, i, j);
        assert forall|k: int| ij.1 <= k < s.len() implies s[k] == '"' by {
            if k < s.len() - 1 {
                assert(head[k] == s[k]);
            }
        }
        assert forall|k: int| 0 <= k < ij.0 implies s[k] == '"' by {
            assert(head[k] == s[k]);
        }
        if ij.0 < ij.1 {
            assert(s[ij.0] == head[ij.0]);
            assert(s[ij.1 - 1] == head[ij.1 - 1]);
        }
        assert(is_quote_trim(s, ij.0, ij.1));
    } else {
        assert(is_quote_trim(s, 0, s.len() as int));
    }
}

/// Any two quote-trim windows of the same sequence select the same
/// subsequence, so [`trim_quotes`] is well defined.
pub proof fn lemma_quote_trim_unique(s: Seq<char>, i1: int, j1: int, i2: int, j2: int)
    requires
        is_quote_trim(s, i1, j1),
        is_quote_trim(s, i2, j2),
    ensures
        s.subrange(i1, j1) == s.subrange(i2, j2),
{
    if i1 == j1 && i2 == j2 {
        assert(s.subrange(i1, j1) =~= s.subrange(i2, j2));
    } else if i1 < j1 && i2 < j2 {
        assert(i1 == i2);
        assert(j1 == j2);
    } else if i1 < j1 {
        // i2 == j2, so every character of s is a quote; contradiction at i1.
        assert(s[i1] == '"');
        assert(false);
    } else {
        assert(s[i2] == '"');
        assert(false);
    }
}

/// Connects a concrete quote-trim window to [`trim_quotes`].
pub proof fn lemma_trim_quotes_window(s: Seq<char>, i: int, j: int)
    requires
        is_quote_trim(s, i, j),
    ensures
        trim_quotes(s) == s.subrange(i, j),
{
    lemma_quote_trim_exists(s);
    let ij = choose|i: int, j: int| is_quote_trim(s, i, j);
    lemma_quote_trim_unique(s, ij.0, ij.1, i, j);
}

/// A stage string wrapped in one layer of quote characters normalizes to
/// the same sequence as the bare string: the oracle's JSON quoting never
/// changes what stage is seen.
pub proof fn lemma_trim_quotes_wrapped(s: Seq<char>)
    ensures
        trim_quotes(seq!['"'] + s + seq!['"']) == trim_quotes(s),
{
    let w = seq!['"'] + s + seq!['"'];
    lemma_quote_trim_exists(s);
    let ij = choose|i: int, j: int| is_quote_trim(s, i, j);
    let i = ij.0;
    let j = ij.1;
    assert(w.len() == s.len() + 2);
    assert(forall|k: int| 1 <= k < w.len() - 1 ==> w[k] == s[k - 1]);
    assert(w[0] == '"');
    assert(w[w.len() - 1] == '"');
    assert(is_quote_trim(w, i + 1, j + 1));
    lemma_trim_quotes_window(w, i + 1, j + 1);
    lemma_trim_quotes_window(s, i, j);
    assert(w.subrange(i + 1, j + 1) =~= s.subrange(i, j));
}

/// Normalization is idempotent: trimming an already-trimmed stage string
/// changes nothing.
pub proof fn lemma_trim_quotes_idempotent(s: Seq<char>)
    ensures
        trim_quotes(trim_quotes(s)) == trim_quotes(s),
{
    lemma_quote_trim_exists(s);
    let ij = choose|i: int, j: int| is_quote_trim(s, i, j);
    lemma_trim_quotes_window(s, ij.0, ij.1);
    let t = s.subrange(ij.0, ij.1);
    assert(is_quote_trim(t, 0, t.len() as int));
    lemma_trim_quotes_window(t, 0, t.len() as int);
    assert(t.subrange(0, t.len() as int) =~= t);
}

/// Strips every leading and trailing quote character from a raw query
/// result, the stage oracle's answer included.
pub fn strip_quotes(s: &str) -> (r: String)
    ensures
        r@ == trim_quotes(s@),
{
    let n: usize = s.unicode_len();
    let mut i: usize = 0;
    while i < n && s.get_char(i) == '"'
        invariant
            i <= n,
            n == s@.len(),
            forall|k: int| 0 <= k < i ==> s@[k] == '"',
        decreases n - i,
    {
        i = i + 1;
    }
    let mut j: usize = n;
    while j > i && s.get_char(j - 1) == '"'
        invariant
            i <= j <= n,
            n == s@.len(),
            i == n || s@[i as int] != '"',
            forall|k: int| 0 <= k < i ==> s@[k] == '"',
            forall|k: int| j <= k < n ==> s@[k] == '"',
        decreases j,
    {
        j = j - 1;
    }
    proof {
        assert(is_quote_trim(s@, i as int, j as int));
        lemma_trim_quotes_window(s@, i as int, j as int);
    }
    let t = s.substring_char(i, j);
    t.to_owned()
}

/// The normalized stage string each stage variant is reported as.
pub open spec fn stage_name(s: Stage) -> Seq<char> {
    match s {
        Stage::NonStarted => "NonStarted"@,
        Stage::CommitMiners => "CommitMiners"@,
        Stage::RevealMiners => "RevealMiners"@,
        Stage::CommitValidators => "CommitValidators"@,
        Stage::RevealValidators => "RevealValidators"@,
        Stage::Ended => "Ended"@,
    }
}

/// Matches a normalized stage string against the closed enumeration; an
/// unrecognized string yields `None`.
pub open spec fn spec_parse_stage(s: Seq<char>) -> Option<Stage> {
    if s == "NonStarted"@ {
        Some(Stage::NonStarted)
    } else if s == "CommitMiners"@ {
        Some(Stage::CommitMiners)
    } else if s == "RevealMiners"@ {
        Some(Stage::RevealMiners)
    } else if s == "CommitValidators"@ {
        Some(Stage::CommitValidators)
    } else if s == "RevealValidators"@ {
        Some(Stage::RevealValidators)
    } else if s == "Ended"@ {
        Some(Stage::Ended)
    } else {
        None
    }
}

/// True when the string `a` holds is exactly the literal `lit`.
fn string_matches(a: &String, lit: &str) -> (r: bool)
    ensures
        r == (a@ == lit@),
{
    let cand: String = lit.to_owned();
    *a == cand
}

/// Executable form of [`spec_parse_stage`], on a normalized stage string.
pub fn parse_stage(normalized: &String) -> (r: Option<Stage>)
    ensures
        r == spec_parse_stage(normalized@),
{
    if string_matches(normalized, "NonStarted") {
        Some(Stage::NonStarted)
    } else if string_matches(normalized, "CommitMiners") {
        Some(Stage::CommitMiners)
    } else if string_matches(normalized, "RevealMiners") {
        Some(Stage::RevealMiners)
    } else if string_matches(normalized, "CommitValidators") {
        Some(Stage::CommitValidators)
    } else if string_matches(normalized, "RevealValidators") {
        Some(Stage::RevealValidators)
    } else if string_matches(normalized, "Ended") {
        Some(Stage::Ended)
    } else {
        None
    }
}

/// Interprets a raw stage query result: normalization followed by matching
/// against the closed enumeration.
pub fn interpret_stage(raw: &str) -> (r: Option<Stage>)
    ensures
        r == spec_parse_stage(trim_quotes(raw@)),
{
    let normalized = strip_quotes(raw);
    parse_stage(&normalized)
}

} // verus!
