//! Circuit inspection: turning a negotiated hop path into an ordered list of
//! geolocation lookup tasks, and folding the lookup outcomes into the final
//! enrichment records.
//!
//! A hop descriptor is an opaque line of text.  A descriptor that carries the
//! aggregate marker `>` stands for an aggregated, unresolvable hop and yields
//! exactly one sentinel record.  Any other descriptor is split into
//! whitespace-delimited tokens; each token holding a literal dot is an
//! address-shaped candidate, whose bare address (leading bracket stripped,
//! trailing `:port` cut off) is handed to the geolocation service.  A failed
//! lookup turns into the sentinel record and never stops the walk.

use vstd::prelude::*;
use crate::app::{CircuitInfo, CircuitInfoModel};

verus! {

/// Whitespace for the purpose of splitting a hop descriptor into tokens.
pub open spec fn is_space(c: char) -> bool {
    c == ' ' || c == '\t' || c == '\n' || c == '\r'
}

/// Does `s` hold the character `c` anywhere?
pub open spec fn contains_char(s: Seq<char>, c: char) -> bool {
    exists|i: int| 0 <= i < s.len() && s[i] == c
}

/// A hop descriptor with the aggregate marker stands for a multi-entry,
/// unresolvable hop.
pub open spec fn is_aggregate_hop(h: Seq<char>) -> bool {
    contains_char(h, '>')
}

/// A token holding a literal dot is an address-shaped candidate.
pub open spec fn is_candidate(t: Seq<char>) -> bool {
    contains_char(t, '.')
}

/// The tokens of `s` from position `i` on, with `cur` the partial token
/// gathered so far: maximal runs of non-whitespace characters.
pub open spec fn tokens_from(s: Seq<char>, i: int, cur: Seq<char>) -> Seq<Seq<char>>
    decreases s.len() - i,
    when 0 <= i <= s.len()
{
    if i >= s.len() {
        if cur.len() == 0 {
            Seq::empty()
        } else {
            seq![cur]
        }
    } else if is_space(s[i]) {
        if cur.len() == 0 {
            tokens_from(s, i + 1, Seq::empty())
        } else {
            seq![cur] + tokens_from(s, i + 1, Seq::empty())
        }
    } else {
        tokens_from(s, i + 1, cur.push(s[i]))
    }
}

/// The whitespace-delimited tokens of `s`, in order of discovery.
pub open spec fn tokens_of(s: Seq<char>) -> Seq<Seq<char>> {
    tokens_from(s, 0, Seq::empty())
}

/// The characters of `t` from position `i` up to (excluding) the first colon.
pub open spec fn until_colon_from(t: Seq<char>, i: int) -> Seq<char>
    decreases t.len() - i,
    when 0 <= i <= t.len()
{
    if i >= t.len() || t[i] == ':' {
        Seq::empty()
    } else {
        seq![t[i]] + until_colon_from(t, i + 1)
    }
}

/// The bare address inside an address-shaped token: a leading bracket is
/// stripped, then everything from the first colon on is cut off.
pub open spec fn bare_of(t: Seq<char>) -> Seq<char> {
    if t.len() > 0 && t[0] == '[' {
        until_colon_from(t, 1)
    } else {
        until_colon_from(t, 0)
    }
}

/// Splits a hop descriptor into its whitespace-delimited tokens.
pub fn split_tokens(s: &str) -> (r: Vec<String>)
    ensures
        r@.map_values(|t: String| t@) =~= tokens_of(s@),
{
    let n: usize = s.unicode_len();
    let mut out: Vec<String> = Vec::new();
    let mut i: usize = 0;
    // Start of the token currently being read, if one is open.
    let mut start: Option<usize> = None;
    while i < n
        invariant
            n == s@.len(),
            i <= n,
            match start {
                Some(st) => st < i && (forall|k: int| st <= k < i ==> !is_space(s@[k])),
                None => true,
            },
            (match start {
                Some(st) => out@.map_values(|t: String| t@) + tokens_from(
                    s@,
                    i as int,
                    s@.subrange(st as int, i as int),
                ),
                None => out@.map_values(|t: String| t@) + tokens_from(s@, i as int, Seq::empty()),
            }) =~= tokens_of(s@),
        decreases n - i,
    {
        let c = s.get_char(i);
        match start {
            None => {
                if !is_space_exec(c) {
                    start = Some(i);
                    proof {
                        assert(s@.subrange(i as int, i + 1) =~= Seq::empty().push(s@[i as int]));
                    }
                }
            },
            Some(st) => {
                proof {
                    assert(s@.subrange(st as int, i as int).len() > 0);
                }
                if is_space_exec(c) {
                    let tok = s.substring_char(st, i);
                    let owned = tok.to_owned();
                    let ghost cur = s@.subrange(st as int, i as int);
                    let ghost before = out@.map_values(|t: String| t@);
                    out.push(owned);
                    start = None;
                    proof {
                        assert(out@.map_values(|t: String| t@) =~= before.push(cur));
                        assert(before.push(cur) + tokens_from(s@, i + 1, Seq::empty()) =~= before
                            + (seq![cur] + tokens_from(s@, i + 1, Seq::empty())));
                    }
                } else {
                    proof {
                        assert(s@.subrange(st as int, i + 1) =~= s@.subrange(st as int, i as int)
                            .push(s@[i as int]));
                    }
                }
            },
        }
        i = i + 1;
    }
    if let Some(st) = start {
        proof {
            assert(s@.subrange(st as int, n as int).len() > 0);
        }
        let tok = s.substring_char(st, n);
        let owned = tok.to_owned();
        let ghost cur = s@.subrange(st as int, n as int);
        let ghost before = out@.map_values(|t: String| t@);
        out.push(owned);
        proof {
            assert(out@.map_values(|t: String| t@) =~= before.push(cur));
            assert(before.push(cur) =~= before + seq![cur]);
        }
    }
    out
}

/// Executable twin of [`is_space`].
pub fn is_space_exec(c: char) -> (r: bool)
    ensures
        r == is_space(c),
{
    c == ' ' || c == '\t' || c == '\n' || c == '\r'
}

/// Does the string hold the character anywhere?
pub fn str_contains_char(s: &str, c: char) -> (r: bool)
    ensures
        r == contains_char(s@, c),
{
    let n: usize = s.unicode_len();
    let mut i: usize = 0;
    while i < n
        invariant
            n == s@.len(),
            i <= n,
            forall|k: int| 0 <= k < i ==> s@[k] != c,
        decreases n - i,
    {
        if s.get_char(i) == c {
            return true;
        }
        i = i + 1;
    }
    false
}

/// The characters from `i` to the first colon at or after `i` form exactly
/// the subrange up to that colon (or up to the end when there is none).
proof fn lemma_until_colon_is_subrange(t: Seq<char>, i: int, end: int)
    requires
        0 <= i <= end <= t.len(),
        forall|k: int| i <= k < end ==> t[k] != ':',
        end == t.len() || t[end] == ':',
    ensures
        until_colon_from(t, i) =~= t.subrange(i, end),
    decreases end - i,
{
    if i == end {
        assert(t.subrange(i, end) =~= Seq::empty());
    } else {
        lemma_until_colon_is_subrange(t, i + 1, end);
        assert(t.subrange(i, end) =~= seq![t[i]] + t.subrange(i + 1, end));
    }
}

/// Cuts an address-shaped token down to its bare address: the leading
/// bracket is stripped, then everything from the first colon on is cut off.
pub fn strip_candidate(t: &str) -> (r: String)
    ensures
        r@ == bare_of(t@),
{
    let n: usize = t.unicode_len();
    let start: usize = if n > 0 && t.get_char(0) == '[' {
        1
    } else {
        0
    };
    let end = find_colon_from(t, start);
    proof {
        lemma_until_colon_is_subrange(t@, start as int, end as int);
    }
    let bare = t.substring_char(start, end);
    bare.to_owned()
}

/// One step of the enrichment walk: an aggregate hop contributes a fixed
/// sentinel record, an address-shaped token a geolocation lookup of its bare
/// address.
#[derive(Debug)]
pub enum EnrichTask {
    Sentinel,
    Lookup(String),
}

/// Mathematical model of an [`EnrichTask`].
pub enum EnrichTaskModel {
    Sentinel,
    Lookup(Seq<char>),
}

impl View for EnrichTask {
    type V = EnrichTaskModel;

    open spec fn view(&self) -> EnrichTaskModel {
        match self {
            EnrichTask::Sentinel => EnrichTaskModel::Sentinel,
            EnrichTask::Lookup(a) => EnrichTaskModel::Lookup(a@),
        }
    }
}

/// The address-shaped tokens of a hop descriptor, in discovery order.
pub open spec fn candidate_tokens(h: Seq<char>) -> Seq<Seq<char>> {
    tokens_of(h).filter(|t: Seq<char>| is_candidate(t))
}

/// The bare addresses to look up for a non-aggregate hop descriptor.
pub open spec fn hop_candidates(h: Seq<char>) -> Seq<Seq<char>> {
    candidate_tokens(h).map_values(|t: Seq<char>| bare_of(t))
}

/// The enrichment tasks one hop descriptor contributes, in order.
pub open spec fn hop_tasks(h: Seq<char>) -> Seq<EnrichTaskModel> {
    if is_aggregate_hop(h) {
        seq![EnrichTaskModel::Sentinel]
    } else {
        hop_candidates(h).map_values(|a: Seq<char>| EnrichTaskModel::Lookup(a))
    }
}

/// The enrichment tasks of the hops from position `i` on, in hop order.
pub open spec fn plan_from(hops: Seq<Seq<char>>, i: int) -> Seq<EnrichTaskModel>
    decreases hops.len() - i,
    when 0 <= i <= hops.len()
{
    if i >= hops.len() {
        Seq::empty()
    } else {
        hop_tasks(hops[i]) + plan_from(hops, i + 1)
    }
}

/// The enrichment tasks of a whole hop path: hop order first, token
/// discovery order within a hop.
pub open spec fn circuit_plan(hops: Seq<Seq<char>>) -> Seq<EnrichTaskModel> {
    plan_from(hops, 0)
}

/// The enrichment tasks of one hop descriptor.
pub fn hop_lookup_tasks(h: &str) -> (r: Vec<EnrichTask>)
    ensures
        r@.map_values(|t: EnrichTask| t@) =~= hop_tasks(h@),
{
    let mut out: Vec<EnrichTask> = Vec::new();
    if str_contains_char(h, '>') {
        out.push(EnrichTask::Sentinel);
        proof {
            assert(out@.map_values(|t: EnrichTask| t@) =~= seq![EnrichTaskModel::Sentinel]);
        }
        return out;
    }
    let toks = split_tokens(h);
    let ghost ts = toks@.map_values(|t: String| t@);
    let m = toks.len();
    let mut j: usize = 0;
    while j < m
        invariant
            m == toks@.len(),
            j <= m,
            ts == toks@.map_values(|t: String| t@),
            ts =~= tokens_of(h@),
            !is_aggregate_hop(h@),
            out@.map_values(|t: EnrichTask| t@) =~= ts.subrange(0, j as int).filter(
                |t: Seq<char>| is_candidate(t),
            ).map_values(|t: Seq<char>| EnrichTaskModel::Lookup(bare_of(t))),
        decreases m - j,
    {
        let ghost pfx0 = ts.subrange(0, j as int).filter(|t: Seq<char>| is_candidate(t));
        proof {
            reveal(Seq::filter);
            assert(ts.subrange(0, j + 1).drop_last() =~= ts.subrange(0, j as int));
            assert(ts.subrange(0, j + 1).last() == ts[j as int]);
        }
        let tok = &toks[j];
        if str_contains_char(tok.as_str(), '.') {
            let bare = strip_candidate(tok.as_str());
            let ghost before = out@.map_values(|t: EnrichTask| t@);
            out.push(EnrichTask::Lookup(bare));
            proof {
                assert(out@.map_values(|t: EnrichTask| t@) =~= before.push(
                    EnrichTaskModel::Lookup(bare_of(ts[j as int])),
                ));
                assert(ts.subrange(0, j + 1).filter(|t: Seq<char>| is_candidate(t)) =~= pfx0.push(
                    ts[j as int],
                ));
            }
        } else {
            proof {
                assert(ts.subrange(0, j + 1).filter(|t: Seq<char>| is_candidate(t)) =~= pfx0);
            }
        }
        j = j + 1;
    }
    proof {
        assert(ts.subrange(0, m as int) =~= ts);
    }
    out
}

/// The full ordered task plan of a hop path.
pub fn plan_lookups(hops: &Vec<String>) -> (r: Vec<EnrichTask>)
    ensures
        r@.map_values(|t: EnrichTask| t@) =~= circuit_plan(hops@.map_values(|h: String| h@)),
{
    let ghost hs = hops@.map_values(|h: String| h@);
    let n = hops.len();
    let mut out: Vec<EnrichTask> = Vec::new();
    let mut i: usize = 0;
    while i < n
        invariant
            n == hops@.len(),
            i <= n,
            hs == hops@.map_values(|h: String| h@),
            out@.map_values(|t: EnrichTask| t@) + plan_from(hs, i as int) =~= circuit_plan(hs),
        decreases n - i,
    {
        let ghost before = out@.map_values(|t: EnrichTask| t@);
        let mut tasks = hop_lookup_tasks(hops[i].as_str());
        let ghost added = tasks@.map_values(|t: EnrichTask| t@);
        out.append(&mut tasks);
        proof {
            assert(out@.map_values(|t: EnrichTask| t@) =~= before + added);
            assert(added =~= hop_tasks(hs[i as int]));
            assert((before + added) + plan_from(hs, i + 1) =~= before + (added + plan_from(
                hs,
                i + 1,
            )));
        }
        i = i + 1;
    }
    out
}

/// What one successful geolocation lookup reports about an address.
#[derive(Debug)]
pub struct GeoLocation {
    pub ip: String,
    pub city: String,
    pub country: String,
}

/// Mathematical model of a [`GeoLocation`] response.
pub struct GeoLocationModel {
    pub ip: Seq<char>,
    pub city: Seq<char>,
    pub country: Seq<char>,
}

impl View for GeoLocation {
    type V = GeoLocationModel;

    open spec fn view(&self) -> GeoLocationModel {
        GeoLocationModel { ip: self.ip@, city: self.city@, country: self.country@ }
    }
}

/// Model of a lookup outcome: the response, or nothing on any failure.
pub open spec fn outcome_model(o: Option<GeoLocation>) -> Option<GeoLocationModel> {
    match o {
        Some(g) => Some(g@),
        None => None,
    }
}

/// Model of a borrowed lookup outcome.
pub open spec fn outcome_ref_model(o: Option<&GeoLocation>) -> Option<GeoLocationModel> {
    match o {
        Some(g) => Some(g@),
        None => None,
    }
}

/// The fixed record standing in for every failed or impossible lookup.
pub open spec fn sentinel_model() -> CircuitInfoModel {
    CircuitInfoModel { ip_address: "x.x.x.x"@, city: "UNKNOWN"@, country: "UNKNOWN"@ }
}

/// The record one task yields under one lookup outcome: a sentinel task
/// always yields the sentinel; a lookup yields the response fields on
/// success and the sentinel on any failure.
pub open spec fn record_of(t: EnrichTaskModel, o: Option<GeoLocationModel>) -> CircuitInfoModel {
    match t {
        EnrichTaskModel::Sentinel => sentinel_model(),
        EnrichTaskModel::Lookup(_a) => match o {
            Some(g) => CircuitInfoModel { ip_address: g.ip, city: g.city, country: g.country },
            None => sentinel_model(),
        },
    }
}

/// The records of a whole task plan under pointwise lookup outcomes.
pub open spec fn records_of(
    ts: Seq<EnrichTaskModel>,
    os: Seq<Option<GeoLocationModel>>,
) -> Seq<CircuitInfoModel> {
    Seq::new(ts.len(), |i: int| record_of(ts[i], os[i]))
}

/// Builds the sentinel record.
pub fn sentinel_record() -> (r: CircuitInfo)
    ensures
        r@ == sentinel_model(),
{
    CircuitInfo {
        ip_address: String::from_str("x.x.x.x"),
        city: String::from_str("UNKNOWN"),
        country: String::from_str("UNKNOWN"),
    }
}

/// Folds one lookup outcome into the record its task yields.
pub fn record_for(task: &EnrichTask, outcome: Option<&GeoLocation>) -> (r: CircuitInfo)
    ensures
        r@ == record_of(task@, outcome_ref_model(outcome)),
{
    match task {
        EnrichTask::Sentinel => sentinel_record(),
        EnrichTask::Lookup(_a) => match outcome {
            Some(g) => CircuitInfo {
                ip_address: g.ip.clone(),
                city: g.city.clone(),
                country: g.country.clone(),
            },
            None => sentinel_record(),
        },
    }
}

/// Folds the lookup outcomes of a whole task plan into the ordered record
/// list, one record per task.
pub fn enrich_records(tasks: &Vec<EnrichTask>, outcomes: &Vec<Option<GeoLocation>>) -> (r: Vec<
    CircuitInfo,
>)
    requires
        outcomes@.len() == tasks@.len(),
    ensures
        r@.map_values(|c: CircuitInfo| c@) =~= records_of(
            tasks@.map_values(|t: EnrichTask| t@),
            outcomes@.map_values(|o: Option<GeoLocation>| outcome_model(o)),
        ),
{
    let ghost ts = tasks@.map_values(|t: EnrichTask| t@);
    let ghost os = outcomes@.map_values(|o: Option<GeoLocation>| outcome_model(o));
    let n = tasks.len();
    let mut out: Vec<CircuitInfo> = Vec::new();
    let mut i: usize = 0;
    while i < n
        invariant
            n == tasks@.len(),
            n == outcomes@.len(),
            i <= n,
            ts == tasks@.map_values(|t: EnrichTask| t@),
            os == outcomes@.map_values(|o: Option<GeoLocation>| outcome_model(o)),
            out@.map_values(|c: CircuitInfo| c@) =~= records_of(ts, os).subrange(0, i as int),
        decreases n - i,
    {
        let ghost before = out@.map_values(|c: CircuitInfo| c@);
        let outcome = match &outcomes[i] {
            Some(g) => Some(g),
            None => None,
        };
        proof {
            assert(outcome_model(outcomes@[i as int]) == os[i as int]);
            assert(outcome_ref_model(outcome) == os[i as int]);
        }
        let record = record_for(&tasks[i], outcome);
        out.push(record);
        proof {
            assert(out@.map_values(|c: CircuitInfo| c@) =~= before.push(
                record_of(ts[i as int], os[i as int]),
            ));
            assert(records_of(ts, os).subrange(0, i + 1) =~= records_of(ts, os).subrange(
                0,
                i as int,
            ).push(record_of(ts[i as int], os[i as int])));
        }
        i = i + 1;
    }
    proof {
        assert(records_of(ts, os).subrange(0, n as int) =~= records_of(ts, os));
    }
    out
}

/// An aggregate-marker hop contributes exactly one task, the sentinel task,
/// so it yields exactly one record, the sentinel record, and asks for no
/// geolocation lookup at all.
pub proof fn lemma_aggregate_hop_single_sentinel(h: Seq<char>, os: Seq<Option<GeoLocationModel>>)
    requires
        is_aggregate_hop(h),
        os.len() == 1,
    ensures
        hop_tasks(h) =~= seq![EnrichTaskModel::Sentinel],
        forall|i: int| 0 <= i < hop_tasks(h).len() ==> !(hop_tasks(h)[i] is Lookup),
        records_of(hop_tasks(h), os) =~= seq![sentinel_model()],
{
    assert(records_of(hop_tasks(h), os) =~= seq![sentinel_model()]);
}

/// A hop without the aggregate marker asks for exactly one lookup per
/// address-shaped token, in token discovery order, each with the token's
/// bare address.
pub proof fn lemma_one_lookup_per_candidate(h: Seq<char>)
    requires
        !is_aggregate_hop(h),
    ensures
        hop_tasks(h).len() == candidate_tokens(h).len(),
        forall|i: int| 0 <= i < hop_tasks(h).len() ==> hop_tasks(h)[i] == EnrichTaskModel::Lookup(
            bare_of(candidate_tokens(h)[i]),
        ),
{
}

/// The number of records a hop contributes: one for an aggregate hop, else
/// one per address-shaped token.
pub open spec fn hop_record_count(h: Seq<char>) -> nat {
    if is_aggregate_hop(h) {
        1
    } else {
        candidate_tokens(h).len()
    }
}

/// The total number of records the hops from position `i` on contribute.
pub open spec fn total_record_count_from(hops: Seq<Seq<char>>, i: int) -> nat
    decreases hops.len() - i,
    when 0 <= i <= hops.len()
{
    if i >= hops.len() {
        0
    } else {
        hop_record_count(hops[i]) + total_record_count_from(hops, i + 1)
    }
}

proof fn lemma_plan_count_from(hops: Seq<Seq<char>>, i: int)
    requires
        0 <= i <= hops.len(),
    ensures
        plan_from(hops, i).len() == total_record_count_from(hops, i),
    decreases hops.len() - i,
{
    if i < hops.len() {
        lemma_plan_count_from(hops, i + 1);
    }
}

/// The record list of a hop path is exactly as long as the number of
/// address-shaped tokens across all hops plus one per aggregate-marker hop,
/// whatever the lookup outcomes were.
pub proof fn lemma_record_count(hops: Seq<Seq<char>>, os: Seq<Option<GeoLocationModel>>)
    requires
        os.len() == circuit_plan(hops).len(),
    ensures
        records_of(circuit_plan(hops), os).len() == total_record_count_from(hops, 0),
{
    lemma_plan_count_from(hops, 0);
}

proof fn lemma_plan_from_index(hops: Seq<Seq<char>>, j: int, i: int, k: int)
    requires
        0 <= j <= i < hops.len(),
        0 <= k < hop_tasks(hops[i]).len(),
    ensures
        plan_from(hops, j).len() >= plan_from(hops, i).len(),
        plan_from(hops, j)[plan_from(hops, j).len() - plan_from(hops, i).len() + k] == hop_tasks(
            hops[i],
        )[k],
    decreases i - j,
{
    if j == i {
        assert(plan_from(hops, i)[k] == hop_tasks(hops[i])[k]);
    } else {
        lemma_plan_from_index(hops, j + 1, i, k);
        assert(plan_from(hops, j)[hop_tasks(hops[j]).len() + (plan_from(hops, j + 1).len()
            - plan_from(hops, i).len() + k)] == plan_from(hops, j + 1)[plan_from(hops, j + 1).len()
            - plan_from(hops, i).len() + k]);
    }
}

/// Order is preserved: inside the whole plan the tasks of hop `i` stand as
/// one contiguous block, after the tasks of every earlier hop and before
/// those of every later one; the block starts where the earlier hops'
/// tasks end.
pub proof fn lemma_plan_keeps_hop_order(hops: Seq<Seq<char>>, i: int, k: int)
    requires
        0 <= i < hops.len(),
        0 <= k < hop_tasks(hops[i]).len(),
    ensures
        circuit_plan(hops).len() >= plan_from(hops, i).len(),
        circuit_plan(hops)[circuit_plan(hops).len() - plan_from(hops, i).len() + k] == hop_tasks(
            hops[i],
        )[k],
{
    lemma_plan_from_index(hops, 0, i, k);
}

/// A failed lookup of one task never touches the record of any other task:
/// two outcome lists that differ only at one position yield record lists
/// that differ at most there.
pub proof fn lemma_failure_is_isolated(
    ts: Seq<EnrichTaskModel>,
    os1: Seq<Option<GeoLocationModel>>,
    os2: Seq<Option<GeoLocationModel>>,
    at: int,
)
    requires
        os1.len() == ts.len(),
        os2.len() == ts.len(),
        0 <= at < ts.len(),
        forall|j: int| 0 <= j < ts.len() && j != at ==> os1[j] == os2[j],
    ensures
        records_of(ts, os1).len() == records_of(ts, os2).len(),
        forall|j: int| 0 <= j < ts.len() && j != at ==> records_of(ts, os1)[j] == records_of(
            ts,
            os2,
        )[j],
{
}

/// Position of the first colon at or after `start`, or the length of the
/// string when there is none.
fn find_colon_from(t: &str, start: usize) -> (end: usize)
    requires
        start <= t@.len(),
    ensures
        start <= end <= t@.len(),
        forall|k: int| start <= k < end ==> t@[k] != ':',
        end == t@.len() || t@[end as int] == ':',
{
    let n: usize = t.unicode_len();
    let mut end: usize = start;
    while end < n
        invariant
            n == t@.len(),
            start <= end <= n,
            forall|k: int| start <= k < end ==> t@[k] != ':',
        decreases n - end,
    {
        if t.get_char(end) == ':' {
            return end;
        }
        end = end + 1;
    }
    end
}

} // verus!
