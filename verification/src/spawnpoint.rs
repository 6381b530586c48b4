//! Spawnpoint queries: which rows a time-till-hidden setting keeps, the
//! defaults of a bounds request, and the SQL text of the area queries.
use vstd::prelude::*;

use crate::decimal::{decimal_digits, push_decimal};

verus! {

/// Which spawnpoints to return by whether their despawn time is known.
#[derive(Clone, Copy, Debug, PartialEq, Eq, Structural)]
pub enum SpawnpointTth {
    All,
    Known,
    Unknown,
}

/// The column condition a time-till-hidden setting adds to a query.
#[derive(Clone, Copy, Debug, PartialEq, Eq, Structural)]
pub enum TthFilter {
    /// `id IS NOT NULL`: every row.
    IdNotNull,
    /// `despawn_sec IS NOT NULL`
    DespawnSecNotNull,
    /// `despawn_sec IS NULL`
    DespawnSecNull,
}

/// The most rows a spawnpoint query returns.
pub const SPAWNPOINT_LIMIT: u64 = 2000000;

/// A row count.
#[derive(Clone, Copy, Debug)]
pub struct Total {
    pub total: i64,
}

/// The condition for a time-till-hidden setting.
pub fn tth_filter(tth: SpawnpointTth) -> (r: TthFilter)
    ensures
        r == match tth {
            SpawnpointTth::All => TthFilter::IdNotNull,
            SpawnpointTth::Known => TthFilter::DespawnSecNotNull,
            SpawnpointTth::Unknown => TthFilter::DespawnSecNull,
        },
{
    match tth {
        SpawnpointTth::All => TthFilter::IdNotNull,
        SpawnpointTth::Known => TthFilter::DespawnSecNotNull,
        SpawnpointTth::Unknown => TthFilter::DespawnSecNull,
    }
}

/// The last-seen cutoff of a bounds request: none means every row.
pub fn bound_last_seen(last_seen: Option<u32>) -> (r: u32)
    ensures
        r == match last_seen {
            Some(t) => t,
            None => 0,
        },
{
    match last_seen {
        Some(t) => t,
        None => 0,
    }
}

/// The time-till-hidden setting of a bounds request: none means all.
pub fn bound_tth(tth: Option<SpawnpointTth>) -> (r: SpawnpointTth)
    ensures
        r == match tth {
            Some(t) => t,
            None => SpawnpointTth::All,
        },
{
    match tth {
        Some(t) => t,
        None => SpawnpointTth::All,
    }
}

/// The clause the area query adds for a setting (empty for all rows).
pub open spec fn area_clause(tth: SpawnpointTth) -> Seq<char> {
    match tth {
        SpawnpointTth::All => ""@,
        SpawnpointTth::Known => "AND despawn_sec IS NOT NULL"@,
        SpawnpointTth::Unknown => "AND despawn_sec IS NULL"@,
    }
}

/// The condition the count query adds for a setting (always true for all).
pub open spec fn stats_clause(tth: SpawnpointTth) -> Seq<char> {
    match tth {
        SpawnpointTth::All => "1=1"@,
        SpawnpointTth::Known => "despawn_sec IS NOT NULL"@,
        SpawnpointTth::Unknown => "despawn_sec IS NULL"@,
    }
}

/// The SQL text that selects the spawnpoints seen since `last_seen` inside an
/// area, given the area's own SQL condition.
pub open spec fn area_query_text(last_seen: u32, tth: SpawnpointTth, area: Seq<char>) -> Seq<
    char,
> {
    "SELECT lat, lon, despawn_sec FROM spawnpoint WHERE last_seen >= "@ + decimal_digits(
        last_seen as nat,
    ) + " "@ + area_clause(tth) + " AND ("@ + area + ") LIMIT 2000000"@
}

/// The SQL text that counts the spawnpoints seen since `last_seen` inside an
/// area, given the area's own SQL condition.
pub open spec fn stats_query_text(last_seen: u32, tth: SpawnpointTth, area: Seq<char>) -> Seq<
    char,
> {
    "SELECT COUNT(*) AS total FROM spawnpoint WHERE last_seen >= "@ + decimal_digits(
        last_seen as nat,
    ) + " AND "@ + stats_clause(tth) + " AND ("@ + area + ")"@
}

fn area_clause_str(tth: SpawnpointTth) -> (r: &'static str)
    ensures
        r@ == area_clause(tth),
{
    match tth {
        SpawnpointTth::All => "",
        SpawnpointTth::Known => "AND despawn_sec IS NOT NULL",
        SpawnpointTth::Unknown => "AND despawn_sec IS NULL",
    }
}

fn stats_clause_str(tth: SpawnpointTth) -> (r: &'static str)
    ensures
        r@ == stats_clause(tth),
{
    match tth {
        SpawnpointTth::All => "1=1",
        SpawnpointTth::Known => "despawn_sec IS NOT NULL",
        SpawnpointTth::Unknown => "despawn_sec IS NULL",
    }
}

/// The area query for spawnpoints.
pub fn area_query(last_seen: u32, tth: SpawnpointTth, area: &str) -> (r: String)
    ensures
        r@ == area_query_text(last_seen, tth, area@),
{
    let mut q = String::from_str("SELECT lat, lon, despawn_sec FROM spawnpoint WHERE last_seen >= ");
    push_decimal(&mut q, last_seen);
    q.append(" ");
    q.append(area_clause_str(tth));
    q.append(" AND (");
    q.append(area);
    q.append(") LIMIT 2000000");
    q
}

/// The count query for spawnpoints.
pub fn stats_query(last_seen: u32, tth: SpawnpointTth, area: &str) -> (r: String)
    ensures
        r@ == stats_query_text(last_seen, tth, area@),
{
    let mut q = String::from_str("SELECT COUNT(*) AS total FROM spawnpoint WHERE last_seen >= ");
    push_decimal(&mut q, last_seen);
    q.append(" AND ");
    q.append(stats_clause_str(tth));
    q.append(" AND (");
    q.append(area);
    q.append(")");
    q
}

/// The count found, or zero when the query gave no row.
pub fn stats_total(found: Option<Total>) -> (r: Total)
    ensures
        r == match found {
            Some(t) => t,
            None => Total { total: 0 },
        },
{
    match found {
        Some(t) => t,
        None => Total { total: 0 },
    }
}

/// The area query is the selection up to the cutoff, the cutoff's digits,
/// then a despawn condition chosen by the setting alone (none for all rows,
/// a known despawn time, an unknown one), then the area's own condition and
/// the row limit.
pub proof fn lemma_area_query_parts(last_seen: u32, tth: SpawnpointTth, area: Seq<char>)
    ensures
        area_query_text(last_seen, tth, area) == "SELECT lat, lon, despawn_sec FROM spawnpoint WHERE last_seen >= "@
            + decimal_digits(last_seen as nat) + match tth {
            SpawnpointTth::All => seq![' ', ' ', 'A', 'N', 'D', ' ', '('],
            SpawnpointTth::Known => seq![' '] + "AND despawn_sec IS NOT NULL"@ + seq![' ', 'A', 'N', 'D', ' ', '('],
            SpawnpointTth::Unknown => seq![' '] + "AND despawn_sec IS NULL"@ + seq![' ', 'A', 'N', 'D', ' ', '('],
        } + area + ") LIMIT 2000000"@,
{
    reveal_strlit("");
    reveal_strlit(" ");
    reveal_strlit(" AND (");
    let head = "SELECT lat, lon, despawn_sec FROM spawnpoint WHERE last_seen >= "@ + decimal_digits(
        last_seen as nat,
    );
    let tail = area + ") LIMIT 2000000"@;
    match tth {
        SpawnpointTth::All => {
            assert(" "@ + ""@ + " AND ("@ =~= seq![' ', ' ', 'A', 'N', 'D', ' ', '(']);
            assert(head + " "@ + ""@ + " AND ("@ + tail =~= head + (" "@ + ""@ + " AND ("@) + tail);
        },
        SpawnpointTth::Known => {
            assert(" "@ =~= seq![' ']);
            assert(" AND ("@ =~= seq![' ', 'A', 'N', 'D', ' ', '(']);
            assert(head + " "@ + "AND despawn_sec IS NOT NULL"@ + " AND ("@ + tail =~= head + (" "@
                + "AND despawn_sec IS NOT NULL"@ + " AND ("@) + tail);
        },
        SpawnpointTth::Unknown => {
            assert(" "@ =~= seq![' ']);
            assert(" AND ("@ =~= seq![' ', 'A', 'N', 'D', ' ', '(']);
            assert(head + " "@ + "AND despawn_sec IS NULL"@ + " AND ("@ + tail =~= head + (" "@
                + "AND despawn_sec IS NULL"@ + " AND ("@) + tail);
        },
    }
}

/// The count query is the count up to the cutoff, the cutoff's digits, then
/// a despawn condition chosen by the setting alone (always true for all
/// rows, a known despawn time, an unknown one), then the area's condition.
pub proof fn lemma_stats_query_parts(last_seen: u32, tth: SpawnpointTth, area: Seq<char>)
    ensures
        stats_query_text(last_seen, tth, area) == "SELECT COUNT(*) AS total FROM spawnpoint WHERE last_seen >= "@
            + decimal_digits(last_seen as nat) + seq![' ', 'A', 'N', 'D', ' '] + match tth {
            SpawnpointTth::All => seq!['1', '=', '1'],
            SpawnpointTth::Known => "despawn_sec IS NOT NULL"@,
            SpawnpointTth::Unknown => "despawn_sec IS NULL"@,
        } + seq![' ', 'A', 'N', 'D', ' ', '('] + area + seq![')'],
{
    reveal_strlit(" AND ");
    reveal_strlit("1=1");
    reveal_strlit(" AND (");
    reveal_strlit(")");
    assert(" AND "@ =~= seq![' ', 'A', 'N', 'D', ' ']);
    assert(" AND ("@ =~= seq![' ', 'A', 'N', 'D', ' ', '(']);
    assert(")"@ =~= seq![')']);
    assert("1=1"@ =~= seq!['1', '=', '1']);
}

} // verus!
