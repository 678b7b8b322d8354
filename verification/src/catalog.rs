//! The workflow catalog generator: a fixed number of filler records drawn
//! at random, and a small fixed set of special records whose identifiers
//! name the sizes of their graphs.

use crate::graph::special_size;
use crate::instant::{instant_supported, HOUR_MS};
use crate::models::DAG;
use crate::random::{chance, draw_index, shuffle, uniform_below};
use crate::text::{decimal_text, digit_char, push_decimal};
use rand::rngs::StdRng;
use vstd::prelude::*;
use vstd::string::StringExecFns;

verus! {

/// The number of filler records of a catalog.
pub const FILLER_COUNT: usize = 45;

/// The number of special records of a catalog.
pub const SPECIAL_COUNT: usize = 5;

/// The number of records of a catalog.
pub const CATALOG_SIZE: usize = 50;

/// The number of first words of filler identifiers.
pub const PREFIX_COUNT: usize = 14;

/// The number of second words of filler identifiers.
pub const SUFFIX_COUNT: usize = 20;

/// The number of owners.
pub const OWNER_COUNT: usize = 11;

/// The number of schedule expressions.
pub const SCHEDULE_COUNT: usize = 14;

/// The number of tags in the vocabulary.
pub const TAG_COUNT: usize = 20;

/// The parts in which a success rate is counted: ten-thousandths.
pub const RATE_SCALE: u64 = 10_000;

/// The first word of a filler identifier, by its place in the list.
pub open spec fn name_prefix_text(k: int) -> Seq<char> {
    if k == 0 {
        "etl_"@
    } else if k == 1 {
        "data_pipeline_"@
    } else if k == 2 {
        "process_"@
    } else if k == 3 {
        "transform_"@
    } else if k == 4 {
        "extract_"@
    } else if k == 5 {
        "load_"@
    } else if k == 6 {
        "sync_"@
    } else if k == 7 {
        "analytics_"@
    } else if k == 8 {
        "report_"@
    } else if k == 9 {
        "backup_"@
    } else if k == 10 {
        "cleanup_"@
    } else if k == 11 {
        "validate_"@
    } else if k == 12 {
        "monitor_"@
    } else {
        "alert_"@
    }
}

/// The first word of a filler identifier.
pub fn name_prefix(k: usize) -> (s: &'static str)
    ensures
        s@ == name_prefix_text(k as int),
{
    if k == 0 {
        "etl_"
    } else if k == 1 {
        "data_pipeline_"
    } else if k == 2 {
        "process_"
    } else if k == 3 {
        "transform_"
    } else if k == 4 {
        "extract_"
    } else if k == 5 {
        "load_"
    } else if k == 6 {
        "sync_"
    } else if k == 7 {
        "analytics_"
    } else if k == 8 {
        "report_"
    } else if k == 9 {
        "backup_"
    } else if k == 10 {
        "cleanup_"
    } else if k == 11 {
        "validate_"
    } else if k == 12 {
        "monitor_"
    } else {
        "alert_"
    }
}

/// The second word of a filler identifier, by its place in the list.
pub open spec fn name_suffix_text(k: int) -> Seq<char> {
    if k == 0 {
        "daily"@
    } else if k == 1 {
        "hourly"@
    } else if k == 2 {
        "weekly"@
    } else if k == 3 {
        "monthly"@
    } else if k == 4 {
        "sales"@
    } else if k == 5 {
        "inventory"@
    } else if k == 6 {
        "users"@
    } else if k == 7 {
        "events"@
    } else if k == 8 {
        "transactions"@
    } else if k == 9 {
        "logs"@
    } else if k == 10 {
        "metrics"@
    } else if k == 11 {
        "alerts"@
    } else if k == 12 {
        "notifications"@
    } else if k == 13 {
        "products"@
    } else if k == 14 {
        "orders"@
    } else if k == 15 {
        "shipments"@
    } else if k == 16 {
        "payments"@
    } else if k == 17 {
        "refunds"@
    } else if k == 18 {
        "customers"@
    } else {
        "suppliers"@
    }
}

/// The second word of a filler identifier.
pub fn name_suffix(k: usize) -> (s: &'static str)
    ensures
        s@ == name_suffix_text(k as int),
{
    if k == 0 {
        "daily"
    } else if k == 1 {
        "hourly"
    } else if k == 2 {
        "weekly"
    } else if k == 3 {
        "monthly"
    } else if k == 4 {
        "sales"
    } else if k == 5 {
        "inventory"
    } else if k == 6 {
        "users"
    } else if k == 7 {
        "events"
    } else if k == 8 {
        "transactions"
    } else if k == 9 {
        "logs"
    } else if k == 10 {
        "metrics"
    } else if k == 11 {
        "alerts"
    } else if k == 12 {
        "notifications"
    } else if k == 13 {
        "products"
    } else if k == 14 {
        "orders"
    } else if k == 15 {
        "shipments"
    } else if k == 16 {
        "payments"
    } else if k == 17 {
        "refunds"
    } else if k == 18 {
        "customers"
    } else {
        "suppliers"
    }
}

/// The owner with the given place in the list of owners.
pub open spec fn owner_text(k: int) -> Seq<char> {
    if k == 0 {
        "admin"@
    } else if k == 1 {
        "airflow"@
    } else if k == 2 {
        "john_doe"@
    } else if k == 3 {
        "jane_smith"@
    } else if k == 4 {
        "data_engineer"@
    } else if k == 5 {
        "data_scientist"@
    } else if k == 6 {
        "data_analyst"@
    } else if k == 7 {
        "system_admin"@
    } else if k == 8 {
        "devops"@
    } else if k == 9 {
        "sre"@
    } else {
        "developer"@
    }
}

/// The owner with the given place in the list of owners.
pub fn owner_name(k: usize) -> (s: &'static str)
    ensures
        s@ == owner_text(k as int),
{
    if k == 0 {
        "admin"
    } else if k == 1 {
        "airflow"
    } else if k == 2 {
        "john_doe"
    } else if k == 3 {
        "jane_smith"
    } else if k == 4 {
        "data_engineer"
    } else if k == 5 {
        "data_scientist"
    } else if k == 6 {
        "data_analyst"
    } else if k == 7 {
        "system_admin"
    } else if k == 8 {
        "devops"
    } else if k == 9 {
        "sre"
    } else {
        "developer"
    }
}

/// The schedule expression with the given place in the list.
pub open spec fn schedule_text(k: int) -> Seq<char> {
    if k == 0 {
        "* * * * *"@
    } else if k == 1 {
        "*/5 * * * *"@
    } else if k == 2 {
        "0 * * * *"@
    } else if k == 3 {
        "0 */2 * * *"@
    } else if k == 4 {
        "0 0 * * *"@
    } else if k == 5 {
        "0 8 * * *"@
    } else if k == 6 {
        "0 0 * * 0"@
    } else if k == 7 {
        "0 0 1 * *"@
    } else if k == 8 {
        "0 0 1 1 *"@
    } else if k == 9 {
        "@hourly"@
    } else if k == 10 {
        "@daily"@
    } else if k == 11 {
        "@weekly"@
    } else if k == 12 {
        "@monthly"@
    } else {
        "@yearly"@
    }
}

/// The schedule expression with the given place in the list.
pub fn schedule_expression(k: usize) -> (s: &'static str)
    ensures
        s@ == schedule_text(k as int),
{
    if k == 0 {
        "* * * * *"
    } else if k == 1 {
        "*/5 * * * *"
    } else if k == 2 {
        "0 * * * *"
    } else if k == 3 {
        "0 */2 * * *"
    } else if k == 4 {
        "0 0 * * *"
    } else if k == 5 {
        "0 8 * * *"
    } else if k == 6 {
        "0 0 * * 0"
    } else if k == 7 {
        "0 0 1 * *"
    } else if k == 8 {
        "0 0 1 1 *"
    } else if k == 9 {
        "@hourly"
    } else if k == 10 {
        "@daily"
    } else if k == 11 {
        "@weekly"
    } else if k == 12 {
        "@monthly"
    } else {
        "@yearly"
    }
}

/// The tag with the given place in the vocabulary.
pub open spec fn tag_text(k: int) -> Seq<char> {
    if k == 0 {
        "production"@
    } else if k == 1 {
        "development"@
    } else if k == 2 {
        "staging"@
    } else if k == 3 {
        "testing"@
    } else if k == 4 {
        "data_warehouse"@
    } else if k == 5 {
        "data_lake"@
    } else if k == 6 {
        "batch"@
    } else if k == 7 {
        "streaming"@
    } else if k == 8 {
        "etl"@
    } else if k == 9 {
        "ml"@
    } else if k == 10 {
        "ai"@
    } else if k == 11 {
        "reporting"@
    } else if k == 12 {
        "monitoring"@
    } else if k == 13 {
        "cleanup"@
    } else if k == 14 {
        "validation"@
    } else if k == 15 {
        "transformation"@
    } else if k == 16 {
        "extraction"@
    } else if k == 17 {
        "loading"@
    } else if k == 18 {
        "high_priority"@
    } else {
        "low_priority"@
    }
}

/// The tag with the given place in the vocabulary.
pub fn tag_name(k: usize) -> (s: &'static str)
    ensures
        s@ == tag_text(k as int),
{
    if k == 0 {
        "production"
    } else if k == 1 {
        "development"
    } else if k == 2 {
        "staging"
    } else if k == 3 {
        "testing"
    } else if k == 4 {
        "data_warehouse"
    } else if k == 5 {
        "data_lake"
    } else if k == 6 {
        "batch"
    } else if k == 7 {
        "streaming"
    } else if k == 8 {
        "etl"
    } else if k == 9 {
        "ml"
    } else if k == 10 {
        "ai"
    } else if k == 11 {
        "reporting"
    } else if k == 12 {
        "monitoring"
    } else if k == 13 {
        "cleanup"
    } else if k == 14 {
        "validation"
    } else if k == 15 {
        "transformation"
    } else if k == 16 {
        "extraction"
    } else if k == 17 {
        "loading"
    } else if k == 18 {
        "high_priority"
    } else {
        "low_priority"
    }
}

/// The identifier of the special workflow with the given place in the table.
pub open spec fn special_name_text(k: int) -> Seq<char> {
    if k == 0 {
        "large_dag_500"@
    } else if k == 1 {
        "huge_dag_1000"@
    } else if k == 2 {
        "medium_dag_100"@
    } else if k == 3 {
        "small_dag_20"@
    } else {
        "tiny_dag_5"@
    }
}

/// The identifier of the special workflow with the given place in the table.
pub fn special_name(k: usize) -> (s: &'static str)
    ensures
        s@ == special_name_text(k as int),
{
    if k == 0 {
        "large_dag_500"
    } else if k == 1 {
        "huge_dag_1000"
    } else if k == 2 {
        "medium_dag_100"
    } else if k == 3 {
        "small_dag_20"
    } else {
        "tiny_dag_5"
    }
}
/// The number of tasks of the special workflow with the given place in the
/// table.
pub open spec fn special_node_count_of(j: int) -> nat {
    if j == 0 {
        500
    } else if j == 1 {
        1000
    } else if j == 2 {
        100
    } else if j == 3 {
        20
    } else {
        5
    }
}

/// The number of tasks of the special workflow with the given place in the
/// table.
pub fn special_node_count(j: usize) -> (n: usize)
    ensures
        n == special_node_count_of(j as int),
{
    if j == 0 {
        500
    } else if j == 1 {
        1000
    } else if j == 2 {
        100
    } else if j == 3 {
        20
    } else {
        5
    }
}

/// The special workflows of the catalog are the named test workflows of the
/// graph synthesizer, with the same sizes.
pub proof fn special_records_mirror_graph_sizes(j: int)
    requires
        0 <= j < SPECIAL_COUNT,
    ensures
        special_size(special_name_text(j)) == Some(special_node_count_of(j)),
{
    reveal_strlit("tiny_dag_5");
    reveal_strlit("small_dag_20");
    reveal_strlit("medium_dag_100");
    reveal_strlit("large_dag_500");
    reveal_strlit("huge_dag_1000");
    assert("large_dag_500"@[0] != "huge_dag_1000"@[0]);
    assert("tiny_dag_5"@.len() == 10 && "small_dag_20"@.len() == 12);
    assert("medium_dag_100"@.len() == 14 && "large_dag_500"@.len() == 13);
}

/// The decimal numeral of a number, padded with zeros in front to three
/// digits.
pub open spec fn padded_index_text(i: nat) -> Seq<char> {
    if i < 10 {
        "00"@ + decimal_text(i)
    } else if i < 100 {
        "0"@ + decimal_text(i)
    } else {
        decimal_text(i)
    }
}

/// The identifier of the filler record `i`: a first and a second word,
/// each taken in turn from its list, and the padded index after a `_`.
pub open spec fn filler_id_text(i: nat) -> Seq<char> {
    name_prefix_text(i as int % PREFIX_COUNT as int) + name_suffix_text(
        i as int % SUFFIX_COUNT as int,
    ) + "_"@ + padded_index_text(i)
}

/// The path of the file that defines the workflow with the identifier.
pub open spec fn file_path_text(dag_id: Seq<char>) -> Seq<char> {
    "/home/airflow/dags/"@ + dag_id + ".py"@
}

/// The description of the filler record `i`, which names its second word.
pub open spec fn filler_description_text(i: nat) -> Seq<char> {
    "DAG for processing "@ + name_suffix_text(i as int % SUFFIX_COUNT as int) + " data"@
}

/// The tag of a special record that tells the size of its graph.
pub open spec fn size_tag_text(node_count: nat) -> Seq<char> {
    "nodes_"@ + decimal_text(node_count)
}

/// The description of a special record, which tells the size of its graph.
pub open spec fn special_description_text(node_count: nat) -> Seq<char> {
    "Test DAG with "@ + decimal_text(node_count) + " nodes"@
}

/// A share of `count`, rounded to the nearest whole number: `count` times
/// `rate` ten-thousandths.
pub open spec fn rounded_share(count: nat, rate: nat) -> nat {
    ((count * rate + 5000) / 10_000) as nat
}

/// The identifier of the filler record `i`.
pub fn filler_id(i: usize) -> (s: String)
    ensures
        s@ == filler_id_text(i as nat),
{
    let mut s = name_prefix(i % PREFIX_COUNT).to_owned();
    s.append(name_suffix(i % SUFFIX_COUNT));
    s.append("_");
    if i < 10 {
        s.append("00");
    } else if i < 100 {
        s.append("0");
    }
    push_decimal(&mut s, i);
    assert(s@ =~= filler_id_text(i as nat));
    s
}

/// The path of the file that defines the workflow with the identifier.
pub fn file_path_of(dag_id: &str) -> (s: String)
    ensures
        s@ == file_path_text(dag_id@),
{
    let mut s = "/home/airflow/dags/".to_owned();
    s.append(dag_id);
    s.append(".py");
    s
}

/// A share of `count`, rounded to the nearest whole number.
pub fn share_of(count: usize, rate: u64) -> (r: usize)
    requires
        rate <= RATE_SCALE,
    ensures
        r == rounded_share(count as nat, rate as nat),
        r <= count,
{
    assert(count * rate <= count * 10_000) by (nonlinear_arith)
        requires
            rate <= 10_000,
            count >= 0,
    ;
    let scaled = (count as u128) * (rate as u128) + 5000;
    (scaled / 10_000) as usize
}

/// Whether the value is that of a random UUID: its version is 4 and its
/// variant the standard one.
pub open spec fn is_random_uuid(id: u128) -> bool {
    (id >> 76) & 0xf == 4 && (id >> 62) & 0x3 == 2
}

/// `uuid::Uuid::new_v4`, read through `Uuid::as_u128`: a fresh random
/// identifier. Of the value only the version and the variant are known,
/// which `new_v4` sets in every identifier.
#[verifier::external_body]
pub(crate) fn fresh_record_id() -> (id: u128)
    ensures
        is_random_uuid(id),
{
    uuid::Uuid::new_v4().as_u128()
}

/// What is drawn for one filler record.
#[derive(Debug, Clone, PartialEq)]
pub struct FillerDraws {
    /// Whether the workflow is paused.
    pub paused: bool,
    /// The hours between the creation and now.
    pub created_hours_ago: u64,
    /// The hours between the creation and the last update.
    pub updated_after_hours: u64,
    /// The hours between the last run and now, if there was a run.
    pub last_run_hours_ago: Option<u64>,
    /// The hours between now and the next run, if one is due.
    pub next_run_in_hours: Option<u64>,
    /// The number of runs.
    pub runs_count: usize,
    /// The share of successful runs, in ten-thousandths.
    pub success_rate: u64,
    /// The number of runs under way.
    pub running_count: usize,
    /// The places of the record's tags in the vocabulary.
    pub tag_indexes: Vec<usize>,
    /// Whether the record has a description.
    pub described: bool,
}

impl FillerDraws {
    /// Whether the draws are ones that the generator can make: created 24
    /// to 719 hours ago, updated 1 to 23 hours later, a last run 1 to 47
    /// hours ago, a next run in 1 to 47 hours exactly where the workflow is
    /// not paused, under 100 runs, a success rate from 0.5 to under 0.99,
    /// under 5 runs under way, and one to three different tags.
    pub open spec fn in_range(self) -> bool {
        &&& 24 <= self.created_hours_ago < 720
        &&& 1 <= self.updated_after_hours < 24
        &&& self.last_run_hours_ago matches Some(h) ==> 1 <= h < 48
        &&& self.next_run_in_hours matches Some(h) ==> 1 <= h < 48
        &&& self.paused <==> self.next_run_in_hours is None
        &&& self.runs_count < 100
        &&& 5000 <= self.success_rate < 9900
        &&& self.running_count < 5
        &&& 1 <= self.tag_indexes@.len() <= 3
        &&& self.tag_indexes@.no_duplicates()
        &&& forall|k: int|
            0 <= k < self.tag_indexes@.len() ==> (#[trigger] self.tag_indexes@[k]) < TAG_COUNT
    }
}

/// The instant `hours` hours before `now`.
pub open spec fn hours_before(now: i64, hours: u64) -> i64 {
    (now - hours * HOUR_MS) as i64
}

/// The instant `hours` hours after `now`.
pub open spec fn hours_after(now: i64, hours: u64) -> i64 {
    (now + hours * HOUR_MS) as i64
}

/// The instant the given number of hours before `now`, if a number is given.
pub open spec fn optional_hours_before(now: i64, hours: Option<u64>) -> Option<i64> {
    match hours {
        Some(h) => Some(hours_before(now, h)),
        None => None,
    }
}

/// The instant the given number of hours after `now`, if a number is given.
pub open spec fn optional_hours_after(now: i64, hours: Option<u64>) -> Option<i64> {
    match hours {
        Some(h) => Some(hours_after(now, h)),
        None => None,
    }
}

/// Whether the tags are those with the given places in the vocabulary.
pub open spec fn tags_follow(tags: Seq<String>, indexes: Seq<usize>) -> bool {
    &&& tags.len() == indexes.len()
    &&& forall|k: int| 0 <= k < tags.len() ==> (#[trigger] tags[k])@ == tag_text(indexes[k] as int)
}

/// Whether a record is the filler record `i` for the given draws at `now`.
pub open spec fn filler_matches(d: DAG, i: nat, draws: FillerDraws, now: i64) -> bool {
    &&& d.dag_id@ == filler_id_text(i)
    &&& d.file_path@ == file_path_text(d.dag_id@)
    &&& d.owner@ == owner_text(i as int % OWNER_COUNT as int)
    &&& d.paused == draws.paused
    &&& d.created_at == hours_before(now, draws.created_hours_ago)
    &&& d.updated_at == d.created_at + draws.updated_after_hours * HOUR_MS
    &&& d.last_run == optional_hours_before(now, draws.last_run_hours_ago)
    &&& d.next_run == optional_hours_after(now, draws.next_run_in_hours)
    &&& d.runs_count == draws.runs_count
    &&& d.success_count == rounded_share(draws.runs_count as nat, draws.success_rate as nat)
    &&& d.failed_count == d.runs_count - d.success_count
    &&& d.running_count == draws.running_count
    &&& d.schedule_interval@ == schedule_text(i as int % SCHEDULE_COUNT as int)
    &&& tags_follow(d.tags@, draws.tag_indexes@)
    &&& match d.description {
        Some(text) => draws.described && text@ == filler_description_text(i),
        None => !draws.described,
    }
}

/// Whether a record is one that the generator can draw as the filler
/// record `i` at `now`.
pub open spec fn filler_valid(d: DAG, i: nat, now: i64) -> bool {
    exists|draws: FillerDraws| draws.in_range() && #[trigger] filler_matches(d, i, draws, now)
}

fn instant_before(now: i64, hours: u64) -> (t: i64)
    requires
        instant_supported(now),
        hours <= 720,
    ensures
        t == hours_before(now, hours),
        t == now - hours * HOUR_MS,
{
    now - (hours as i64) * HOUR_MS
}

fn instant_after(now: i64, hours: u64) -> (t: i64)
    requires
        instant_supported(now),
        hours <= 720,
    ensures
        t == hours_after(now, hours),
        t == now + hours * HOUR_MS,
{
    now + (hours as i64) * HOUR_MS
}

/// The tags with the given places in the vocabulary.
pub fn tags_of(indexes: &Vec<usize>) -> (tags: Vec<String>)
    ensures
        tags_follow(tags@, indexes@),
{
    let mut tags: Vec<String> = Vec::new();
    let mut k: usize = 0;
    while k < indexes.len()
        invariant
            k <= indexes.len(),
            tags@.len() == k,
            forall|j: int| 0 <= j < k ==> (#[trigger] tags@[j])@ == tag_text(indexes@[j] as int),
        decreases indexes.len() - k,
    {
        tags.push(tag_name(indexes[k]).to_owned());
        k = k + 1;
    }
    tags
}

/// The filler record `i` for the given draws, at `now`, with the given
/// record identifier.
pub fn filler_record(i: usize, draws: &FillerDraws, now: i64, id: u128) -> (d: DAG)
    requires
        instant_supported(now),
        draws.in_range(),
    ensures
        filler_matches(d, i as nat, *draws, now),
        d.id == id,
        d.well_formed(),
{
    let dag_id = filler_id(i);
    let file_path = file_path_of(dag_id.as_str());
    let created_at = instant_before(now, draws.created_hours_ago);
    let updated_at = created_at + (draws.updated_after_hours as i64) * HOUR_MS;
    let last_run = match draws.last_run_hours_ago {
        Some(h) => Some(instant_before(now, h)),
        None => None,
    };
    let next_run = match draws.next_run_in_hours {
        Some(h) => Some(instant_after(now, h)),
        None => None,
    };
    let success_count = share_of(draws.runs_count, draws.success_rate);
    let description = if draws.described {
        let mut text = "DAG for processing ".to_owned();
        text.append(name_suffix(i % SUFFIX_COUNT));
        text.append(" data");
        Some(text)
    } else {
        None
    };
    DAG {
        id,
        dag_id,
        description,
        file_path,
        owner: owner_name(i % OWNER_COUNT).to_owned(),
        paused: draws.paused,
        last_run,
        next_run,
        runs_count: draws.runs_count,
        success_count,
        failed_count: draws.runs_count - success_count,
        running_count: draws.running_count,
        schedule_interval: schedule_expression(i % SCHEDULE_COUNT).to_owned(),
        tags: tags_of(&draws.tag_indexes),
        created_at,
        updated_at,
    }
}

/// The places `0..TAG_COUNT` of the vocabulary, in order.
fn tag_pool() -> (pool: Vec<usize>)
    ensures
        pool@.len() == TAG_COUNT,
        forall|k: int| 0 <= k < TAG_COUNT ==> pool@[k] == k,
{
    let mut pool: Vec<usize> = Vec::new();
    let mut k: usize = 0;
    while k < TAG_COUNT
        invariant
            k <= TAG_COUNT,
            pool@.len() == k,
            forall|j: int| 0 <= j < k ==> pool@[j] == j,
        decreases TAG_COUNT - k,
    {
        pool.push(k);
        k = k + 1;
    }
    pool
}

/// Draws `count` different places of the vocabulary: the vocabulary is
/// shuffled and its first `count` places are taken.
pub fn sample_tag_indexes(rng: &mut StdRng, count: usize) -> (picked: Vec<usize>)
    requires
        count <= TAG_COUNT,
    ensures
        picked@.len() == count,
        picked@.no_duplicates(),
        forall|k: int| 0 <= k < picked@.len() ==> (#[trigger] picked@[k]) < TAG_COUNT,
{
    let mut pool = tag_pool();
    let ghost ordered = pool@;
    shuffle(rng, &mut pool);
    proof {
        broadcast use vstd::seq_lib::group_to_multiset_ensures;

        assert(ordered.no_duplicates());
        ordered.lemma_multiset_has_no_duplicates();
        pool@.lemma_multiset_has_no_duplicates_conv();
        assert forall|k: int| 0 <= k < pool@.len() implies (#[trigger] pool@[k]) < TAG_COUNT by {
            assert(pool@.contains(pool@[k]));
            assert(pool@.to_multiset().count(pool@[k]) > 0);
            assert(ordered.contains(pool@[k]));
        }
        ordered.to_multiset_ensures();
        pool@.to_multiset_ensures();
        assert(pool@.len() == ordered.len());
    }
    let mut picked: Vec<usize> = Vec::new();
    let mut k: usize = 0;
    while k < count
        invariant
            k <= count <= pool@.len(),
            picked@ == pool@.subrange(0, k as int),
        decreases count - k,
    {
        picked.push(pool[k]);
        assert(picked@ =~= pool@.subrange(0, k + 1));
        k = k + 1;
    }
    picked
}

/// Draws the filler record `i` at `now`: whether it is paused with
/// probability 2 in 10, a last run with probability 9 in 10, runs under
/// way with probability 1 in 10, a description with probability 8 in 10,
/// and the rest uniformly from their ranges.
pub fn draw_filler_record(i: usize, rng: &mut StdRng, now: i64) -> (d: DAG)
    requires
        instant_supported(now),
    ensures
        filler_valid(d, i as nat, now),
        d.well_formed(),
        is_random_uuid(d.id),
{
    let paused = chance(rng, 2, 10);
    let created_hours_ago = uniform_below(rng, 24, 720);
    let updated_after_hours = uniform_below(rng, 1, 24);
    let last_run_hours_ago = if chance(rng, 9, 10) {
        Some(uniform_below(rng, 1, 48))
    } else {
        None
    };
    let next_run_in_hours = if !paused {
        Some(uniform_below(rng, 1, 48))
    } else {
        None
    };
    let runs_count = draw_index(rng, 0, 100);
    let success_rate = uniform_below(rng, 5000, 9900);
    let running_count = if chance(rng, 1, 10) {
        draw_index(rng, 1, 5)
    } else {
        0
    };
    let tag_count = draw_index(rng, 1, 4);
    let tag_indexes = sample_tag_indexes(rng, tag_count);
    let described = chance(rng, 8, 10);
    let draws = FillerDraws {
        paused,
        created_hours_ago,
        updated_after_hours,
        last_run_hours_ago,
        next_run_in_hours,
        runs_count,
        success_rate,
        running_count,
        tag_indexes,
        described,
    };
    let id = fresh_record_id();
    let d = filler_record(i, &draws, now, id);
    assert(draws.in_range() && filler_matches(d, i as nat, draws, now));
    d
}

/// What is drawn for one special record.
#[derive(Debug, Clone, Copy, PartialEq, Eq, Structural)]
pub struct SpecialDraws {
    /// The hours between the creation and now.
    pub created_hours_ago: u64,
    /// The hours between the creation and the last update.
    pub updated_after_hours: u64,
    /// The hours between the last run and now.
    pub last_run_hours_ago: u64,
    /// The hours between now and the next run.
    pub next_run_in_hours: u64,
    /// The number of runs.
    pub runs_count: usize,
}

impl SpecialDraws {
    /// Whether the draws are ones that the generator can make: created 24
    /// to 719 hours ago, updated 1 to 23 hours later, run 1 to 23 hours ago,
    /// due in 1 to 23 hours, and 5 to 19 runs.
    pub open spec fn in_range(self) -> bool {
        &&& 24 <= self.created_hours_ago < 720
        &&& 1 <= self.updated_after_hours < 24
        &&& 1 <= self.last_run_hours_ago < 24
        &&& 1 <= self.next_run_in_hours < 24
        &&& 5 <= self.runs_count < 20
    }
}

/// Whether a record is the special record `j` for the given draws at
/// `now`: never paused, with one failed run and all others successful, none
/// under way, a daily schedule, and the tags `test`, `performance` and the
/// size tag.
pub open spec fn special_matches(d: DAG, j: int, draws: SpecialDraws, now: i64) -> bool {
    &&& d.dag_id@ == special_name_text(j)
    &&& d.file_path@ == file_path_text(d.dag_id@)
    &&& d.owner@ == owner_text(j % OWNER_COUNT as int)
    &&& !d.paused
    &&& d.created_at == hours_before(now, draws.created_hours_ago)
    &&& d.updated_at == d.created_at + draws.updated_after_hours * HOUR_MS
    &&& d.last_run == Some(hours_before(now, draws.last_run_hours_ago))
    &&& d.next_run == Some(hours_after(now, draws.next_run_in_hours))
    &&& d.runs_count == draws.runs_count
    &&& d.success_count == d.runs_count - 1
    &&& d.failed_count == 1
    &&& d.running_count == 0
    &&& d.schedule_interval@ == "@daily"@
    &&& d.tags@.len() == 3
    &&& d.tags@[0]@ == "test"@
    &&& d.tags@[1]@ == "performance"@
    &&& d.tags@[2]@ == size_tag_text(special_node_count_of(j))
    &&& d.description matches Some(text) && text@ == special_description_text(
        special_node_count_of(j),
    )
}

/// Whether a record is one that the generator can draw as the special
/// record `j` at `now`.
pub open spec fn special_valid(d: DAG, j: int, now: i64) -> bool {
    exists|draws: SpecialDraws| draws.in_range() && #[trigger] special_matches(d, j, draws, now)
}

/// The special record `j` for the given draws, at `now`, with the given
/// record identifier.
pub fn special_record(j: usize, draws: SpecialDraws, now: i64, id: u128) -> (d: DAG)
    requires
        instant_supported(now),
        draws.in_range(),
    ensures
        special_matches(d, j as int, draws, now),
        d.id == id,
        d.well_formed(),
{
    let dag_id = special_name(j).to_owned();
    let file_path = file_path_of(dag_id.as_str());
    let node_count = special_node_count(j);
    let created_at = instant_before(now, draws.created_hours_ago);
    let updated_at = created_at + (draws.updated_after_hours as i64) * HOUR_MS;
    let mut size_tag = "nodes_".to_owned();
    push_decimal(&mut size_tag, node_count);
    let mut tags: Vec<String> = Vec::new();
    tags.push("test".to_owned());
    tags.push("performance".to_owned());
    tags.push(size_tag);
    let mut description = "Test DAG with ".to_owned();
    push_decimal(&mut description, node_count);
    description.append(" nodes");
    DAG {
        id,
        dag_id,
        description: Some(description),
        file_path,
        owner: owner_name(j % OWNER_COUNT).to_owned(),
        paused: false,
        last_run: Some(instant_before(now, draws.last_run_hours_ago)),
        next_run: Some(instant_after(now, draws.next_run_in_hours)),
        runs_count: draws.runs_count,
        success_count: draws.runs_count - 1,
        failed_count: 1,
        running_count: 0,
        schedule_interval: "@daily".to_owned(),
        tags,
        created_at,
        updated_at,
    }
}

/// Draws the special record `j` at `now`.
pub fn draw_special_record(j: usize, rng: &mut StdRng, now: i64) -> (d: DAG)
    requires
        instant_supported(now),
    ensures
        special_valid(d, j as int, now),
        d.well_formed(),
        is_random_uuid(d.id),
{
    let created_hours_ago = uniform_below(rng, 24, 720);
    let updated_after_hours = uniform_below(rng, 1, 24);
    let last_run_hours_ago = uniform_below(rng, 1, 24);
    let next_run_in_hours = uniform_below(rng, 1, 24);
    let runs_count = draw_index(rng, 5, 20);
    let draws = SpecialDraws {
        created_hours_ago,
        updated_after_hours,
        last_run_hours_ago,
        next_run_in_hours,
        runs_count,
    };
    let id = fresh_record_id();
    let d = special_record(j, draws, now, id);
    assert(draws.in_range() && special_matches(d, j as int, draws, now));
    d
}

/// Whether the records are a catalog that the generator can draw at `now`:
/// the filler records `0..FILLER_COUNT` in order, then the special records
/// in the order of their table, each with a random UUID.
pub open spec fn catalog_valid(dags: Seq<DAG>, now: i64) -> bool {
    &&& dags.len() == CATALOG_SIZE
    &&& forall|i: int| 0 <= i < FILLER_COUNT ==> filler_valid(#[trigger] dags[i], i as nat, now)
    &&& forall|i: int|
        FILLER_COUNT <= i < CATALOG_SIZE ==> special_valid(
            #[trigger] dags[i],
            i - FILLER_COUNT,
            now,
        )
    &&& forall|i: int| 0 <= i < CATALOG_SIZE ==> (#[trigger] dags[i]).well_formed()
    &&& forall|i: int| 0 <= i < CATALOG_SIZE ==> is_random_uuid((#[trigger] dags[i]).id)
}

/// Generates a catalog at `now`: the filler records, then the special
/// records.
pub fn generate_sample_dags(rng: &mut StdRng, now: i64) -> (dags: Vec<DAG>)
    requires
        instant_supported(now),
    ensures
        catalog_valid(dags@, now),
{
    let mut dags: Vec<DAG> = Vec::new();
    let mut i: usize = 0;
    while i < FILLER_COUNT
        invariant
            i <= FILLER_COUNT,
            instant_supported(now),
            dags@.len() == i,
            forall|k: int| 0 <= k < i ==> filler_valid(#[trigger] dags@[k], k as nat, now),
            forall|k: int| 0 <= k < i ==> (#[trigger] dags@[k]).well_formed(),
            forall|k: int| 0 <= k < i ==> is_random_uuid((#[trigger] dags@[k]).id),
        decreases FILLER_COUNT - i,
    {
        let d = draw_filler_record(i, rng, now);
        dags.push(d);
        i = i + 1;
    }
    let mut j: usize = 0;
    while j < SPECIAL_COUNT
        invariant
            j <= SPECIAL_COUNT,
            instant_supported(now),
            dags@.len() == FILLER_COUNT + j,
            forall|k: int|
                0 <= k < FILLER_COUNT ==> filler_valid(#[trigger] dags@[k], k as nat, now),
            forall|k: int|
                FILLER_COUNT <= k < FILLER_COUNT + j ==> special_valid(
                    #[trigger] dags@[k],
                    k - FILLER_COUNT,
                    now,
                ),
            forall|k: int| 0 <= k < FILLER_COUNT + j ==> (#[trigger] dags@[k]).well_formed(),
            forall|k: int| 0 <= k < FILLER_COUNT + j ==> is_random_uuid((#[trigger] dags@[k]).id),
        decreases SPECIAL_COUNT - j,
    {
        let d = draw_special_record(j, rng, now);
        dags.push(d);
        j = j + 1;
    }
    dags
}

/// The three characters of a padded index below a thousand are the digits
/// of its hundreds, tens and units.
pub proof fn padded_index_digits(i: nat)
    requires
        i < 1000,
    ensures
        padded_index_text(i).len() == 3,
        padded_index_text(i)[0] == digit_char(i / 100),
        padded_index_text(i)[1] == digit_char((i / 10) % 10),
        padded_index_text(i)[2] == digit_char(i % 10),
{
    reveal_with_fuel(decimal_text, 3);
    reveal_strlit("00");
    reveal_strlit("0");
    let padded = padded_index_text(i);
    if i < 10 {
        assert(padded =~= seq!['0', '0', digit_char(i)]);
    } else if i < 100 {
        assert(padded =~= seq!['0', digit_char(i / 10), digit_char(i % 10)]);
    } else {
        assert(padded =~= seq![digit_char(i / 100), digit_char((i / 10) % 10), digit_char(i % 10)]);
    }
}

/// A filler identifier with an index below a thousand ends in a `_` and the
/// three characters of the padded index.
pub proof fn filler_id_ending(i: nat)
    requires
        i < 1000,
    ensures
        filler_id_text(i).len() >= 4,
        filler_id_text(i)[filler_id_text(i).len() - 4] == '_',
        filler_id_text(i).subrange(filler_id_text(i).len() - 3, filler_id_text(i).len() as int)
            == padded_index_text(i),
{
    reveal_strlit("_");
    padded_index_digits(i);
    let front = name_prefix_text(i as int % PREFIX_COUNT as int) + name_suffix_text(
        i as int % SUFFIX_COUNT as int,
    );
    let id = filler_id_text(i);
    assert(id =~= front + seq!['_'] + padded_index_text(i));
    assert(id[front.len() as int] == '_');
    assert(id.subrange(id.len() - 3, id.len() as int) =~= padded_index_text(i));
}

/// Filler records with different indexes below a thousand have different
/// identifiers.
pub proof fn filler_ids_differ(i: nat, j: nat)
    requires
        i < 1000,
        j < 1000,
        filler_id_text(i) == filler_id_text(j),
    ensures
        i == j,
{
    filler_id_ending(i);
    filler_id_ending(j);
    padded_index_digits(i);
    padded_index_digits(j);
    assert(digit_char(i / 100) == digit_char(j / 100));
    assert(digit_char((i / 10) % 10) == digit_char((j / 10) % 10));
    assert(digit_char(i % 10) == digit_char(j % 10));
}

/// No special workflow has the identifier of a filler record of a catalog.
pub proof fn special_names_are_no_filler_ids(i: nat, j: int)
    requires
        i < FILLER_COUNT,
        0 <= j < SPECIAL_COUNT,
    ensures
        filler_id_text(i) != special_name_text(j),
{
    reveal_strlit("tiny_dag_5");
    reveal_strlit("small_dag_20");
    reveal_strlit("medium_dag_100");
    reveal_strlit("large_dag_500");
    reveal_strlit("huge_dag_1000");
    filler_id_ending(i);
    padded_index_digits(i);
    let id = filler_id_text(i);
    let name = special_name_text(j);
    if id == name {
        let tail = id.subrange(id.len() - 3, id.len() as int);
        assert(tail[0] == id[id.len() - 3]);
        assert(tail[1] == id[id.len() - 2]);
        if j == 0 {
            assert(name[10] == '5');
            assert(digit_char(i / 100) == digit_char(5));
        } else if j == 1 {
            assert(name[9] == '1');
        } else if j == 2 {
            assert(name[11] == '1');
            assert(digit_char(i / 100) == digit_char(1));
        } else if j == 3 {
            assert(name[9] == '_');
        } else {
            assert(name[8] == '_');
        }
    }
}

/// The special workflows have different identifiers.
pub proof fn special_names_differ(j: int, k: int)
    requires
        0 <= j < k < SPECIAL_COUNT,
    ensures
        special_name_text(j) != special_name_text(k),
{
    reveal_strlit("tiny_dag_5");
    reveal_strlit("small_dag_20");
    reveal_strlit("medium_dag_100");
    reveal_strlit("large_dag_500");
    reveal_strlit("huge_dag_1000");
    assert("large_dag_500"@[0] != "huge_dag_1000"@[0]);
    assert("tiny_dag_5"@.len() == 10 && "small_dag_20"@.len() == 12);
    assert("medium_dag_100"@.len() == 14 && "large_dag_500"@.len() == 13);
}

/// No two records of a catalog have the same identifier.
pub proof fn catalog_identifiers_are_unique(dags: Seq<DAG>, now: i64, a: int, b: int)
    requires
        catalog_valid(dags, now),
        0 <= a < b < CATALOG_SIZE,
    ensures
        dags[a].dag_id@ != dags[b].dag_id@,
{
    if a < FILLER_COUNT {
        assert(filler_valid(dags[a], a as nat, now));
        assert(dags[a].dag_id@ == filler_id_text(a as nat));
        if b < FILLER_COUNT {
            assert(filler_valid(dags[b], b as nat, now));
            if dags[a].dag_id@ == dags[b].dag_id@ {
                filler_ids_differ(a as nat, b as nat);
            }
        } else {
            assert(special_valid(dags[b], b - FILLER_COUNT, now));
            special_names_are_no_filler_ids(a as nat, b - FILLER_COUNT);
        }
    } else {
        assert(special_valid(dags[a], a - FILLER_COUNT, now));
        assert(special_valid(dags[b], b - FILLER_COUNT, now));
        special_names_differ(a - FILLER_COUNT, b - FILLER_COUNT);
    }
}

} // verus!
