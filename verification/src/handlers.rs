//! The two entry points of the dashboard's service: a page of a freshly
//! generated catalog, and the freshly synthesized graph of one workflow.

use crate::catalog::{catalog_valid, generate_sample_dags, CATALOG_SIZE};
use crate::graph::{generate_sample_dag_graph, graph_valid};
use crate::instant::{accepted_instant, instant_supported, utc_now_millis};
use crate::models::{DAGGraph, DAGsQuery, DAGsResponse, DAG};
use crate::query::query_dags;
use rand::rngs::StdRng;
use vstd::prelude::*;

verus! {

/// Whether the response answers the query on some catalog that the
/// generator can draw at `now`.
pub open spec fn answers_query_at(r: DAGsResponse, params: DAGsQuery, now: i64) -> bool {
    &&& r.total_count == CATALOG_SIZE
    &&& exists|catalog: Seq<DAG>|
        #[trigger] catalog_valid(catalog, now) && r.dags@ == params.result(catalog)
}

/// Whether the response answers the query on some catalog that the
/// generator can draw at some instant that it accepts.
pub open spec fn answers_query(r: DAGsResponse, params: DAGsQuery) -> bool {
    exists|now: i64| instant_supported(now) && #[trigger] answers_query_at(r, params, now)
}

/// Whether the graph is one that the synthesizer can produce for the
/// workflow at some instant that it accepts.
pub open spec fn graph_valid_at_some_instant(g: DAGGraph, dag_id: Seq<char>) -> bool {
    exists|now: i64| instant_supported(now) && #[trigger] graph_valid(g, dag_id, now)
}

/// Generates a catalog at `now` and answers the query on it.
pub fn get_dags_at(params: &DAGsQuery, rng: &mut StdRng, now: i64) -> (r: DAGsResponse)
    requires
        params.well_formed(),
        instant_supported(now),
    ensures
        answers_query_at(r, *params, now),
{
    let dags = generate_sample_dags(rng, now);
    let ghost catalog = dags@;
    let r = query_dags(dags, params);
    assert(catalog_valid(catalog, now) && r.dags@ == params.result(catalog));
    r
}

/// Generates a catalog at the current instant and answers the query on
/// it. There is no answer where the system clock shows an instant that the
/// generator does not accept: the clock alone decides, and
/// `get_dags_for_reading` says what each reading gives.
pub fn get_dags(params: &DAGsQuery, rng: &mut StdRng) -> (r: Option<DAGsResponse>)
    requires
        params.well_formed(),
    ensures
        r matches Some(response) ==> answers_query(response, *params),
{
    let reading = utc_now_millis();
    let r = get_dags_for_reading(params, rng, reading);
    assert(r matches Some(response) ==> instant_supported(reading) && answers_query_at(
        response,
        *params,
        reading,
    ));
    r
}

/// Synthesizes the graph of a workflow at the current instant. There is no
/// graph where the system clock shows an instant that the synthesizer does
/// not accept: the clock alone decides, and `get_dag_graph_for_reading`
/// says what each reading gives.
pub fn get_dag_graph(dag_id: String, rng: &mut StdRng) -> (r: Option<DAGGraph>)
    ensures
        r matches Some(g) ==> graph_valid_at_some_instant(g, dag_id@),
{
    let reading = utc_now_millis();
    let ghost id = dag_id@;
    let r = get_dag_graph_for_reading(dag_id, rng, reading);
    assert(r matches Some(g) ==> instant_supported(reading) && graph_valid(g, id, reading));
    r
}

/// Generates a catalog at the instant that a clock showed and answers the
/// query on it. There is an answer exactly where the generator accepts the
/// reading.
pub fn get_dags_for_reading(params: &DAGsQuery, rng: &mut StdRng, reading: i64) -> (r: Option<
    DAGsResponse,
>)
    requires
        params.well_formed(),
    ensures
        r is Some <==> instant_supported(reading),
        r matches Some(response) ==> answers_query_at(response, *params, reading),
{
    match accepted_instant(reading) {
        Some(now) => Some(get_dags_at(params, rng, now)),
        None => None,
    }
}

/// Synthesizes the graph of a workflow at the instant that a clock showed.
/// There is a graph exactly where the synthesizer accepts the reading.
pub fn get_dag_graph_for_reading(dag_id: String, rng: &mut StdRng, reading: i64) -> (r: Option<
    DAGGraph,
>)
    ensures
        r is Some <==> instant_supported(reading),
        r matches Some(g) ==> graph_valid(g, dag_id@, reading),
{
    match accepted_instant(reading) {
        Some(now) => Some(generate_sample_dag_graph(dag_id, rng, now)),
        None => None,
    }
}

} // verus!
