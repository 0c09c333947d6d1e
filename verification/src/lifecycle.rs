//! Stopping and starting the node. The node and the container that monitors
//! it are handled in one fixed order: the node first, its monitor second, so
//! that the monitor never runs against a node that was not started yet.

use crate::steps::{Step, StepView};
use vstd::prelude::*;
use vstd::string::*;

verus! {

/// The steps that stop the node: the node itself, then its monitor.
pub open spec fn stop_steps_text(node: Seq<char>, monitor: Seq<char>) -> Seq<StepView> {
    seq![StepView::StopContainer { name: node }, StepView::StopContainer { name: monitor }]
}

/// The steps that start the node: the node itself, then its monitor.
pub open spec fn start_steps_text(node: Seq<char>, monitor: Seq<char>) -> Seq<StepView> {
    seq![StepView::StartContainer { name: node }, StepView::StartContainer { name: monitor }]
}

/// The steps that stop the node in the container `node` and its monitor in
/// the container `monitor`.
pub fn stop_steps(node: &str, monitor: &str) -> (r: Vec<Step>)
    ensures
        r.deep_view() == stop_steps_text(node@, monitor@),
{
    let mut out: Vec<Step> = Vec::new();
    out.push(Step::StopContainer { name: node.to_owned() });
    out.push(Step::StopContainer { name: monitor.to_owned() });
    assert(out.deep_view() =~= stop_steps_text(node@, monitor@));
    out
}

/// The steps that start the node in the container `node` and its monitor in
/// the container `monitor`.
pub fn start_steps(node: &str, monitor: &str) -> (r: Vec<Step>)
    ensures
        r.deep_view() == start_steps_text(node@, monitor@),
{
    let mut out: Vec<Step> = Vec::new();
    out.push(Step::StartContainer { name: node.to_owned() });
    out.push(Step::StartContainer { name: monitor.to_owned() });
    assert(out.deep_view() =~= start_steps_text(node@, monitor@));
    out
}

} // verus!
