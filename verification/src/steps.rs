//! What the modules that describe a task and then run plain commands hand to
//! the driver: a described plan, and the steps that apply a task.

use vstd::prelude::*;
use crate::task::{ErrorView, ModuleError};

verus! {

/// A plan that describes a task and says whether applying it needs
/// privileges.
#[derive(Debug)]
pub struct DescribedPlan {
    pub description: String,
    pub needs_privilege: bool,
}

pub struct DescribedPlanView {
    pub description: Seq<char>,
    pub needs_privilege: bool,
}

impl View for DescribedPlan {
    type V = DescribedPlanView;

    open spec fn view(&self) -> DescribedPlanView {
        DescribedPlanView { description: self.description@, needs_privilege: self.needs_privilege }
    }
}

/// One thing the driver does to apply a task.
#[derive(Debug)]
pub enum Step {
    /// Run this command line; its result is the task's result when it is the
    /// last step.
    Run(String),
    /// Write this content to this file.
    Write { path: String, content: String },
}

pub enum StepView {
    Run(Seq<char>),
    Write { path: Seq<char>, content: Seq<char> },
}

impl View for Step {
    type V = StepView;

    open spec fn view(&self) -> StepView {
        match self {
            Step::Run(c) => StepView::Run(c@),
            Step::Write { path, content } => StepView::Write { path: path@, content: content@ },
        }
    }
}

/// The steps, taken by their views.
pub open spec fn steps_view(v: Seq<Step>) -> Seq<StepView> {
    v.map_values(|s: Step| s@)
}

/// A result of steps, taken by views.
pub open spec fn steps_result(r: Result<Vec<Step>, ModuleError>) -> Result<Seq<StepView>, ErrorView> {
    match r {
        Ok(v) => Ok(steps_view(v@)),
        Err(e) => Err(e@),
    }
}

/// A parameter, or `default` where the task lacks it.
pub open spec fn param_or(p: Option<String>, default: Seq<char>) -> Seq<char> {
    match p {
        Some(s) => s@,
        None => default,
    }
}

/// A parameter that the action requires.
pub open spec fn required(p: Option<String>, key: Seq<char>) -> Result<Seq<char>, ErrorView> {
    match p {
        Some(s) => Ok(s@),
        None => Err(ErrorView::ParamMissing(key)),
    }
}

pub fn param_or_text<'a>(p: &'a Option<String>, default: &'a str) -> (r: &'a str)
    ensures
        r@ == param_or(*p, default@),
{
    match p {
        Some(s) => s.as_str(),
        None => default,
    }
}

pub fn required_text<'a>(p: &'a Option<String>, key: &str) -> (r: Result<&'a str, ModuleError>)
    ensures
        match r {
            Ok(s) => required(*p, key@) == Ok::<Seq<char>, ErrorView>(s@),
            Err(e) => required(*p, key@) == Err::<Seq<char>, ErrorView>(e@),
        },
{
    match p {
        Some(s) => Ok(s.as_str()),
        None => Err(ModuleError::ParamMissing(key.to_owned())),
    }
}

/// A single step that runs `line`.
pub fn run_only(line: String) -> (v: Vec<Step>)
    ensures
        steps_view(v@) == seq![StepView::Run(line@)],
{
    let mut v = Vec::new();
    v.push(Step::Run(line));
    assert(steps_view(v@) =~= seq![StepView::Run(line@)]);
    v
}

/// A write, then a run.
pub fn write_then_run(path: String, content: String, line: String) -> (v: Vec<Step>)
    ensures
        steps_view(v@) == seq![
            StepView::Write { path: path@, content: content@ },
            StepView::Run(line@),
        ],
{
    let mut v = Vec::new();
    let ghost pv = path@;
    let ghost cv = content@;
    let ghost lv = line@;
    v.push(Step::Write { path, content });
    v.push(Step::Run(line));
    assert(steps_view(v@) =~= seq![StepView::Write { path: pv, content: cv }, StepView::Run(lv)]);
    v
}

} // verus!
