//! The operations that the host performs for the service. The library never
//! touches the disk or the container runtime: it says which operation comes
//! next, and the host reports how it ended.

use vstd::prelude::*;
use vstd::string::*;

verus! {

/// A host directory made visible inside a container at `target`.
#[derive(Clone, Debug, PartialEq, Eq)]
pub struct BindMount {
    pub source: String,
    pub target: String,
}

/// The mathematical content of a `BindMount`.
pub struct BindMountView {
    pub source: Seq<char>,
    pub target: Seq<char>,
}

impl DeepView for BindMount {
    type V = BindMountView;

    open spec fn deep_view(&self) -> BindMountView {
        BindMountView { source: self.source@, target: self.target@ }
    }
}

impl View for BindMount {
    type V = BindMountView;

    open spec fn view(&self) -> BindMountView {
        self.deep_view()
    }
}

/// A directory tree that goes into an archive: the directory `source` of the
/// host becomes the directory `member` inside the archive.
#[derive(Clone, Debug, PartialEq, Eq)]
pub struct PackedTree {
    pub source: String,
    pub member: String,
}

/// The mathematical content of a `PackedTree`.
pub struct PackedTreeView {
    pub source: Seq<char>,
    pub member: Seq<char>,
}

impl DeepView for PackedTree {
    type V = PackedTreeView;

    open spec fn deep_view(&self) -> PackedTreeView {
        PackedTreeView { source: self.source@, member: self.member@ }
    }
}

impl View for PackedTree {
    type V = PackedTreeView;

    open spec fn view(&self) -> PackedTreeView {
        self.deep_view()
    }
}

/// A container to create: its name, its image, the command it runs and the
/// host directories it sees.
#[derive(Clone, Debug, PartialEq, Eq)]
pub struct ContainerSpec {
    pub name: String,
    pub image: String,
    pub entrypoint: Vec<String>,
    pub mounts: Vec<BindMount>,
}

/// The mathematical content of a `ContainerSpec`.
pub struct ContainerSpecView {
    pub name: Seq<char>,
    pub image: Seq<char>,
    pub entrypoint: Seq<Seq<char>>,
    pub mounts: Seq<BindMountView>,
}

impl DeepView for ContainerSpec {
    type V = ContainerSpecView;

    open spec fn deep_view(&self) -> ContainerSpecView {
        ContainerSpecView {
            name: self.name@,
            image: self.image@,
            entrypoint: self.entrypoint.deep_view(),
            mounts: self.mounts.deep_view(),
        }
    }
}

impl View for ContainerSpec {
    type V = ContainerSpecView;

    open spec fn view(&self) -> ContainerSpecView {
        self.deep_view()
    }
}

/// One operation for the host to perform.
#[derive(Clone, Debug, PartialEq, Eq)]
pub enum Step {
    /// Stop the container `name`.
    StopContainer { name: String },
    /// Start the container `name`.
    StartContainer { name: String },
    /// Create the container that `container` describes.
    CreateContainer { container: ContainerSpec },
    /// Wait until the container `name` no longer runs.
    AwaitContainer { name: String },
    /// Remove the container `name`.
    RemoveContainer { name: String },
    /// Create the directory `path` and its parents unless it exists.
    EnsureDirectory { path: String },
    /// Scan `directory`, and remove the oldest promoted snapshot if it holds
    /// `capacity` of them or more.
    EvictOldest { directory: String, capacity: usize },
    /// Remove the file `path`; that it does not exist is no failure.
    RemoveLock { path: String },
    /// Create the empty staging directory `path`.
    BeginStaging { path: String },
    /// Copy the directory tree `from` into `to`.
    CopyTree { from: String, to: String },
    /// Remove the log files and the identity file from the tree under `root`.
    PurgeTransient { root: String },
    /// Write the directory trees `subtrees` into a compressed archive at
    /// `destination`, each under its member path.
    Pack { subtrees: Vec<PackedTree>, destination: String },
    /// Rename `from` to `to`, in one move.
    Promote { from: String, to: String },
    /// Remove `path` and everything in it.
    Discard { path: String },
}

/// The mathematical content of a `Step`.
pub enum StepView {
    StopContainer { name: Seq<char> },
    StartContainer { name: Seq<char> },
    CreateContainer { container: ContainerSpecView },
    AwaitContainer { name: Seq<char> },
    RemoveContainer { name: Seq<char> },
    EnsureDirectory { path: Seq<char> },
    EvictOldest { directory: Seq<char>, capacity: nat },
    RemoveLock { path: Seq<char> },
    BeginStaging { path: Seq<char> },
    CopyTree { from: Seq<char>, to: Seq<char> },
    PurgeTransient { root: Seq<char> },
    Pack { subtrees: Seq<PackedTreeView>, destination: Seq<char> },
    Promote { from: Seq<char>, to: Seq<char> },
    Discard { path: Seq<char> },
}

impl DeepView for Step {
    type V = StepView;

    open spec fn deep_view(&self) -> StepView {
        match *self {
            Step::StopContainer { name } => StepView::StopContainer { name: name@ },
            Step::StartContainer { name } => StepView::StartContainer { name: name@ },
            Step::CreateContainer { container } => StepView::CreateContainer {
                container: container@,
            },
            Step::AwaitContainer { name } => StepView::AwaitContainer { name: name@ },
            Step::RemoveContainer { name } => StepView::RemoveContainer { name: name@ },
            Step::EnsureDirectory { path } => StepView::EnsureDirectory { path: path@ },
            Step::EvictOldest { directory, capacity } => StepView::EvictOldest {
                directory: directory@,
                capacity: capacity as nat,
            },
            Step::RemoveLock { path } => StepView::RemoveLock { path: path@ },
            Step::BeginStaging { path } => StepView::BeginStaging { path: path@ },
            Step::CopyTree { from, to } => StepView::CopyTree { from: from@, to: to@ },
            Step::PurgeTransient { root } => StepView::PurgeTransient { root: root@ },
            Step::Pack { subtrees, destination } => StepView::Pack {
                subtrees: subtrees.deep_view(),
                destination: destination@,
            },
            Step::Promote { from, to } => StepView::Promote { from: from@, to: to@ },
            Step::Discard { path } => StepView::Discard { path: path@ },
        }
    }
}

impl View for Step {
    type V = StepView;

    open spec fn view(&self) -> StepView {
        self.deep_view()
    }
}

/// A step of an attempt's work, with the steps that put things in order if it
/// fails: what was created so far and would otherwise be left behind.
#[derive(Clone, Debug, PartialEq, Eq)]
pub struct PlannedStep {
    pub step: Step,
    pub release: Vec<Step>,
}

/// The mathematical content of a `PlannedStep`.
pub struct PlannedStepView {
    pub step: StepView,
    pub release: Seq<StepView>,
}

impl DeepView for PlannedStep {
    type V = PlannedStepView;

    open spec fn deep_view(&self) -> PlannedStepView {
        PlannedStepView { step: self.step@, release: self.release.deep_view() }
    }
}

impl View for PlannedStep {
    type V = PlannedStepView;

    open spec fn view(&self) -> PlannedStepView {
        self.deep_view()
    }
}

/// Copies a step.
pub fn copy_step(step: &Step) -> (r: Step)
    ensures
        r@ == step@,
{
    match step {
        Step::StopContainer { name } => Step::StopContainer { name: name.clone() },
        Step::StartContainer { name } => Step::StartContainer { name: name.clone() },
        Step::CreateContainer { container } => Step::CreateContainer {
            container: copy_container(container),
        },
        Step::AwaitContainer { name } => Step::AwaitContainer { name: name.clone() },
        Step::RemoveContainer { name } => Step::RemoveContainer { name: name.clone() },
        Step::EnsureDirectory { path } => Step::EnsureDirectory { path: path.clone() },
        Step::EvictOldest { directory, capacity } => Step::EvictOldest {
            directory: directory.clone(),
            capacity: *capacity,
        },
        Step::RemoveLock { path } => Step::RemoveLock { path: path.clone() },
        Step::BeginStaging { path } => Step::BeginStaging { path: path.clone() },
        Step::CopyTree { from, to } => Step::CopyTree { from: from.clone(), to: to.clone() },
        Step::PurgeTransient { root } => Step::PurgeTransient { root: root.clone() },
        Step::Pack { subtrees, destination } => Step::Pack {
            subtrees: copy_trees(subtrees),
            destination: destination.clone(),
        },
        Step::Promote { from, to } => Step::Promote { from: from.clone(), to: to.clone() },
        Step::Discard { path } => Step::Discard { path: path.clone() },
    }
}

/// Copies a list of texts.
pub fn copy_texts(texts: &Vec<String>) -> (r: Vec<String>)
    ensures
        r.deep_view() == texts.deep_view(),
{
    let mut out: Vec<String> = Vec::new();
    let mut i: usize = 0;
    while i < texts.len()
        invariant
            i <= texts.len(),
            out.len() == i,
            forall|j: int| 0 <= j < i ==> out[j]@ == texts[j]@,
        decreases texts.len() - i,
    {
        out.push(texts[i].clone());
        i += 1;
    }
    assert(out.deep_view() =~= texts.deep_view());
    out
}

/// Copies a list of directory trees.
pub fn copy_trees(trees: &Vec<PackedTree>) -> (r: Vec<PackedTree>)
    ensures
        r.deep_view() == trees.deep_view(),
{
    let mut out: Vec<PackedTree> = Vec::new();
    let mut i: usize = 0;
    while i < trees.len()
        invariant
            i <= trees.len(),
            out.len() == i,
            forall|j: int| 0 <= j < i ==> out[j]@ == trees[j]@,
        decreases trees.len() - i,
    {
        out.push(PackedTree { source: trees[i].source.clone(), member: trees[i].member.clone() });
        i += 1;
    }
    assert(out.deep_view() =~= trees.deep_view());
    out
}

/// Copies the description of a container.
pub fn copy_container(container: &ContainerSpec) -> (r: ContainerSpec)
    ensures
        r@ == container@,
{
    let mut mounts: Vec<BindMount> = Vec::new();
    let mut i: usize = 0;
    while i < container.mounts.len()
        invariant
            i <= container.mounts.len(),
            mounts.len() == i,
            forall|j: int| 0 <= j < i ==> mounts[j]@ == container.mounts[j]@,
        decreases container.mounts.len() - i,
    {
        mounts.push(
            BindMount {
                source: container.mounts[i].source.clone(),
                target: container.mounts[i].target.clone(),
            },
        );
        i += 1;
    }
    assert(mounts.deep_view() =~= container.mounts.deep_view());
    ContainerSpec {
        name: container.name.clone(),
        image: container.image.clone(),
        entrypoint: copy_texts(&container.entrypoint),
        mounts,
    }
}

/// Copies a list of steps.
pub fn copy_steps(steps: &Vec<Step>) -> (r: Vec<Step>)
    ensures
        r.deep_view() == steps.deep_view(),
{
    let mut out: Vec<Step> = Vec::new();
    let mut i: usize = 0;
    while i < steps.len()
        invariant
            i <= steps.len(),
            out.len() == i,
            forall|j: int| 0 <= j < i ==> out[j]@ == steps[j]@,
        decreases steps.len() - i,
    {
        out.push(copy_step(&steps[i]));
        i += 1;
    }
    assert(out.deep_view() =~= steps.deep_view());
    out
}

} // verus!
