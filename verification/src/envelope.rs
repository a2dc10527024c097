//! The result envelope: what every operation hands back to its caller,
//! whichever operation ran.

use crate::info::{SystemInfo, SystemInfoView};
use crate::listing::{ContainerRecord, ContainerRecordView};
use vstd::prelude::*;
use vstd::string::StringExecFns;

verus! {

/// The operations of the bridge.
#[derive(Clone, Copy, Debug, PartialEq, Eq, Structural)]
pub enum Operation {
    Launch,
    Stop,
    List,
    Info,
}

/// Why an operation failed.
#[derive(Clone, Debug, PartialEq, Eq)]
pub enum Failure {
    /// The runtime's program could not be started; holds the description
    /// of what went wrong.
    Spawn(String),
    /// The program ran and reported a failure; holds what it wrote to its
    /// standard error.
    Runtime(String),
    /// The system report is not JSON.
    MalformedInfo,
}

/// A failure as mathematical values.
pub enum FailureView {
    Spawn(Seq<char>),
    Runtime(Seq<char>),
    MalformedInfo,
}

impl View for Failure {
    type V = FailureView;

    open spec fn view(&self) -> FailureView {
        match self {
            Failure::Spawn(description) => FailureView::Spawn(description@),
            Failure::Runtime(stderr) => FailureView::Runtime(stderr@),
            Failure::MalformedInfo => FailureView::MalformedInfo,
        }
    }
}

/// What stands before the description of a failure to start the program.
pub open spec fn spawn_label(operation: Operation) -> Seq<char> {
    match operation {
        Operation::Launch => "Failed to execute docker command: "@,
        Operation::Stop => "Failed to execute docker stop: "@,
        Operation::List => "Failed to execute docker ps: "@,
        Operation::Info => "Failed to execute docker info: "@,
    }
}

/// What is reported for a program that failed without a word on its
/// standard error.
pub open spec fn silent_label(operation: Operation) -> Seq<char> {
    match operation {
        Operation::Launch => "Docker launch failed: "@,
        Operation::Stop => "Docker stop failed: "@,
        Operation::List => "Docker ps failed: "@,
        Operation::Info => "Docker info failed: "@,
    }
}

/// The text that reports `failure` of `operation`: the program's standard
/// error as it is, a description of why the program could not be started,
/// or the fixed text for a report that is not JSON. An empty standard
/// error is replaced by a label, so that the text is never empty.
pub open spec fn failure_text(operation: Operation, failure: FailureView) -> Seq<char> {
    match failure {
        FailureView::Spawn(description) => spawn_label(operation) + description,
        FailureView::Runtime(stderr) => if stderr.len() > 0 {
            stderr
        } else {
            silent_label(operation)
        },
        FailureView::MalformedInfo => "Failed to parse Docker info JSON"@,
    }
}

/// No failure is reported by an empty text.
pub proof fn lemma_failure_text_not_empty(operation: Operation, failure: FailureView)
    ensures
        failure_text(operation, failure).len() > 0,
{
    reveal_strlit("Failed to execute docker command: ");
    reveal_strlit("Failed to execute docker stop: ");
    reveal_strlit("Failed to execute docker ps: ");
    reveal_strlit("Failed to execute docker info: ");
    reveal_strlit("Docker launch failed: ");
    reveal_strlit("Docker stop failed: ");
    reveal_strlit("Docker ps failed: ");
    reveal_strlit("Docker info failed: ");
    reveal_strlit("Failed to parse Docker info JSON");
}

impl Failure {
    /// The text that reports this failure of `operation`.
    pub fn text(self, operation: Operation) -> (text: String)
        ensures
            text@ == failure_text(operation, self@),
    {
        match self {
            Failure::Spawn(description) => {
                let label = match operation {
                    Operation::Launch => "Failed to execute docker command: ",
                    Operation::Stop => "Failed to execute docker stop: ",
                    Operation::List => "Failed to execute docker ps: ",
                    Operation::Info => "Failed to execute docker info: ",
                };
                let mut text = label.to_owned();
                text.append(description.as_str());
                text
            },
            Failure::Runtime(stderr) => {
                if stderr.as_str().is_empty() {
                    let label = match operation {
                        Operation::Launch => "Docker launch failed: ",
                        Operation::Stop => "Docker stop failed: ",
                        Operation::List => "Docker ps failed: ",
                        Operation::Info => "Docker info failed: ",
                    };
                    label.to_owned()
                } else {
                    stderr
                }
            },
            Failure::MalformedInfo => "Failed to parse Docker info JSON".to_owned(),
        }
    }
}

/// What an operation hands back: whether it succeeded, and at most one of
/// the identifier of a new container, a list of containers, the system
/// information and an error text.
#[derive(Clone, Debug, PartialEq, Eq)]
pub struct OperationResult {
    pub success: bool,
    pub container_id: Option<String>,
    pub containers: Option<Vec<ContainerRecord>>,
    pub info: Option<SystemInfo>,
    pub error: Option<String>,
}

/// An envelope as mathematical values.
pub struct OperationResultView {
    pub success: bool,
    pub container_id: Option<Seq<char>>,
    pub containers: Option<Seq<ContainerRecordView>>,
    pub info: Option<SystemInfoView>,
    pub error: Option<Seq<char>>,
}

impl OperationResultView {
    /// A success carries no error and at most one piece of data; a failure
    /// carries no data and an error text that is not empty.
    pub open spec fn well_formed(self) -> bool {
        if self.success {
            &&& self.error is None
            &&& self.container_id is None || self.containers is None
            &&& self.container_id is None || self.info is None
            &&& self.containers is None || self.info is None
        } else {
            &&& self.container_id is None
            &&& self.containers is None
            &&& self.info is None
            &&& self.error is Some
            &&& self.error.unwrap().len() > 0
        }
    }

    /// The envelope of a launch that gave the container `id`.
    pub open spec fn launched(id: Seq<char>) -> OperationResultView {
        OperationResultView {
            success: true,
            container_id: Some(id),
            containers: None,
            info: None,
            error: None,
        }
    }

    /// The envelope of a success that carries no data.
    pub open spec fn done() -> OperationResultView {
        OperationResultView {
            success: true,
            container_id: None,
            containers: None,
            info: None,
            error: None,
        }
    }

    /// The envelope of a listing that gave `records`.
    pub open spec fn listed(records: Seq<ContainerRecordView>) -> OperationResultView {
        OperationResultView {
            success: true,
            container_id: None,
            containers: Some(records),
            info: None,
            error: None,
        }
    }

    /// The envelope of a report that gave `info`.
    pub open spec fn informed(info: SystemInfoView) -> OperationResultView {
        OperationResultView {
            success: true,
            container_id: None,
            containers: None,
            info: Some(info),
            error: None,
        }
    }

    /// The envelope of a failure reported by `text`.
    pub open spec fn failed(text: Seq<char>) -> OperationResultView {
        OperationResultView {
            success: false,
            container_id: None,
            containers: None,
            info: None,
            error: Some(text),
        }
    }
}

impl View for OperationResult {
    type V = OperationResultView;

    open spec fn view(&self) -> OperationResultView {
        OperationResultView {
            success: self.success,
            container_id: self.container_id.deep_view(),
            containers: self.containers.deep_view(),
            info: self.info.deep_view(),
            error: self.error.deep_view(),
        }
    }
}

impl OperationResult {
    /// A launch succeeded and gave the container `id`.
    pub fn launched(id: String) -> (result: OperationResult)
        ensures
            result@ == OperationResultView::launched(id@),
            result@.well_formed(),
    {
        OperationResult {
            success: true,
            container_id: Some(id),
            containers: None,
            info: None,
            error: None,
        }
    }

    /// An operation succeeded and has nothing to hand back.
    pub fn done() -> (result: OperationResult)
        ensures
            result@ == OperationResultView::done(),
            result@.well_formed(),
    {
        OperationResult {
            success: true,
            container_id: None,
            containers: None,
            info: None,
            error: None,
        }
    }

    /// A listing succeeded and gave `records`.
    pub fn listed(records: Vec<ContainerRecord>) -> (result: OperationResult)
        ensures
            result@ == OperationResultView::listed(records.deep_view()),
            result@.well_formed(),
    {
        OperationResult {
            success: true,
            container_id: None,
            containers: Some(records),
            info: None,
            error: None,
        }
    }

    /// A report succeeded and gave `info`.
    pub fn informed(info: SystemInfo) -> (result: OperationResult)
        ensures
            result@ == OperationResultView::informed(info@),
            result@.well_formed(),
    {
        OperationResult {
            success: true,
            container_id: None,
            containers: None,
            info: Some(info),
            error: None,
        }
    }

    /// `operation` failed for the reason `failure`.
    pub fn failed(operation: Operation, failure: Failure) -> (result: OperationResult)
        ensures
            result@ == OperationResultView::failed(failure_text(operation, failure@)),
            result@.well_formed(),
    {
        proof {
            lemma_failure_text_not_empty(operation, failure@);
        }
        OperationResult {
            success: false,
            container_id: None,
            containers: None,
            info: None,
            error: Some(failure.text(operation)),
        }
    }
}

} // verus!
