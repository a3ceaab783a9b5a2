//! Making sure that the target namespace exists before a secret is written into it.

use vstd::prelude::*;
use vstd::string::*;
use crate::error::{ApiError, ApiErrorView, OutriderError, OutriderErrorView};
use crate::text::join4;

verus! {

/// What is to be done about a namespace once it was looked up.
#[derive(Debug)]
pub enum NamespaceStep {
    /// The namespace is there: nothing is to be done.
    Exists,
    /// The namespace is not there: it is to be created under this name.
    Create { name: String },
    /// The lookup failed in another way than by not finding the namespace.
    Failed(OutriderError),
}

/// What a `NamespaceStep` holds, as mathematical values.
pub enum NamespaceStepView {
    Exists,
    Create { name: Seq<char> },
    Failed(OutriderErrorView),
}

impl View for NamespaceStep {
    type V = NamespaceStepView;

    open spec fn view(&self) -> NamespaceStepView {
        match self {
            NamespaceStep::Exists => NamespaceStepView::Exists,
            NamespaceStep::Create { name } => NamespaceStepView::Create { name: name@ },
            NamespaceStep::Failed(error) => NamespaceStepView::Failed(error@),
        }
    }
}

/// What follows from the lookup of `namespace`: found, it exists; not found,
/// it is to be created; any other failure of the lookup ends the attempt.
pub open spec fn namespace_step(
    namespace: Seq<char>,
    found: Result<(), ApiErrorView>,
) -> NamespaceStepView {
    match found {
        Ok(_) => NamespaceStepView::Exists,
        Err(failure) => if failure.is_not_found() {
            NamespaceStepView::Create { name: namespace }
        } else {
            NamespaceStepView::Failed(
                OutriderErrorView::NamespaceError(
                    "Failed to check/create namespace "@ + namespace + ": "@ + failure.message,
                ),
            )
        },
    }
}

/// What follows from the attempt to create the namespace: a failure is the
/// failure of the API call.
pub open spec fn namespace_creation(created: Result<(), ApiErrorView>) -> Result<
    (),
    OutriderErrorView,
> {
    match created {
        Ok(_) => Ok(()),
        Err(failure) => Err(OutriderErrorView::KubeError(failure)),
    }
}

/// Decides, from how the lookup of `namespace` ended, whether the namespace
/// exists, is to be created, or cannot be had.
pub fn ensure_namespace_exists(namespace: &str, found: Result<(), ApiError>) -> (step:
    NamespaceStep)
    ensures
        step@ == namespace_step(
            namespace@,
            match found {
                Ok(_) => Ok(()),
                Err(failure) => Err(failure@),
            },
        ),
{
    match found {
        Ok(_) => NamespaceStep::Exists,
        Err(failure) => {
            if failure.is_not_found() {
                NamespaceStep::Create { name: namespace.to_owned() }
            } else {
                NamespaceStep::Failed(
                    OutriderError::NamespaceError(
                        join4(
                            "Failed to check/create namespace ",
                            namespace,
                            ": ",
                            failure.message.as_str(),
                        ),
                    ),
                )
            }
        },
    }
}

/// Takes how the creation of the namespace ended.
pub fn namespace_created(created: Result<(), ApiError>) -> (outcome: Result<(), OutriderError>)
    ensures
        match outcome {
            Ok(_) => created is Ok,
            Err(error) => created is Err && error@ == OutriderErrorView::KubeError(
                created->Err_0@,
            ),
        },
{
    match created {
        Ok(_) => Ok(()),
        Err(failure) => Err(OutriderError::KubeError(failure)),
    }
}

} // verus!
