//! The ways in which the operator's work fails.

use vstd::prelude::*;
use vstd::string::*;
use crate::text::join;

verus! {

/// A failed call to a cluster's API.
#[derive(Debug)]
pub struct ApiError {
    /// The code of the API's error response, where the API answered with one.
    pub code: Option<u16>,
    /// The failure in words.
    pub message: String,
}

/// What an `ApiError` holds, as mathematical values.
pub struct ApiErrorView {
    pub code: Option<u16>,
    pub message: Seq<char>,
}

impl View for ApiError {
    type V = ApiErrorView;

    open spec fn view(&self) -> ApiErrorView {
        ApiErrorView { code: self.code, message: self.message@ }
    }
}

impl DeepView for ApiError {
    type V = ApiErrorView;

    open spec fn deep_view(&self) -> ApiErrorView {
        self@
    }
}

impl ApiErrorView {
    /// The API answered that what was asked for does not exist.
    pub open spec fn is_not_found(self) -> bool {
        self.code == Some(404u16)
    }
}

impl ApiError {
    /// Whether the API answered that what was asked for does not exist.
    pub fn is_not_found(&self) -> (not_found: bool)
        ensures
            not_found == self@.is_not_found(),
    {
        match self.code {
            Some(code) => code == 404,
            None => false,
        }
    }
}

impl Clone for ApiError {
    fn clone(&self) -> (copy: Self)
        ensures
            copy@ == self@,
    {
        ApiError { code: self.code, message: self.message.clone() }
    }
}

/// Why a piece of the operator's work failed.
#[derive(Debug)]
pub enum OutriderError {
    /// A call to a cluster's API failed.
    KubeError(ApiError),
    /// A stored connection descriptor could not be read, parsed or turned into a client.
    KubeconfigError(String),
    /// The cluster is not ready.
    ClusterNotReady(String),
    /// The secret could not be copied.
    SecretCopyError(String),
    /// The target namespace could neither be found nor created.
    NamespaceError(String),
    /// An annotation holds what it should not.
    InvalidAnnotation(String),
}

/// What an `OutriderError` holds, as mathematical values.
pub enum OutriderErrorView {
    KubeError(ApiErrorView),
    KubeconfigError(Seq<char>),
    ClusterNotReady(Seq<char>),
    SecretCopyError(Seq<char>),
    NamespaceError(Seq<char>),
    InvalidAnnotation(Seq<char>),
}

impl View for OutriderError {
    type V = OutriderErrorView;

    open spec fn view(&self) -> OutriderErrorView {
        match self {
            OutriderError::KubeError(failure) => OutriderErrorView::KubeError(failure@),
            OutriderError::KubeconfigError(text) => OutriderErrorView::KubeconfigError(text@),
            OutriderError::ClusterNotReady(text) => OutriderErrorView::ClusterNotReady(text@),
            OutriderError::SecretCopyError(text) => OutriderErrorView::SecretCopyError(text@),
            OutriderError::NamespaceError(text) => OutriderErrorView::NamespaceError(text@),
            OutriderError::InvalidAnnotation(text) => OutriderErrorView::InvalidAnnotation(text@),
        }
    }
}

impl DeepView for OutriderError {
    type V = OutriderErrorView;

    open spec fn deep_view(&self) -> OutriderErrorView {
        self@
    }
}

impl OutriderErrorView {
    /// The error in words: what kind it is, then what it carries.
    pub open spec fn text(self) -> Seq<char> {
        match self {
            OutriderErrorView::KubeError(failure) => "Kubernetes API error: "@ + failure.message,
            OutriderErrorView::KubeconfigError(text) => "Failed to parse kubeconfig: "@ + text,
            OutriderErrorView::ClusterNotReady(text) => "Cluster not ready: "@ + text,
            OutriderErrorView::SecretCopyError(text) => "Secret copy failed: "@ + text,
            OutriderErrorView::NamespaceError(text) => "Namespace creation failed: "@ + text,
            OutriderErrorView::InvalidAnnotation(text) => "Invalid annotation: "@ + text,
        }
    }
}

impl OutriderError {
    /// The error in words: what kind it is, then what it carries.
    pub fn to_string(&self) -> (text: String)
        ensures
            text@ == self@.text(),
    {
        match self {
            OutriderError::KubeError(failure) => join(
                "Kubernetes API error: ",
                failure.message.as_str(),
            ),
            OutriderError::KubeconfigError(text) => join(
                "Failed to parse kubeconfig: ",
                text.as_str(),
            ),
            OutriderError::ClusterNotReady(text) => join("Cluster not ready: ", text.as_str()),
            OutriderError::SecretCopyError(text) => join("Secret copy failed: ", text.as_str()),
            OutriderError::NamespaceError(text) => join(
                "Namespace creation failed: ",
                text.as_str(),
            ),
            OutriderError::InvalidAnnotation(text) => join("Invalid annotation: ", text.as_str()),
        }
    }
}

impl Clone for OutriderError {
    fn clone(&self) -> (copy: Self)
        ensures
            copy@ == self@,
    {
        match self {
            OutriderError::KubeError(failure) => OutriderError::KubeError(failure.clone()),
            OutriderError::KubeconfigError(text) => OutriderError::KubeconfigError(text.clone()),
            OutriderError::ClusterNotReady(text) => OutriderError::ClusterNotReady(text.clone()),
            OutriderError::SecretCopyError(text) => OutriderError::SecretCopyError(text.clone()),
            OutriderError::NamespaceError(text) => OutriderError::NamespaceError(text.clone()),
            OutriderError::InvalidAnnotation(text) => OutriderError::InvalidAnnotation(
                text.clone(),
            ),
        }
    }
}

} // verus!
