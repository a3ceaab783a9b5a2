//! The distribution primitive: one secret copied into one cluster, step by step.
//!
//! A copy makes no call itself. It is driven: `copy_secret_to_cluster` answers
//! with the first thing to ask of a cluster, and each call of `step` takes the
//! answer and says what to ask next, until the copy is done. Any failure ends
//! the copy at once with that failure.

use vstd::prelude::*;
use vstd::string::*;
use crate::config::{Config, ConfigView};
use crate::constants::OPERATOR_NAME;
use crate::error::{ApiError, ApiErrorView, OutriderError, OutriderErrorView};
use crate::kubernetes::client::{
    checked_kubeconfig, client_connected, client_source, cluster_kubeconfig, connection,
    create_client_from_kubeconfig, create_downstream_client, create_testing_client,
    get_cluster_kubeconfig, kubeconfig_parse_error, testing_client, ClientSource, ClientSourceView,
    ConnectError, ConnectErrorView,
};
use crate::kubernetes::namespaces::{
    ensure_namespace_exists, namespace_created, namespace_creation, namespace_step, NamespaceStep,
    NamespaceStepView,
};
use crate::sync::secrets::{create_downstream_secret, get_target_namespace};
use crate::types::cluster::{Cluster, ClusterView};
use crate::types::secret::{Secret, SecretView};

verus! {

/// What a copy asks for next.
#[derive(Debug)]
pub enum CopyRequest {
    /// Read the ambient connection descriptor and hand over its cluster URL.
    InferConfig,
    /// Get this secret of the management cluster and hand it over.
    GetKubeconfigSecret { namespace: String, name: String },
    /// Connect to the cluster by the ambient connection descriptor, with this
    /// cluster URL in place of its own where one is given.
    ConnectAmbient { cluster_url: Option<String> },
    /// Connect to the cluster by this connection descriptor, which parses.
    ConnectKubeconfig { kubeconfig: String },
    /// Look this namespace up in the cluster.
    GetNamespace { name: String },
    /// Create this namespace in the cluster.
    CreateNamespace { name: String },
    /// Write the secret into the cluster under this name and in this namespace,
    /// as a server-side apply by this field manager, with conflicts forced or not.
    ApplySecret { name: String, namespace: String, secret: Secret, field_manager: String, force: bool },
    /// Nothing more: the copy has ended so.
    Done(Result<(), OutriderError>),
}

/// What a `CopyRequest` holds, as mathematical values.
pub enum CopyRequestView {
    InferConfig,
    GetKubeconfigSecret { namespace: Seq<char>, name: Seq<char> },
    ConnectAmbient { cluster_url: Option<Seq<char>> },
    ConnectKubeconfig { kubeconfig: Seq<char> },
    GetNamespace { name: Seq<char> },
    CreateNamespace { name: Seq<char> },
    ApplySecret {
        name: Seq<char>,
        namespace: Seq<char>,
        secret: SecretView,
        field_manager: Seq<char>,
        force: bool,
    },
    Done(Result<(), OutriderErrorView>),
}

impl View for CopyRequest {
    type V = CopyRequestView;

    open spec fn view(&self) -> CopyRequestView {
        match self {
            CopyRequest::InferConfig => CopyRequestView::InferConfig,
            CopyRequest::GetKubeconfigSecret { namespace, name } => {
                CopyRequestView::GetKubeconfigSecret { namespace: namespace@, name: name@ }
            },
            CopyRequest::ConnectAmbient { cluster_url } => CopyRequestView::ConnectAmbient {
                cluster_url: cluster_url.deep_view(),
            },
            CopyRequest::ConnectKubeconfig { kubeconfig } => CopyRequestView::ConnectKubeconfig {
                kubeconfig: kubeconfig@,
            },
            CopyRequest::GetNamespace { name } => CopyRequestView::GetNamespace { name: name@ },
            CopyRequest::CreateNamespace { name } => CopyRequestView::CreateNamespace {
                name: name@,
            },
            CopyRequest::ApplySecret { name, namespace, secret, field_manager, force } => {
                CopyRequestView::ApplySecret {
                    name: name@,
                    namespace: namespace@,
                    secret: secret@,
                    field_manager: field_manager@,
                    force: *force,
                }
            },
            CopyRequest::Done(outcome) => CopyRequestView::Done(
                match outcome {
                    Ok(_) => Ok(()),
                    Err(error) => Err(error@),
                },
            ),
        }
    }
}

/// What a copy is handed: the answer to what it asked for last.
#[derive(Debug)]
pub enum CopyInput {
    /// The cluster URL of the ambient connection descriptor, or the text of the
    /// error that kept the descriptor from being read.
    ConfigInferred(Result<String, String>),
    /// The secret that was asked for, or why it could not be had.
    KubeconfigSecretFetched(Result<Secret, ApiError>),
    /// Whether the connection could be made.
    Connected(Result<(), ConnectError>),
    /// Whether the namespace was found.
    NamespaceFetched(Result<(), ApiError>),
    /// Whether the namespace was created.
    NamespaceCreated(Result<(), ApiError>),
    /// Whether the secret was written.
    SecretApplied(Result<(), ApiError>),
}

/// What a `CopyInput` holds, as mathematical values.
pub enum CopyInputView {
    ConfigInferred(Result<Seq<char>, Seq<char>>),
    KubeconfigSecretFetched(Result<SecretView, ApiErrorView>),
    Connected(Result<(), ConnectErrorView>),
    NamespaceFetched(Result<(), ApiErrorView>),
    NamespaceCreated(Result<(), ApiErrorView>),
    SecretApplied(Result<(), ApiErrorView>),
}

/// An outcome of an API call without its value, as mathematical values.
pub open spec fn outcome_view(outcome: Result<(), ApiError>) -> Result<(), ApiErrorView> {
    match outcome {
        Ok(_) => Ok(()),
        Err(failure) => Err(failure@),
    }
}

impl View for CopyInput {
    type V = CopyInputView;

    open spec fn view(&self) -> CopyInputView {
        match self {
            CopyInput::ConfigInferred(inferred) => CopyInputView::ConfigInferred(
                match inferred {
                    Ok(url) => Ok(url@),
                    Err(error) => Err(error@),
                },
            ),
            CopyInput::KubeconfigSecretFetched(fetched) => CopyInputView::KubeconfigSecretFetched(
                match fetched {
                    Ok(secret) => Ok(secret@),
                    Err(failure) => Err(failure@),
                },
            ),
            CopyInput::Connected(outcome) => CopyInputView::Connected(
                match outcome {
                    Ok(_) => Ok(()),
                    Err(failure) => Err(failure@),
                },
            ),
            CopyInput::NamespaceFetched(found) => CopyInputView::NamespaceFetched(
                outcome_view(*found),
            ),
            CopyInput::NamespaceCreated(created) => CopyInputView::NamespaceCreated(
                outcome_view(*created),
            ),
            CopyInput::SecretApplied(applied) => CopyInputView::SecretApplied(
                outcome_view(*applied),
            ),
        }
    }
}

/// What a copy is waiting for.
#[derive(Clone, Copy, PartialEq, Eq, Structural, Debug)]
pub enum CopyStage {
    /// The cluster URL of the ambient connection descriptor.
    AwaitConfig,
    /// The cluster's credentials object.
    AwaitCredentials,
    /// The connection to the cluster.
    AwaitConnection,
    /// The lookup of the target namespace.
    AwaitNamespace,
    /// The creation of the target namespace.
    AwaitNamespaceCreation,
    /// The write of the secret.
    AwaitApply,
    /// Nothing: the copy has ended.
    Finished,
}

/// A copy under way, as mathematical values.
pub struct SecretCopyView {
    pub secret: SecretView,
    pub cluster: ClusterView,
    pub target_namespace: Seq<char>,
    pub stage: CopyStage,
}

impl SecretCopyView {
    /// The same copy at another stage.
    pub open spec fn at(self, stage: CopyStage) -> SecretCopyView {
        SecretCopyView { stage, ..self }
    }

    /// The copy ended by a failure.
    pub open spec fn fail(self, error: OutriderErrorView) -> (SecretCopyView, CopyRequestView) {
        (self.at(CopyStage::Finished), CopyRequestView::Done(Err(error)))
    }

    /// The write of the secret: the downstream object, under the secret's name
    /// and in the target namespace, applied by the operator's field manager with
    /// conflicts forced.
    pub open spec fn apply(self) -> (SecretCopyView, CopyRequestView) {
        (
            self.at(CopyStage::AwaitApply),
            CopyRequestView::ApplySecret {
                name: self.secret.metadata.name_any(),
                namespace: self.target_namespace,
                secret: self.secret.downstream(self.target_namespace),
                field_manager: OPERATOR_NAME@,
                force: true,
            },
        )
    }

    /// The copy as it begins: the target namespace is resolved, and the
    /// connection is asked for where the configuration says that it comes from.
    pub open spec fn begin(secret: SecretView, cluster: ClusterView, config: ConfigView) -> (
        SecretCopyView,
        CopyRequestView,
    ) {
        let copy = SecretCopyView {
            secret,
            cluster,
            target_namespace: secret.target_namespace(config),
            stage: CopyStage::AwaitConfig,
        };
        match client_source(cluster, config) {
            ClientSourceView::Ambient => (copy, CopyRequestView::InferConfig),
            ClientSourceView::Stored { namespace, name } => (
                copy.at(CopyStage::AwaitCredentials),
                CopyRequestView::GetKubeconfigSecret { namespace, name },
            ),
        }
    }

    /// The next state and the request that answers `input`, or `None` where
    /// `input` is not what the copy is waiting for.
    pub open spec fn step(self, input: CopyInputView) -> Option<(SecretCopyView, CopyRequestView)> {
        match (self.stage, input) {
            (CopyStage::AwaitConfig, CopyInputView::ConfigInferred(inferred)) => Some(
                match testing_client(self.cluster, inferred) {
                    Ok(cluster_url) => (
                        self.at(CopyStage::AwaitConnection),
                        CopyRequestView::ConnectAmbient { cluster_url },
                    ),
                    Err(error) => self.fail(error),
                },
            ),
            (CopyStage::AwaitCredentials, CopyInputView::KubeconfigSecretFetched(fetched)) => Some(
                match cluster_kubeconfig(self.cluster, fetched) {
                    Ok(text) => match checked_kubeconfig(text, kubeconfig_parse_error(text)) {
                        Ok(kubeconfig) => (
                            self.at(CopyStage::AwaitConnection),
                            CopyRequestView::ConnectKubeconfig { kubeconfig },
                        ),
                        Err(error) => self.fail(error),
                    },
                    Err(error) => self.fail(error),
                },
            ),
            (CopyStage::AwaitConnection, CopyInputView::Connected(outcome)) => Some(
                match connection(outcome) {
                    Ok(_) => (
                        self.at(CopyStage::AwaitNamespace),
                        CopyRequestView::GetNamespace { name: self.target_namespace },
                    ),
                    Err(error) => self.fail(error),
                },
            ),
            (CopyStage::AwaitNamespace, CopyInputView::NamespaceFetched(found)) => Some(
                match namespace_step(self.target_namespace, found) {
                    NamespaceStepView::Exists => self.apply(),
                    NamespaceStepView::Create { name } => (
                        self.at(CopyStage::AwaitNamespaceCreation),
                        CopyRequestView::CreateNamespace { name },
                    ),
                    NamespaceStepView::Failed(error) => self.fail(error),
                },
            ),
            (CopyStage::AwaitNamespaceCreation, CopyInputView::NamespaceCreated(created)) => Some(
                match namespace_creation(created) {
                    Ok(_) => self.apply(),
                    Err(error) => self.fail(error),
                },
            ),
            (CopyStage::AwaitApply, CopyInputView::SecretApplied(applied)) => Some(
                (
                    self.at(CopyStage::Finished),
                    CopyRequestView::Done(
                        match applied {
                            Ok(_) => Ok(()),
                            Err(failure) => Err(OutriderErrorView::KubeError(failure)),
                        },
                    ),
                ),
            ),
            _ => None,
        }
    }
}

/// One copy of one secret into one cluster, under way.
#[derive(Debug)]
pub struct SecretCopy {
    secret: Secret,
    cluster: Cluster,
    target_namespace: String,
    stage: CopyStage,
}

impl View for SecretCopy {
    type V = SecretCopyView;

    closed spec fn view(&self) -> SecretCopyView {
        SecretCopyView {
            secret: self.secret@,
            cluster: self.cluster@,
            target_namespace: self.target_namespace@,
            stage: self.stage,
        }
    }
}

/// Begins the copy of `secret` into `cluster`: resolves the target namespace
/// and asks for the connection to the cluster.
pub fn copy_secret_to_cluster(secret: &Secret, cluster: &Cluster, config: &Config) -> (begun: (
    SecretCopy,
    CopyRequest,
))
    ensures
        (begun.0@, begun.1@) == SecretCopyView::begin(secret@, cluster@, config@),
{
    let target_namespace = get_target_namespace(secret, config).to_owned();
    let source = create_downstream_client(cluster, config);
    match source {
        ClientSource::Ambient => (
            SecretCopy {
                secret: secret.clone(),
                cluster: cluster.clone(),
                target_namespace,
                stage: CopyStage::AwaitConfig,
            },
            CopyRequest::InferConfig,
        ),
        ClientSource::Stored { namespace, name } => (
            SecretCopy {
                secret: secret.clone(),
                cluster: cluster.clone(),
                target_namespace,
                stage: CopyStage::AwaitCredentials,
            },
            CopyRequest::GetKubeconfigSecret { namespace, name },
        ),
    }
}

impl SecretCopy {
    /// What the copy is waiting for.
    pub fn stage(&self) -> (stage: CopyStage)
        ensures
            stage == self@.stage,
    {
        self.stage
    }

    /// The namespace that the secret is copied into.
    pub fn target_namespace(&self) -> (namespace: &str)
        ensures
            namespace@ == self@.target_namespace,
    {
        self.target_namespace.as_str()
    }

    /// Ends the copy by a failure.
    fn fail(&mut self, error: OutriderError) -> (request: CopyRequest)
        ensures
            (final(self)@, request@) == old(self)@.fail(error@),
    {
        self.stage = CopyStage::Finished;
        CopyRequest::Done(Err(error))
    }

    /// Asks for the write of the secret.
    fn apply(&mut self) -> (request: CopyRequest)
        ensures
            (final(self)@, request@) == old(self)@.apply(),
    {
        self.stage = CopyStage::AwaitApply;
        CopyRequest::ApplySecret {
            name: self.secret.name_any(),
            namespace: self.target_namespace.clone(),
            secret: create_downstream_secret(&self.secret, self.target_namespace.as_str()),
            field_manager: OPERATOR_NAME.to_owned(),
            force: true,
        }
    }

    /// Takes the answer to what was asked for last and says what to ask next.
    /// An input that is not what the copy is waiting for is refused with
    /// `None`, and changes nothing.
    pub fn step(&mut self, input: CopyInput) -> (request: Option<CopyRequest>)
        ensures
            match request {
                Some(request) => old(self)@.step(input@) == Some((final(self)@, request@)),
                None => old(self)@.step(input@) is None && final(self)@ == old(self)@,
            },
    {
        match (self.stage, input) {
            (CopyStage::AwaitConfig, CopyInput::ConfigInferred(inferred)) => {
                match create_testing_client(&self.cluster, inferred) {
                    Ok(cluster_url) => {
                        self.stage = CopyStage::AwaitConnection;
                        Some(CopyRequest::ConnectAmbient { cluster_url })
                    },
                    Err(error) => Some(self.fail(error)),
                }
            },
            (CopyStage::AwaitCredentials, CopyInput::KubeconfigSecretFetched(fetched)) => {
                match get_cluster_kubeconfig(&self.cluster, fetched) {
                    Ok(text) => match create_client_from_kubeconfig(text) {
                        Ok(kubeconfig) => {
                            self.stage = CopyStage::AwaitConnection;
                            Some(CopyRequest::ConnectKubeconfig { kubeconfig })
                        },
                        Err(error) => Some(self.fail(error)),
                    },
                    Err(error) => Some(self.fail(error)),
                }
            },
            (CopyStage::AwaitConnection, CopyInput::Connected(outcome)) => {
                match client_connected(outcome) {
                    Ok(_) => {
                        self.stage = CopyStage::AwaitNamespace;
                        Some(CopyRequest::GetNamespace { name: self.target_namespace.clone() })
                    },
                    Err(error) => Some(self.fail(error)),
                }
            },
            (CopyStage::AwaitNamespace, CopyInput::NamespaceFetched(found)) => {
                match ensure_namespace_exists(self.target_namespace.as_str(), found) {
                    NamespaceStep::Exists => Some(self.apply()),
                    NamespaceStep::Create { name } => {
                        self.stage = CopyStage::AwaitNamespaceCreation;
                        Some(CopyRequest::CreateNamespace { name })
                    },
                    NamespaceStep::Failed(error) => Some(self.fail(error)),
                }
            },
            (CopyStage::AwaitNamespaceCreation, CopyInput::NamespaceCreated(created)) => {
                match namespace_created(created) {
                    Ok(_) => Some(self.apply()),
                    Err(error) => Some(self.fail(error)),
                }
            },
            (CopyStage::AwaitApply, CopyInput::SecretApplied(applied)) => {
                self.stage = CopyStage::Finished;
                Some(
                    CopyRequest::Done(
                        match applied {
                            Ok(_) => Ok(()),
                            Err(failure) => Err(OutriderError::KubeError(failure)),
                        },
                    ),
                )
            },
            _ => None,
        }
    }
}

} // verus!
