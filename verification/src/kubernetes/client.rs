//! Where the connection to a downstream cluster comes from.

use vstd::prelude::*;
use vstd::string::*;
use vstd::utf8::{decode_utf8, valid_utf8};
use crate::config::{Config, ConfigView};
use crate::error::{ApiError, ApiErrorView, OutriderError, OutriderErrorView};
use crate::text::{
    before_last_segment, join, join3, join4, last_path_segment, last_segment,
    lemma_before_last_segment_ends_in_slash, lemma_last_segment_splits, str_eq,
    with_last_segment,
};
use crate::types::cluster::{Cluster, ClusterView};
use crate::types::secret::{Secret, SecretView};

verus! {

/// The namespace in which a cluster's credentials are looked for where the
/// cluster object names none.
pub const CREDENTIALS_NAMESPACE: &'static str = "cattle-system";

/// The key under which a credentials object holds the connection descriptor.
pub const KUBECONFIG_KEY: &'static str = "value";

/// The last path segment of the ambient cluster URL that is replaced in testing mode.
pub const LOCAL_SEGMENT: &'static str = "local";

/// What `http::Uri`'s `from_str` makes of a text: `None` where it parses as a
/// URI, else the text of the error.
pub uninterp spec fn uri_parse_error(text: Seq<char>) -> Option<Seq<char>>;

/// What `serde_yaml::from_str` makes of a text when a `kube::config::Kubeconfig`
/// is asked for: `None` where it yields one, else the text of the error.
pub uninterp spec fn kubeconfig_parse_error(text: Seq<char>) -> Option<Seq<char>>;

/// The text of the error with which `String::from_utf8` refuses bytes that are
/// not UTF-8.
pub uninterp spec fn utf8_error(bytes: Seq<u8>) -> Seq<char>;

/// Calls `from_str` of `http::Uri`, which parses `text` as a URI, and hands
/// back the text of the error where it fails. Whether the call fails, and
/// with which error, is decided by the text alone.
#[verifier::external_body]
fn parse_uri(text: &str) -> (error: Option<String>)
    ensures
        error.deep_view() == uri_parse_error(text@),
{
    match text.parse::<http::Uri>() {
        Ok(_) => None,
        Err(error) => Some(error.to_string()),
    }
}

/// Calls `serde_yaml::from_str` for a `kube::config::Kubeconfig`, which reads
/// `text` as YAML of that shape, and hands back the text of the error where
/// it fails. Whether the call fails, and with which error, is decided by the
/// text alone.
#[verifier::external_body]
fn parse_kubeconfig(text: &str) -> (error: Option<String>)
    ensures
        error.deep_view() == kubeconfig_parse_error(text@),
{
    match serde_yaml::from_str::<kube::config::Kubeconfig>(text) {
        Ok(_) => None,
        Err(error) => Some(error.to_string()),
    }
}

/// Calls `String::from_utf8`, which turns bytes that are UTF-8 into the string
/// that they encode and refuses all others. A refusal is handed back as the
/// error's own text.
#[verifier::external_body]
fn string_from_utf8(bytes: Vec<u8>) -> (decoded: Result<String, String>)
    ensures
        match decoded {
            Ok(text) => valid_utf8(bytes@) && text@ == decode_utf8(bytes@),
            Err(error) => !valid_utf8(bytes@) && error@ == utf8_error(bytes@),
        },
{
    match String::from_utf8(bytes) {
        Ok(text) => Ok(text),
        Err(error) => Err(error.to_string()),
    }
}

/// Where the connection to a downstream cluster is taken from.
#[derive(Debug)]
pub enum ClientSource {
    /// From the ambient connection descriptor, as testing mode has it.
    Ambient,
    /// From the credentials object of this name in this namespace of the
    /// management cluster.
    Stored { namespace: String, name: String },
}

/// What a `ClientSource` holds, as mathematical values.
pub enum ClientSourceView {
    Ambient,
    Stored { namespace: Seq<char>, name: Seq<char> },
}

impl View for ClientSource {
    type V = ClientSourceView;

    open spec fn view(&self) -> ClientSourceView {
        match self {
            ClientSource::Ambient => ClientSourceView::Ambient,
            ClientSource::Stored { namespace, name } => ClientSourceView::Stored {
                namespace: namespace@,
                name: name@,
            },
        }
    }
}

/// Which part of making the connection failed.
#[derive(Debug)]
pub enum ConnectError {
    /// No client configuration could be made of the connection descriptor.
    Config(String),
    /// No client could be made of the configuration.
    Client(String),
}

/// What a `ConnectError` holds, as mathematical values.
pub enum ConnectErrorView {
    Config(Seq<char>),
    Client(Seq<char>),
}

impl View for ConnectError {
    type V = ConnectErrorView;

    open spec fn view(&self) -> ConnectErrorView {
        match self {
            ConnectError::Config(text) => ConnectErrorView::Config(text@),
            ConnectError::Client(text) => ConnectErrorView::Client(text@),
        }
    }
}

/// The source of the connection to `cluster`: the ambient descriptor in
/// testing mode, else the cluster's credentials object, looked for in the
/// cluster object's namespace or, where it has none, in `cattle-system`.
pub open spec fn client_source(cluster: ClusterView, config: ConfigView) -> ClientSourceView {
    if config.testing_mode {
        ClientSourceView::Ambient
    } else {
        ClientSourceView::Stored {
            namespace: match cluster.metadata.namespace {
                Some(namespace) => namespace,
                None => CREDENTIALS_NAMESPACE@,
            },
            name: cluster.kubeconfig_secret_name(),
        }
    }
}

/// The cluster URL that testing mode puts in place of the ambient one: where
/// the ambient URL ends in the path segment `local`, that segment is replaced
/// by the cluster's internal name and the rest is kept; any other URL is left
/// alone.
pub open spec fn testing_cluster_url(cluster: ClusterView, ambient: Seq<char>) -> Option<
    Seq<char>,
> {
    if last_segment(ambient) == LOCAL_SEGMENT@ {
        Some(before_last_segment(ambient) + cluster.internal_name())
    } else {
        None
    }
}

/// Testing mode replaces the last segment and nothing else. Where it puts
/// another URL in place of the ambient one, the ambient URL is some text that
/// ends in `'/'` or is empty, followed by `local`, and the other URL is the
/// same text followed by the cluster's internal name.
pub proof fn lemma_testing_url_replaces_the_last_segment(cluster: ClusterView, ambient: Seq<char>)
    ensures
        match testing_cluster_url(cluster, ambient) {
            Some(url) => {
                &&& ambient == before_last_segment(ambient) + LOCAL_SEGMENT@
                &&& url == before_last_segment(ambient) + cluster.internal_name()
                &&& before_last_segment(ambient).len() > 0 ==> before_last_segment(
                    ambient,
                ).last() == '/'
            },
            None => last_segment(ambient) != LOCAL_SEGMENT@,
        },
{
    lemma_last_segment_splits(ambient);
    lemma_before_last_segment_ends_in_slash(ambient);
}

/// What is made of a replaced cluster URL once it was parsed.
pub open spec fn checked_url(text: Seq<char>, error: Option<Seq<char>>) -> Result<
    Seq<char>,
    OutriderErrorView,
> {
    match error {
        None => Ok(text),
        Some(error) => Err(OutriderErrorView::KubeconfigError("Invalid URL: "@ + error)),
    }
}

/// The cluster URL to connect to in testing mode, if another than the ambient
/// one, given the ambient URL or the text of the error that kept it from
/// being read.
pub open spec fn testing_client(cluster: ClusterView, inferred: Result<Seq<char>, Seq<char>>) -> Result<
    Option<Seq<char>>,
    OutriderErrorView,
> {
    match inferred {
        Err(error) => Err(OutriderErrorView::KubeconfigError("Failed to infer config: "@ + error)),
        Ok(ambient) => match testing_cluster_url(cluster, ambient) {
            None => Ok(None),
            Some(url) => match checked_url(url, uri_parse_error(url)) {
                Ok(url) => Ok(Some(url)),
                Err(error) => Err(error),
            },
        },
    }
}

/// The bytes of the connection descriptor in what was fetched as the
/// credentials object of the cluster of this name.
pub open spec fn stored_kubeconfig(cluster_name: Seq<char>, fetched: Result<SecretView, ApiErrorView>) -> Result<
    Seq<u8>,
    OutriderErrorView,
> {
    match fetched {
        Err(failure) => Err(
            OutriderErrorView::KubeconfigError(
                "Failed to get kubeconfig secret for cluster "@ + cluster_name + ": "@
                    + failure.message,
            ),
        ),
        Ok(secret) => match secret.data {
            None => Err(
                OutriderErrorView::KubeconfigError(
                    "Kubeconfig secret for cluster "@ + cluster_name + " has no data"@,
                ),
            ),
            Some(data) => if data.contains_key(KUBECONFIG_KEY@) {
                Ok(data[KUBECONFIG_KEY@])
            } else {
                Err(
                    OutriderErrorView::KubeconfigError(
                        "Kubeconfig secret for cluster "@ + cluster_name
                            + " does not contain 'value' key"@,
                    ),
                )
            },
        },
    }
}

/// What is made of the stored bytes once they were decoded.
pub open spec fn decoded(cluster_name: Seq<char>, decoded: Result<Seq<char>, Seq<char>>) -> Result<
    Seq<char>,
    OutriderErrorView,
> {
    match decoded {
        Ok(text) => Ok(text),
        Err(error) => Err(
            OutriderErrorView::KubeconfigError(
                "Failed to decode kubeconfig for cluster "@ + cluster_name + ": "@ + error,
            ),
        ),
    }
}

/// The connection descriptor of the cluster as text, given what was fetched
/// as its credentials object.
pub open spec fn cluster_kubeconfig(cluster: ClusterView, fetched: Result<SecretView, ApiErrorView>) -> Result<
    Seq<char>,
    OutriderErrorView,
> {
    let cluster_name = cluster.metadata.name_any();
    match stored_kubeconfig(cluster_name, fetched) {
        Err(error) => Err(error),
        Ok(bytes) => decoded(
            cluster_name,
            if valid_utf8(bytes) {
                Ok(decode_utf8(bytes))
            } else {
                Err(utf8_error(bytes))
            },
        ),
    }
}

/// What is made of a connection descriptor once it was parsed.
pub open spec fn checked_kubeconfig(text: Seq<char>, error: Option<Seq<char>>) -> Result<
    Seq<char>,
    OutriderErrorView,
> {
    match error {
        None => Ok(text),
        Some(error) => Err(OutriderErrorView::KubeconfigError("Failed to parse kubeconfig: "@ + error)),
    }
}

/// What is made of the attempt to connect.
pub open spec fn connection(outcome: Result<(), ConnectErrorView>) -> Result<(), OutriderErrorView> {
    match outcome {
        Ok(_) => Ok(()),
        Err(ConnectErrorView::Config(error)) => Err(
            OutriderErrorView::KubeconfigError("Failed to create config: "@ + error),
        ),
        Err(ConnectErrorView::Client(error)) => Err(
            OutriderErrorView::KubeconfigError("Failed to create client: "@ + error),
        ),
    }
}

/// Decides where the connection to `cluster` is taken from.
pub fn create_downstream_client(cluster: &Cluster, config: &Config) -> (source: ClientSource)
    ensures
        source@ == client_source(cluster@, config@),
{
    if config.testing_mode {
        ClientSource::Ambient
    } else {
        let namespace = match cluster.namespace() {
            Some(namespace) => namespace,
            None => CREDENTIALS_NAMESPACE.to_owned(),
        };
        ClientSource::Stored { namespace, name: cluster.kubeconfig_secret_name() }
    }
}

/// Takes the outcome of parsing a replaced cluster URL: the URL where it
/// parsed, or the error that marks it as invalid.
pub fn cluster_url_parsed(text: String, error: Option<String>) -> (checked: Result<
    String,
    OutriderError,
>)
    ensures
        match checked {
            Ok(url) => checked_url(text@, error.deep_view()) == Ok::<Seq<char>, OutriderErrorView>(
                url@,
            ),
            Err(invalid) => checked_url(text@, error.deep_view()) == Err::<
                Seq<char>,
                OutriderErrorView,
            >(invalid@),
        },
{
    match error {
        None => Ok(text),
        Some(error) => Err(OutriderError::KubeconfigError(join("Invalid URL: ", error.as_str()))),
    }
}

/// Decides the cluster URL for testing mode, given the URL of the ambient
/// connection descriptor or the text of the error that kept it from being
/// read. `None` stands for the ambient URL itself.
pub fn create_testing_client(cluster: &Cluster, inferred: Result<String, String>) -> (made: Result<
    Option<String>,
    OutriderError,
>)
    ensures
        match made {
            Ok(url) => testing_client(
                cluster@,
                match inferred {
                    Ok(ambient) => Ok(ambient@),
                    Err(error) => Err(error@),
                },
            ) == Ok::<Option<Seq<char>>, OutriderErrorView>(url.deep_view()),
            Err(error) => testing_client(
                cluster@,
                match inferred {
                    Ok(ambient) => Ok(ambient@),
                    Err(error) => Err(error@),
                },
            ) == Err::<Option<Seq<char>>, OutriderErrorView>(error@),
        },
{
    match inferred {
        Err(error) => Err(
            OutriderError::KubeconfigError(join("Failed to infer config: ", error.as_str())),
        ),
        Ok(ambient) => {
            let segment = last_path_segment(ambient.as_str());
            if str_eq(segment.as_str(), LOCAL_SEGMENT) {
                let internal_name = cluster.internal_name();
                let url = with_last_segment(ambient.as_str(), internal_name.as_str());
                let error = parse_uri(url.as_str());
                match cluster_url_parsed(url, error) {
                    Ok(url) => Ok(Some(url)),
                    Err(error) => Err(error),
                }
            } else {
                Ok(None)
            }
        },
    }
}

/// Finds the bytes of the connection descriptor in what was fetched as the
/// credentials object of the cluster of this name.
pub fn find_stored_kubeconfig(cluster_name: &str, fetched: Result<Secret, ApiError>) -> (found:
    Result<Vec<u8>, OutriderError>)
    ensures
        match found {
            Ok(bytes) => stored_kubeconfig(
                cluster_name@,
                match fetched {
                    Ok(secret) => Ok(secret@),
                    Err(failure) => Err(failure@),
                },
            ) == Ok::<Seq<u8>, OutriderErrorView>(bytes@),
            Err(error) => stored_kubeconfig(
                cluster_name@,
                match fetched {
                    Ok(secret) => Ok(secret@),
                    Err(failure) => Err(failure@),
                },
            ) == Err::<Seq<u8>, OutriderErrorView>(error@),
        },
{
    match fetched {
        Err(failure) => Err(
            OutriderError::KubeconfigError(
                join4(
                    "Failed to get kubeconfig secret for cluster ",
                    cluster_name,
                    ": ",
                    failure.message.as_str(),
                ),
            ),
        ),
        Ok(secret) => match &secret.data {
            None => Err(
                OutriderError::KubeconfigError(
                    join3("Kubeconfig secret for cluster ", cluster_name, " has no data"),
                ),
            ),
            Some(data) => match data.get(KUBECONFIG_KEY) {
                Some(bytes) => {
                    let copy = bytes.clone();
                    assert(copy@ =~= bytes@);
                    assert(bytes.deep_view() =~= bytes@);
                    Ok(copy)
                },
                None => Err(
                    OutriderError::KubeconfigError(
                        join3(
                            "Kubeconfig secret for cluster ",
                            cluster_name,
                            " does not contain 'value' key",
                        ),
                    ),
                ),
            },
        },
    }
}

/// Takes the outcome of decoding the stored bytes: the text, or the error that
/// marks the stored descriptor as undecodable.
pub fn kubeconfig_decoded(cluster_name: &str, outcome: Result<String, String>) -> (text: Result<
    String,
    OutriderError,
>)
    ensures
        match text {
            Ok(text) => decoded(
                cluster_name@,
                match outcome {
                    Ok(text) => Ok(text@),
                    Err(error) => Err(error@),
                },
            ) == Ok::<Seq<char>, OutriderErrorView>(text@),
            Err(error) => decoded(
                cluster_name@,
                match outcome {
                    Ok(text) => Ok(text@),
                    Err(error) => Err(error@),
                },
            ) == Err::<Seq<char>, OutriderErrorView>(error@),
        },
{
    match outcome {
        Ok(text) => Ok(text),
        Err(error) => Err(
            OutriderError::KubeconfigError(
                join4(
                    "Failed to decode kubeconfig for cluster ",
                    cluster_name,
                    ": ",
                    error.as_str(),
                ),
            ),
        ),
    }
}

/// Reads the connection descriptor of `cluster` out of what was fetched as its
/// credentials object.
pub fn get_cluster_kubeconfig(cluster: &Cluster, fetched: Result<Secret, ApiError>) -> (text:
    Result<String, OutriderError>)
    ensures
        match text {
            Ok(text) => cluster_kubeconfig(
                cluster@,
                match fetched {
                    Ok(secret) => Ok(secret@),
                    Err(failure) => Err(failure@),
                },
            ) == Ok::<Seq<char>, OutriderErrorView>(text@),
            Err(error) => cluster_kubeconfig(
                cluster@,
                match fetched {
                    Ok(secret) => Ok(secret@),
                    Err(failure) => Err(failure@),
                },
            ) == Err::<Seq<char>, OutriderErrorView>(error@),
        },
{
    let cluster_name = cluster.name_any();
    match find_stored_kubeconfig(cluster_name.as_str(), fetched) {
        Err(error) => Err(error),
        Ok(bytes) => {
            let outcome = string_from_utf8(bytes);
            kubeconfig_decoded(cluster_name.as_str(), outcome)
        },
    }
}

/// Takes the outcome of parsing a connection descriptor: the text where it
/// parsed, or the error that marks the text as none.
pub fn kubeconfig_parsed(text: String, error: Option<String>) -> (checked: Result<
    String,
    OutriderError,
>)
    ensures
        match checked {
            Ok(descriptor) => checked_kubeconfig(text@, error.deep_view()) == Ok::<
                Seq<char>,
                OutriderErrorView,
            >(descriptor@),
            Err(invalid) => checked_kubeconfig(text@, error.deep_view()) == Err::<
                Seq<char>,
                OutriderErrorView,
            >(invalid@),
        },
{
    match error {
        None => Ok(text),
        Some(error) => Err(
            OutriderError::KubeconfigError(join("Failed to parse kubeconfig: ", error.as_str())),
        ),
    }
}

/// Checks that a text is a connection descriptor, so that a client can be
/// made of it.
pub fn create_client_from_kubeconfig(kubeconfig: String) -> (parsed: Result<String, OutriderError>)
    ensures
        match parsed {
            Ok(descriptor) => checked_kubeconfig(kubeconfig@, kubeconfig_parse_error(kubeconfig@))
                == Ok::<Seq<char>, OutriderErrorView>(descriptor@),
            Err(error) => checked_kubeconfig(kubeconfig@, kubeconfig_parse_error(kubeconfig@))
                == Err::<Seq<char>, OutriderErrorView>(error@),
        },
{
    let error = parse_kubeconfig(kubeconfig.as_str());
    kubeconfig_parsed(kubeconfig, error)
}

/// Takes how the attempt to connect ended: a failure is a malformed
/// credential, whichever part failed.
pub fn client_connected(outcome: Result<(), ConnectError>) -> (connected: Result<(), OutriderError>)
    ensures
        match connected {
            Ok(_) => outcome is Ok,
            Err(error) => outcome is Err && Err::<(), OutriderErrorView>(error@) == connection(
                Err(outcome->Err_0@),
            ),
        },
{
    match outcome {
        Ok(_) => Ok(()),
        Err(ConnectError::Config(error)) => Err(
            OutriderError::KubeconfigError(join("Failed to create config: ", error.as_str())),
        ),
        Err(ConnectError::Client(error)) => Err(
            OutriderError::KubeconfigError(join("Failed to create client: ", error.as_str())),
        ),
    }
}

} // verus!
