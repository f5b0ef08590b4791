//! Where the configuration of the proxy comes from, and what it starts.

use vstd::prelude::*;
use vstd::utf8::{decode_utf8, valid_utf8};

verus! {

/// The error of a conversion from UTF-8, opaque.
#[verifier::external_type_specification]
#[verifier::external_body]
pub struct ExUtf8Error(std::str::Utf8Error);

/// What `reqwest::Url::parse` makes of a text: the URL in its normal form, or `None` where the text
/// is no absolute URL.
pub uninterp spec fn parsed_url(text: Seq<char>) -> Option<Seq<char>>;

/// Calls `reqwest::Url::parse`. Its result is a function of the text alone, which [`parsed_url`]
/// names; of the URL, its normal form is returned.
#[verifier::external_body]
fn parse_url(text: &String) -> (url: Option<String>)
    ensures
        match url {
            Some(url) => parsed_url(text@) == Some(url@),
            None => parsed_url(text@) is None,
        },
{
    reqwest::Url::parse(text).ok().map(String::from)
}

/// Whether `std::str::from_utf8` gives this error for these bytes.
pub uninterp spec fn utf8_error(bytes: Seq<u8>, error: std::str::Utf8Error) -> bool;

/// Calls `std::str::from_utf8`, which succeeds exactly on valid UTF-8 and yields the text that the
/// bytes encode. The error that it gives otherwise is one that [`utf8_error`] names.
#[verifier::external_body]
fn utf8_text(bytes: &Vec<u8>) -> (text: Result<String, std::str::Utf8Error>)
    ensures
        match text {
            Ok(text) => valid_utf8(bytes@) && text@ == decode_utf8(bytes@),
            Err(error) => !valid_utf8(bytes@) && utf8_error(bytes@, error),
        },
{
    std::str::from_utf8(bytes).map(String::from)
}

/// Where to get the text of the configuration.
pub enum ConfigSource {
    /// Download it from this URL.
    Url(String),
    /// Read it from the file of this name.
    File(String),
    /// This is it.
    Text(String),
}

/// Why the command line names no configuration.
pub enum ConfigSourceError {
    /// It names a file and holds a configuration too.
    Both,
    /// It does neither.
    Neither,
    /// The configuration that it holds is no text.
    Utf8(std::str::Utf8Error),
}

impl ConfigSourceError {
    /// The text of the report on a command line that is at fault, or `None` where the error is
    /// that of the conversion.
    pub fn usage(&self) -> (usage: Option<&'static str>)
        ensures
            match *self {
                ConfigSourceError::Both => usage is Some && usage->0@
                    == "config error: both --file and --config cannot be provided, exiting"@,
                ConfigSourceError::Neither => usage is Some && usage->0@
                    == "Error: either --file or --config must be provided, exiting"@,
                ConfigSourceError::Utf8(_) => usage is None,
            },
    {
        match self {
            ConfigSourceError::Both => Some(
                "config error: both --file and --config cannot be provided, exiting",
            ),
            ConfigSourceError::Neither => Some(
                "Error: either --file or --config must be provided, exiting",
            ),
            ConfigSourceError::Utf8(_) => None,
        }
    }
}

/// A file name that is a URL is downloaded, any other is read. `url` is the normal form of the
/// name where it is a URL.
pub fn file_source(file: String, url: Option<String>) -> (source: ConfigSource)
    ensures
        source == match url {
            Some(url) => ConfigSource::Url(url),
            None => ConfigSource::File(file),
        },
{
    match url {
        Some(url) => ConfigSource::Url(url),
        None => ConfigSource::File(file),
    }
}

/// Whether this is where a file of this name is to be got.
pub open spec fn got_from(file: String, source: ConfigSource) -> bool {
    match parsed_url(file@) {
        Some(url) => source is Url && source->Url_0@ == url,
        None => source == ConfigSource::File(file),
    }
}

/// Says where the configuration is to be got, from the two options of the command line: the name
/// of a file, and a configuration itself. Exactly one of the two has to be there.
pub fn config_source(file: Option<String>, config: Option<Vec<u8>>) -> (source: Result<
    ConfigSource,
    ConfigSourceError,
>)
    ensures
        match (file, config) {
            (Some(file), None) => source is Ok && got_from(file, source->Ok_0),
            (None, Some(config)) => if valid_utf8(config@) {
                source is Ok && source->Ok_0 is Text && source->Ok_0->Text_0@ == decode_utf8(
                    config@,
                )
            } else {
                source matches Err(ConfigSourceError::Utf8(error)) && utf8_error(config@, error)
            },
            (Some(_), Some(_)) => source == Err::<ConfigSource, _>(ConfigSourceError::Both),
            (None, None) => source == Err::<ConfigSource, _>(ConfigSourceError::Neither),
        },
        file is Some && config is None ==> match parsed_url(file->0@) {
            Some(url) => source matches Ok(ConfigSource::Url(text)) && text@ == url,
            None => source == Ok::<_, ConfigSourceError>(ConfigSource::File(file->0)),
        },
{
    match (file, config) {
        (Some(file), None) => {
            let url = parse_url(&file);
            Ok(file_source(file, url))
        },
        (None, Some(config)) => match utf8_text(&config) {
            Ok(text) => Ok(ConfigSource::Text(text)),
            Err(e) => Err(ConfigSourceError::Utf8(e)),
        },
        (Some(_), Some(_)) => Err(ConfigSourceError::Both),
        (None, None) => Err(ConfigSourceError::Neither),
    }
}

/// How the proxy learns of its listeners and targets: from settings of type `S`, or from a control
/// plane that settings of type `X` tell of.
#[derive(Clone)]
pub enum ConfigType<S, X> {
    Static(S),
    Xds(X),
}

/// The configuration of the proxy. `A`, `M` and `T` are the settings of its administration, metrics
/// and tracing.
#[derive(Clone)]
pub struct Config<S, X, A, M, T> {
    pub config_type: ConfigType<S, X>,
    pub admin: Option<A>,
    pub metrics: Option<M>,
    pub tracing: Option<T>,
}

/// A task that the proxy runs for as long as it lives.
#[derive(Clone, Copy, Debug, PartialEq, Eq, Structural)]
pub enum Service {
    /// Feeds the settings into the proxy, and manages the listeners.
    LocalClient,
    /// Follows the control plane.
    XdsClient,
    /// Manages the listeners.
    Listeners,
    Metrics,
    Admin,
    /// Closes the tracer down at the end.
    Tracing,
}

/// The services of a configuration, in the order in which they are started.
pub open spec fn services_of<S, X, A, M, T>(config: Config<S, X, A, M, T>) -> Seq<Service> {
    let base = match config.config_type {
        ConfigType::Static(_) => seq![Service::LocalClient, Service::Metrics, Service::Admin],
        ConfigType::Xds(_) => seq![
            Service::XdsClient,
            Service::Admin,
            Service::Listeners,
            Service::Metrics,
        ],
    };
    if config.tracing is Some {
        base.push(Service::Tracing)
    } else {
        base
    }
}

impl<S, X, A, M, T> Config<S, X, A, M, T> {
    /// Whether the services stop at the signal to shut down. Those of a control plane do not.
    pub fn follows_signal(&self) -> (follows: bool)
        ensures
            follows == (self.config_type is Static),
    {
        match &self.config_type {
            ConfigType::Static(_) => true,
            ConfigType::Xds(_) => false,
        }
    }

    /// The services that the proxy is to run, in the order in which they are started.
    pub fn services(&self) -> (services: Vec<Service>)
        ensures
            services@ == services_of(*self),
    {
        let mut services: Vec<Service> = Vec::new();
        match &self.config_type {
            ConfigType::Static(_) => {
                services.push(Service::LocalClient);
                services.push(Service::Metrics);
                services.push(Service::Admin);
            },
            ConfigType::Xds(_) => {
                services.push(Service::XdsClient);
                services.push(Service::Admin);
                services.push(Service::Listeners);
                services.push(Service::Metrics);
            },
        }
        if self.tracing.is_some() {
            services.push(Service::Tracing);
        }
        assert(services@ =~= services_of(*self));
        services
    }
}

/// Every proxy serves its metrics and its administration, and its listeners are managed by exactly
/// one service; tracing runs exactly where it is configured, and no service runs twice.
pub proof fn law_services<S, X, A, M, T>(config: Config<S, X, A, M, T>)
    ensures
        ({
            let services = services_of(config);
            &&& services.no_duplicates()
            &&& services.contains(Service::Metrics)
            &&& services.contains(Service::Admin)
            &&& services.contains(Service::LocalClient) <==> config.config_type is Static
            &&& services.contains(Service::XdsClient) <==> config.config_type is Xds
            &&& services.contains(Service::Listeners) <==> config.config_type is Xds
            &&& services.contains(Service::Tracing) <==> config.tracing is Some
        }),
{
    let services = services_of(config);
    if config.config_type is Static {
        assert(services[0] == Service::LocalClient);
        assert(services[1] == Service::Metrics);
        assert(services[2] == Service::Admin);
        assert(config.tracing is Some ==> services[3] == Service::Tracing);
    } else {
        assert(services[0] == Service::XdsClient);
        assert(services[1] == Service::Admin);
        assert(services[2] == Service::Listeners);
        assert(services[3] == Service::Metrics);
        assert(config.tracing is Some ==> services[4] == Service::Tracing);
    }
}

} // verus!
