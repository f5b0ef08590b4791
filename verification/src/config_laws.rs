//! What holds of every configuration of the proxy.

use crate::config;
use crate::config::{Config, ConfigSource, ConfigSourceError, ConfigType, Service};
use vstd::prelude::*;
use vstd::utf8::*;

verus! {

/// A name that stands alone on the command line is downloaded exactly where it is a URL, from the
/// normal form of that URL, and is otherwise read as the file of that very name. It is never refused.
pub proof fn law_a_url_is_downloaded_and_a_name_is_read(
    file: String,
    source: Result<ConfigSource, ConfigSourceError>,
)
    requires
        call_ensures(config::config_source, (Some(file), None), source),
    ensures
        source is Ok,
        source->Ok_0 is Url <==> config::parsed_url(file@) is Some,
        source->Ok_0 is File <==> config::parsed_url(file@) is None,
        source->Ok_0 matches ConfigSource::Url(url) ==> config::parsed_url(file@) == Some(url@),
        source->Ok_0 matches ConfigSource::File(name) ==> name@ == file@,
{
}

/// Whether a name is downloaded does not depend on how it is written, but on the URL alone: two
/// names that stand for one URL are got from one place.
pub proof fn law_names_of_one_url_have_one_source(
    file: String,
    other: String,
    source: Result<ConfigSource, ConfigSourceError>,
    other_source: Result<ConfigSource, ConfigSourceError>,
)
    requires
        call_ensures(config::config_source, (Some(file), None), source),
        call_ensures(config::config_source, (Some(other), None), other_source),
        config::parsed_url(file@) is Some,
        config::parsed_url(file@) == config::parsed_url(other@),
    ensures
        source matches Ok(ConfigSource::Url(url)) && other_source matches Ok(
            ConfigSource::Url(other_url),
        ) && url@ == other_url@,
{
}

/// The source for a file is what its URL says, whichever way the URL was come by.
pub proof fn law_file_source(file: String, url: Option<String>, source: ConfigSource)
    requires
        call_ensures(config::file_source, (file, url), source),
    ensures
        source is Url <==> url is Some,
        source is File <==> url is None,
        source matches ConfigSource::Url(text) ==> url == Some(text),
        source matches ConfigSource::File(name) ==> name == file,
{
}

/// A configuration that stands alone on the command line is used as it is, exactly where it is text:
/// the text encodes to the very bytes. Otherwise the error of the conversion is reported.
pub proof fn law_a_given_configuration_is_kept(
    bytes: Vec<u8>,
    source: Result<ConfigSource, ConfigSourceError>,
)
    requires
        call_ensures(config::config_source, (None, Some(bytes)), source),
    ensures
        source is Ok <==> valid_utf8(bytes@),
        source is Ok ==> source->Ok_0 is Text,
        source matches Ok(ConfigSource::Text(text)) ==> encode_utf8(text@) == bytes@,
        source matches Err(error) ==> error is Utf8 && config::utf8_error(
            bytes@,
            error->Utf8_0,
        ),
{
    if valid_utf8(bytes@) {
        decode_utf8_encode_utf8(bytes@);
    }
}

/// A configuration is got exactly where one of the two options is there and the other is not, but
/// for one that is no text.
pub proof fn law_exactly_one_option(
    file: Option<String>,
    bytes: Option<Vec<u8>>,
    source: Result<ConfigSource, ConfigSourceError>,
)
    requires
        call_ensures(config::config_source, (file, bytes), source),
    ensures
        (source matches Err(error) && error is Both) <==> (file is Some && bytes is Some),
        (source matches Err(error) && error is Neither) <==> (file is None && bytes is None),
        (source matches Err(error) && error is Utf8) ==> (file is None && bytes is Some),
        source matches Ok(found) ==> (found is Text <==> bytes is Some) && (file is Some
            <==> bytes is None),
{
}

/// Which services are started, and in which order, depends on nothing but the kind of configuration
/// and on whether tracing is configured.
pub proof fn law_services_follow_the_kind<S, X, A, M, T>(
    config: Config<S, X, A, M, T>,
    other: Config<S, X, A, M, T>,
    services: Vec<Service>,
    other_services: Vec<Service>,
)
    requires
        call_ensures(Config::<S, X, A, M, T>::services, (&config,), services),
        call_ensures(Config::<S, X, A, M, T>::services, (&other,), other_services),
        config.config_type is Static <==> other.config_type is Static,
        config.tracing is Some <==> other.tracing is Some,
    ensures
        services@ == other_services@,
{
}

/// The client comes first, whether of static settings or of a control plane. The listeners of a
/// control plane are managed by a service of their own; metrics and administration are served in
/// any case, each once, the latter after the former only for static settings; tracing comes last,
/// exactly where it is configured.
pub proof fn law_services_in_order<S, X, A, M, T>(
    config: Config<S, X, A, M, T>,
    services: Vec<Service>,
)
    requires
        call_ensures(Config::<S, X, A, M, T>::services, (&config,), services),
    ensures
        services@.no_duplicates(),
        services@.contains(Service::Tracing) <==> config.tracing is Some,
        config.tracing is Some ==> services@.last() == Service::Tracing,
        config.config_type is Static ==> {
            &&& services@.len() == 3 + (if config.tracing is Some {
                1int
            } else {
                0int
            })
            &&& services@[0] == Service::LocalClient
            &&& services@[1] == Service::Metrics
            &&& services@[2] == Service::Admin
        },
        config.config_type is Xds ==> {
            &&& services@.len() == 4 + (if config.tracing is Some {
                1int
            } else {
                0int
            })
            &&& services@[0] == Service::XdsClient
            &&& services@[1] == Service::Admin
            &&& services@[2] == Service::Listeners
            &&& services@[3] == Service::Metrics
        },
{
    let n = services@.len() as int;
    if config.tracing is Some {
        assert(services@[n - 1] == Service::Tracing);
    }
}

/// The signal to shut down reaches the services of static settings, and those of no control plane.
pub proof fn law_signal<S, X, A, M, T>(config: Config<S, X, A, M, T>, follows: bool)
    requires
        call_ensures(Config::<S, X, A, M, T>::follows_signal, (&config,), follows),
    ensures
        config.config_type matches ConfigType::Static(_) ==> follows,
        config.config_type matches ConfigType::Xds(_) ==> !follows,
{
}

} // verus!
