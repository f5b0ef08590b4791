//! What holds of every server configuration.

use std::sync::Arc;

use crate::peers::Peers;
use crate::tls;
use crate::tls::{
    KeyFormat, MissingPart, PemLabel, PrivateKey, ServerConfigError, TlsSources,
};
use crate::xds::{LocalDataSource, XdsTlsConfig};
use rustls::ServerConfig;
use vstd::prelude::*;

verus! {

/// Certificates are taken out of the parts of a text one after the other.
proof fn lemma_certificates_add(a: Seq<(PemLabel, Seq<u8>)>, b: Seq<(PemLabel, Seq<u8>)>)
    ensures
        tls::certificates_in(a + b) == tls::certificates_in(a) + tls::certificates_in(b),
    decreases a.len(),
{
    if a.len() == 0 {
        assert(a + b =~= b);
        assert(tls::certificates_in(a) + tls::certificates_in(b) =~= tls::certificates_in(b));
    } else {
        lemma_certificates_add(a.drop_first(), b);
        assert((a + b).drop_first() =~= a.drop_first() + b);
        assert((a + b)[0] == a[0]);
        match a[0] {
            (PemLabel::Certificate, der) => {
                assert(seq![der] + (tls::certificates_in(a.drop_first()) + tls::certificates_in(b))
                    =~= (seq![der] + tls::certificates_in(a.drop_first()))
                    + tls::certificates_in(b));
            },
            _ => {},
        }
    }
}

/// The certificates of a text are its sections of that label, each of them, in order.
proof fn lemma_certificates_are_all(sections: Seq<(PemLabel, Seq<u8>)>)
    ensures
        tls::certificates_in(sections) == sections.filter(
            |section: (PemLabel, Seq<u8>)| section.0 is Certificate,
        ).map_values(|section: (PemLabel, Seq<u8>)| section.1),
    decreases sections.len(),
{
    reveal(Seq::filter);
    let labelled = |section: (PemLabel, Seq<u8>)| section.0 is Certificate;
    let body = |section: (PemLabel, Seq<u8>)| section.1;
    if sections.len() == 0 {
        assert(sections.filter(labelled).map_values(body) =~= Seq::<Seq<u8>>::empty());
    } else {
        let front = sections.drop_last();
        let last = sections.last();
        lemma_certificates_are_all(front);
        lemma_certificates_add(front, seq![last]);
        assert(front + seq![last] =~= sections);
        assert(seq![last].drop_first() =~= Seq::<(PemLabel, Seq<u8>)>::empty());
        assert(tls::certificates_in(seq![last].drop_first()) =~= Seq::<Seq<u8>>::empty());
        if labelled(last) {
            assert(tls::certificates_in(seq![last]) =~= seq![last.1]);
            assert(front.filter(labelled).push(last).map_values(body) =~= front.filter(
                labelled,
            ).map_values(body) + seq![last.1]);
        } else {
            assert(tls::certificates_in(seq![last]) =~= Seq::<Seq<u8>>::empty());
            assert(front.filter(labelled).map_values(body) + Seq::<Seq<u8>>::empty()
                =~= front.filter(labelled).map_values(body));
        }
    }
}

/// The certificate at a place of a text is preceded by those before it.
proof fn lemma_certificate_at(sections: Seq<(PemLabel, Seq<u8>)>, i: int)
    requires
        0 <= i < sections.len(),
        sections[i].0 is Certificate,
    ensures
        ({
            let place = sections.take(i).filter(
                |section: (PemLabel, Seq<u8>)| section.0 is Certificate,
            ).len() as int;
            &&& place < tls::certificates_in(sections).len()
            &&& tls::certificates_in(sections)[place] == sections[i].1
        }),
{
    let front = sections.take(i);
    let back = sections.skip(i);
    lemma_certificates_are_all(front);
    lemma_certificates_add(front, back);
    assert(front + back =~= sections);
    assert(back[0] == sections[i]);
    assert(tls::certificates_in(back)[0] == sections[i].1);
}

/// The first private key of a text is the section of such a label that no other comes before.
proof fn lemma_first_key_place(sections: Seq<(PemLabel, Seq<u8>)>) -> (place: int)
    ensures
        match tls::first_key(sections) {
            Some(key) => {
                &&& 0 <= place < sections.len()
                &&& sections[place] == (PemLabel::Key(key.0), key.1)
                &&& forall|j: int| 0 <= j < place ==> !((#[trigger] sections[j]).0 is Key)
            },
            None => forall|j: int|
                0 <= j < sections.len() ==> !((#[trigger] sections[j]).0 is Key),
        },
    decreases sections.len(),
{
    if sections.len() == 0 {
        0
    } else if sections[0].0 is Key {
        0
    } else {
        let rest = sections.drop_first();
        let place = lemma_first_key_place(rest);
        assert forall|j: int|
            0 < j < sections.len() && (tls::first_key(sections) is None || j <= place) implies !((
        #[trigger] sections[j]).0 is Key) by {
            assert(rest[j - 1] == sections[j]);
        }
        place + 1
    }
}

/// What a configuration holds that these texts can make.
pub proof fn lemma_configuration(key: Seq<u8>, cert: Seq<u8>, config: Arc<ServerConfig>)
    requires
        tls::config_answer(key, cert, Some(Ok(config))),
    ensures
        ({
            let sections = tls::pem_reading(cert).0;
            let chain = tls::config_chain(*config);
            let labelled = |section: (PemLabel, Seq<u8>)| section.0 is Certificate;
            &&& tls::pem_reading(cert).1
            &&& chain.len() > 0
            &&& chain.len() == sections.filter(labelled).len()
            &&& forall|n: int|
                0 <= n < chain.len() ==> #[trigger] chain[n] == sections.filter(labelled)[n].1
            &&& forall|i: int|
                0 <= i < sections.len() && (#[trigger] sections[i]).0 is Certificate
                    ==> chain[sections.take(i).filter(labelled).len() as int] == sections[i].1
        }),
        ({
            let sections = tls::pem_reading(key).0;
            let signer = tls::config_key(*config);
            exists|i: int|
                {
                    &&& 0 <= i < sections.len()
                    &&& #[trigger] sections[i] == (PemLabel::Key(signer.0), signer.1)
                    &&& forall|j: int| 0 <= j < i ==> !((#[trigger] sections[j]).0 is Key)
                }
        }),
        tls::identity_accepted(
            tls::config_chain(*config),
            tls::config_key(*config).0,
            tls::config_key(*config).1,
        ),
        tls::config_alpn(*config).len() == 2,
        tls::config_alpn(*config)[0] == seq![0x68u8, 0x32u8],
        tls::config_alpn(*config)[1] == seq![
            0x68u8,
            0x74u8,
            0x74u8,
            0x70u8,
            0x2fu8,
            0x31u8,
            0x2eu8,
            0x31u8,
        ],
        !tls::config_client_auth(*config),
{
    let sections = tls::pem_reading(cert).0;
    lemma_certificates_are_all(sections);
    assert forall|i: int|
        0 <= i < sections.len() && (#[trigger] sections[i]).0 is Certificate implies {
        let place = sections.take(i).filter(
            |section: (PemLabel, Seq<u8>)| section.0 is Certificate,
        ).len() as int;
        tls::config_chain(*config)[place] == sections[i].1
    } by {
        lemma_certificate_at(sections, i);
    }
    let place = lemma_first_key_place(tls::pem_reading(key).0);
    assert(tls::pem_reading(key).0[place] == (
        PemLabel::Key(tls::config_key(*config).0),
        tls::config_key(*config).1,
    ));
}

/// What an error tells that these texts can give.
pub proof fn lemma_refusal(key: Seq<u8>, cert: Seq<u8>, error: ServerConfigError)
    requires
        tls::config_answer(key, cert, Some(Err(error))),
    ensures
        match error {
            ServerConfigError::KeyPem(e) => {
                &&& tls::pem_key_error(key, e)
                &&& forall|i: int|
                    0 <= i < tls::pem_reading(key).0.len() ==> !((#[trigger] tls::pem_reading(
                        key,
                    ).0[i]).0 is Key)
            },
            ServerConfigError::Identity(e) => {
                let chain = tls::pem_reading(cert).0.filter(
                    |section: (PemLabel, Seq<u8>)| section.0 is Certificate,
                ).map_values(|section: (PemLabel, Seq<u8>)| section.1);
                let sections = tls::pem_reading(key).0;
                exists|i: int, format: KeyFormat|
                    {
                        &&& 0 <= i < sections.len()
                        &&& sections[i].0 == PemLabel::Key(format)
                        &&& forall|j: int| 0 <= j < i ==> !((#[trigger] sections[j]).0 is Key)
                        &&& #[trigger] tls::refused_with(chain, format, sections[i].1, e)
                    }
            },
        },
{
    let sections = tls::pem_reading(key).0;
    lemma_certificates_are_all(tls::pem_reading(cert).0);
    let place = lemma_first_key_place(sections);
    match error {
        ServerConfigError::Identity(e) => {
            let (format, _) = tls::first_key(sections)->0;
            let chain = tls::pem_reading(cert).0.filter(
                |section: (PemLabel, Seq<u8>)| section.0 is Certificate,
            ).map_values(|section: (PemLabel, Seq<u8>)| section.1);
            assert(tls::refused_with(chain, format, sections[place].1, e));
        },
        _ => {},
    }
}

/// A text out of which a private key is read has a section of such a label.
pub proof fn lemma_key_is_there(key: Seq<u8>)
    ensures
        tls::pem_private_key(key) is Some ==> exists|i: int|
            0 <= i < tls::pem_reading(key).0.len() && (#[trigger] tls::pem_reading(key).0[i]).0
                is Key,
{
    let place = lemma_first_key_place(tls::pem_reading(key).0);
    if tls::pem_private_key(key) is Some {
        assert(tls::pem_reading(key).0[place].0 is Key);
    }
}

/// A configuration is made of the whole of what its texts hold. It presents every certificate of the
/// certificate text, however many there are, each at its place among them, and nothing else. It
/// signs with the first private key of the key text. It offers HTTP/2 and then HTTP/1.1, and asks no
/// client for a certificate.
pub proof fn law_configuration_holds_chain_and_key(
    key: Vec<u8>,
    cert: Vec<u8>,
    config: Arc<ServerConfig>,
)
    requires
        ({
            ||| call_ensures(tls::try_server_config, (&key, &cert), Some(Ok(config)))
            ||| call_ensures(tls::rustls_server_config, (&key, &cert), Ok(config))
                && tls::pem_reading(cert@).1
        }),
    ensures
        ({
            let sections = tls::pem_reading(cert@).0;
            let chain = tls::config_chain(*config);
            let labelled = |section: (PemLabel, Seq<u8>)| section.0 is Certificate;
            &&& tls::pem_reading(cert@).1
            &&& chain.len() > 0
            &&& chain.len() == sections.filter(labelled).len()
            &&& forall|n: int|
                0 <= n < chain.len() ==> #[trigger] chain[n] == sections.filter(labelled)[n].1
            &&& forall|i: int|
                0 <= i < sections.len() && (#[trigger] sections[i]).0 is Certificate
                    ==> chain[sections.take(i).filter(labelled).len() as int] == sections[i].1
        }),
        ({
            let sections = tls::pem_reading(key@).0;
            let signer = tls::config_key(*config);
            exists|i: int|
                {
                    &&& 0 <= i < sections.len()
                    &&& #[trigger] sections[i] == (PemLabel::Key(signer.0), signer.1)
                    &&& forall|j: int| 0 <= j < i ==> !((#[trigger] sections[j]).0 is Key)
                }
        }),
        tls::identity_accepted(
            tls::config_chain(*config),
            tls::config_key(*config).0,
            tls::config_key(*config).1,
        ),
        tls::config_alpn(*config).len() == 2,
        tls::config_alpn(*config)[0] == seq![0x68u8, 0x32u8],
        tls::config_alpn(*config)[1] == seq![
            0x68u8,
            0x74u8,
            0x74u8,
            0x70u8,
            0x2fu8,
            0x31u8,
            0x2eu8,
            0x31u8,
        ],
        !tls::config_client_auth(*config),
{
    lemma_configuration(key@, cert@, config);
}

/// A key text without a private key is reported as such, whatever the certificate text is, with an
/// error that the reader gives for it; a key text with one never is.
pub proof fn law_key_error_means_no_key(
    key: Vec<u8>,
    cert: Vec<u8>,
    answer: Option<Result<Arc<ServerConfig>, ServerConfigError>>,
)
    requires
        ({
            ||| call_ensures(tls::try_server_config, (&key, &cert), answer)
            ||| answer is Some && call_ensures(
                tls::rustls_server_config,
                (&key, &cert),
                answer->0,
            )
        }),
    ensures
        ({
            let sections = tls::pem_reading(key@).0;
            (forall|i: int| 0 <= i < sections.len() ==> !((#[trigger] sections[i]).0 is Key))
                <==> (answer matches Some(Err(error)) && error is KeyPem)
        }),
        answer matches Some(Err(ServerConfigError::KeyPem(error))) ==> tls::pem_key_error(
            key@,
            error,
        ),
{
    let sections = tls::pem_reading(key@).0;
    let place = lemma_first_key_place(sections);
    if tls::first_key(sections) is Some {
        assert(sections[place].0 is Key);
    }
}

/// What becomes of a key text with a private key, the first of which is at `i`. Nothing is made of
/// it exactly where the certificate text is malformed. A refusal is one that `rustls` can give for
/// all certificates of the certificate text and that key, and for a PKCS#1 key it is certain. Where
/// `rustls` can give none, a configuration is made.
pub proof fn law_refusal_is_of_the_chain_and_the_key(
    key: Vec<u8>,
    cert: Vec<u8>,
    answer: Option<Result<Arc<ServerConfig>, ServerConfigError>>,
    i: int,
    format: KeyFormat,
)
    requires
        ({
            ||| call_ensures(tls::try_server_config, (&key, &cert), answer)
            ||| answer is Some && tls::pem_reading(cert@).1 && call_ensures(
                tls::rustls_server_config,
                (&key, &cert),
                answer->0,
            )
        }),
        0 <= i < tls::pem_reading(key@).0.len(),
        tls::pem_reading(key@).0[i].0 == PemLabel::Key(format),
        forall|j: int| 0 <= j < i ==> !((#[trigger] tls::pem_reading(key@).0[j]).0 is Key),
    ensures
        answer is None <==> !tls::pem_reading(cert@).1,
        ({
            let chain = tls::pem_reading(cert@).0.filter(
                |section: (PemLabel, Seq<u8>)| section.0 is Certificate,
            ).map_values(|section: (PemLabel, Seq<u8>)| section.1);
            let der = tls::pem_reading(key@).0[i].1;
            &&& answer matches Some(Err(error)) ==> {
                &&& error is Identity
                &&& tls::refused_with(chain, format, der, error->Identity_0)
                &&& format is Pkcs1 ==> !tls::identity_accepted(chain, format, der)
            }
            &&& answer matches Some(Ok(config)) ==> {
                &&& tls::config_chain(*config) == chain
                &&& tls::config_key(*config) == (format, der)
                &&& tls::identity_accepted(chain, format, der)
            }
            &&& tls::pem_reading(cert@).1 && (forall|error: rustls::Error|
                !#[trigger] tls::refused_with(chain, format, der, error)) ==> (answer matches Some(
                Ok(_),
            ))
        }),
{
    let sections = tls::pem_reading(key@).0;
    lemma_certificates_are_all(tls::pem_reading(cert@).0);
    let place = lemma_first_key_place(sections);
    assert(sections[i].0 is Key);
    assert(place == i) by {
        if place < i {
            assert(!(sections[place].0 is Key));
        } else if i < place {
            assert(!(sections[i].0 is Key));
        }
    }
}

/// Completing a configuration changes nothing of it but the protocols that it offers, and an error
/// stays that error.
pub proof fn law_completion_keeps_the_identity(
    answer: Result<ServerConfig, rustls::Error>,
    config: Result<Arc<ServerConfig>, ServerConfigError>,
)
    requires
        call_ensures(tls::complete_config, (answer,), config),
    ensures
        config is Ok <==> answer is Ok,
        config matches Ok(made) ==> {
            &&& tls::config_chain(*made) == tls::config_chain(answer->Ok_0)
            &&& tls::config_key(*made) == tls::config_key(answer->Ok_0)
            &&& tls::config_client_auth(*made) == tls::config_client_auth(answer->Ok_0)
            &&& tls::config_alpn(*made).len() == 2
            &&& tls::config_alpn(*made)[0] == seq![0x68u8, 0x32u8]
            &&& tls::config_alpn(*made)[1] == seq![
                0x68u8,
                0x74u8,
                0x74u8,
                0x70u8,
                0x2fu8,
                0x31u8,
                0x2eu8,
                0x31u8,
            ]
        },
        config matches Err(error) ==> error == ServerConfigError::Identity(answer->Err_0),
{
}

/// Taking a key up changes nothing of it, and an error stays that error.
pub proof fn law_key_is_taken_up_unchanged(
    answer: Result<PrivateKey, rustls::pki_types::pem::Error>,
    key: Result<PrivateKey, ServerConfigError>,
)
    requires
        call_ensures(tls::checked_key, (answer,), key),
    ensures
        key is Ok <==> answer is Ok,
        key matches Ok(taken) ==> taken.format == answer->Ok_0.format && taken.der@
            == answer->Ok_0.der@,
        key matches Err(error) ==> error == ServerConfigError::KeyPem(answer->Err_0),
{
}

/// The two sources of a TLS section are taken over, each for its own purpose, exactly where both are
/// there. Otherwise a part is reported that is missing, and no earlier one is.
pub proof fn law_sources_are_taken_over<P: Peers>(
    cert_pem: Option<LocalDataSource<P>>,
    key_pem: Option<LocalDataSource<P>>,
    sources: Result<TlsSources<P>, MissingPart>,
)
    requires
        call_ensures(
            tls::from_xds_tls_config::<P>,
            (XdsTlsConfig { cert_pem, key_pem },),
            sources,
        ),
    ensures
        sources is Ok <==> {
            &&& cert_pem is Some
            &&& cert_pem->0.source is Some
            &&& key_pem is Some
            &&& key_pem->0.source is Some
        },
        sources matches Ok(found) ==> {
            &&& cert_pem->0.source == Some(found.cert)
            &&& key_pem->0.source == Some(found.key)
        },
        sources matches Err(part) ==> match part {
            MissingPart::CertPem => cert_pem is None,
            MissingPart::CertPemSource => cert_pem is Some && cert_pem->0.source is None,
            MissingPart::KeyPem => cert_pem is Some && cert_pem->0.source is Some
                && key_pem is None,
            MissingPart::KeyPemSource => cert_pem is Some && cert_pem->0.source is Some
                && key_pem is Some && key_pem->0.source is None,
        },
{
}

} // verus!
