//! The types of the proxy's other modules that pass through this library.
//!
//! A listener carries an authenticator and rule sets, and its description carries data sources
//! and token settings. None of them is looked into here, so each is an associated type.

use vstd::prelude::*;

verus! {

/// What the neighbouring modules of the proxy supply: types that are handed over and handed back,
/// never inspected.
pub trait Peers: Sized {
    /// Where the bytes of a certificate or a key are to be found.
    type Source;

    /// The settings of a JWT authenticator.
    type JwtConfig;

    /// A JWT authenticator that is ready for use.
    type Authenticator;

    /// A rule set as a listener description holds it.
    type XdsRuleSet;

    /// A rule set that is ready for use.
    type RuleSet;

    /// What a neighbouring module reports when it fails.
    type Error;
}

} // verus!
