//! Validation: resolves a raw configuration into one whose every validator
//! has exactly one transport and whose providers hold a usable signer.
use vstd::prelude::*;

use crate::config::{
    KMSConfig, KMSView, ProviderConfig, ProviderView, SecretConnectionConfig,
    SecretConnectionView, UNIXConnectionConfig, UNIXConnectionView, ValidatorConfig, ValidatorView,
};

verus! {

/// The transport of a validator, once resolved: exactly one kind.
#[derive(Debug)]
pub enum ConnectionConfig {
    /// A secret connection config kind.
    SecretConnection(SecretConnectionConfig),
    /// A UNIX connection config kind.
    UNIXConnection(UNIXConnectionConfig),
}

/// What a `ConnectionConfig` holds, as plain values.
pub enum ConnectionView {
    SecretConnection(SecretConnectionView),
    UNIXConnection(UNIXConnectionView),
}

impl View for ConnectionConfig {
    type V = ConnectionView;

    open spec fn view(&self) -> ConnectionView {
        match self {
            ConnectionConfig::SecretConnection(s) => ConnectionView::SecretConnection(s@),
            ConnectionConfig::UNIXConnection(u) => ConnectionView::UNIXConnection(u@),
        }
    }
}

/// A validator entry after validation.
#[derive(Debug)]
pub struct ResolvedValidator {
    /// The validator's identifier.
    pub id: String,
    /// How to reach it.
    pub connection: ConnectionConfig,
    /// Whether to re-establish a dropped connection.
    pub reconnect: bool,
}

/// What a `ResolvedValidator` holds, as plain values.
pub struct ResolvedValidatorView {
    pub id: Seq<char>,
    pub connection: ConnectionView,
    pub reconnect: bool,
}

impl View for ResolvedValidator {
    type V = ResolvedValidatorView;

    open spec fn view(&self) -> ResolvedValidatorView {
        ResolvedValidatorView { id: self.id@, connection: self.connection@, reconnect: self.reconnect }
    }
}

/// A configuration that passed validation.
#[derive(Debug)]
pub struct ValidatedConfig {
    /// The validators, in the order of the source.
    pub validators: Vec<ResolvedValidator>,
    /// The usable signing providers.
    pub providers: ProviderConfig,
}

/// What a `ValidatedConfig` holds, as plain values.
pub struct ValidatedView {
    pub validators: Seq<ResolvedValidatorView>,
    pub providers: ProviderView,
}

impl View for ValidatedConfig {
    type V = ValidatedView;

    open spec fn view(&self) -> ValidatedView {
        ValidatedView {
            validators: self.validators@.map_values(|v: ResolvedValidator| v@),
            providers: self.providers@,
        }
    }
}

/// Why a configuration was rejected.
#[derive(Debug)]
pub enum ConfigError {
    /// Two validator entries share this identifier.
    DuplicateValidator(String),
    /// The validator with this identifier has both transports, or neither.
    AmbiguousConnectionKind(String),
    /// No signing provider that this build can use is configured.
    NoUsableProvider,
}

/// What a `ConfigError` holds, as plain values.
pub enum ConfigErrorView {
    DuplicateValidator(Seq<char>),
    AmbiguousConnectionKind(Seq<char>),
    NoUsableProvider,
}

impl View for ConfigError {
    type V = ConfigErrorView;

    open spec fn view(&self) -> ConfigErrorView {
        match self {
            ConfigError::DuplicateValidator(id) => ConfigErrorView::DuplicateValidator(id@),
            ConfigError::AmbiguousConnectionKind(id) => ConfigErrorView::AmbiguousConnectionKind(id@),
            ConfigError::NoUsableProvider => ConfigErrorView::NoUsableProvider,
        }
    }
}

pub open spec fn opt_connection_view(o: Option<ConnectionConfig>) -> Option<ConnectionView> {
    match o {
        Some(c) => Some(c@),
        None => None,
    }
}

pub open spec fn result_view(r: Result<ValidatedConfig, ConfigError>) -> Result<ValidatedView, ConfigErrorView> {
    match r {
        Ok(v) => Ok(v@),
        Err(e) => Err(e@),
    }
}

/// The transport of a validator: present exactly when one of the two kinds is.
pub open spec fn resolve_connection(v: ValidatorView) -> Option<ConnectionView> {
    match (v.seccon, v.unix) {
        (Some(s), None) => Some(ConnectionView::SecretConnection(s)),
        (None, Some(u)) => Some(ConnectionView::UNIXConnection(u)),
        _ => None,
    }
}

/// The last entry's identifier already stands on an earlier entry.
pub open spec fn last_id_repeated(vs: Seq<(Seq<char>, ValidatorView)>) -> bool
    recommends
        vs.len() > 0,
{
    exists|j: int| 0 <= j < vs.len() - 1 && #[trigger] vs[j].0 == vs.last().0
}

/// Resolves the validator entries in order; the first entry whose identifier
/// repeats an earlier one, or whose transport is ambiguous, is the error.
pub open spec fn resolve_validators(vs: Seq<(Seq<char>, ValidatorView)>) -> Result<
    Seq<ResolvedValidatorView>,
    ConfigErrorView,
>
    decreases vs.len(),
{
    if vs.len() == 0 {
        Ok(Seq::empty())
    } else {
        match resolve_validators(vs.drop_last()) {
            Err(e) => Err(e),
            Ok(rs) => {
                let (id, v) = vs.last();
                if last_id_repeated(vs) {
                    Err(ConfigErrorView::DuplicateValidator(id))
                } else {
                    match resolve_connection(v) {
                        None => Err(ConfigErrorView::AmbiguousConnectionKind(id)),
                        Some(c) => Ok(
                            rs.push(ResolvedValidatorView { id, connection: c, reconnect: v.reconnect }),
                        ),
                    }
                }
            },
        }
    }
}

/// At least one configured provider can be used by this build.
pub open spec fn provider_usable(p: ProviderView, hsm_available: bool) -> bool {
    p.dalek is Some || (hsm_available && p.yubihsm is Some)
}

/// The providers that a build uses: the hardware signer's settings are
/// ignored where it is not available.
pub open spec fn usable_providers(p: ProviderView, hsm_available: bool) -> ProviderView {
    ProviderView { dalek: p.dalek, yubihsm: if hsm_available { p.yubihsm } else { None } }
}

/// The outcome of validating a raw configuration: validator errors come
/// first, then the provider check.
pub open spec fn validate_view(raw: KMSView, hsm_available: bool) -> Result<
    ValidatedView,
    ConfigErrorView,
> {
    match resolve_validators(raw.validators) {
        Err(e) => Err(e),
        Ok(rs) => if provider_usable(raw.providers, hsm_available) {
            Ok(ValidatedView { validators: rs, providers: usable_providers(raw.providers, hsm_available) })
        } else {
            Err(ConfigErrorView::NoUsableProvider)
        },
    }
}

/// Once a prefix of the entries fails, the whole sequence fails the same way.
proof fn lemma_prefix_error(vs: Seq<(Seq<char>, ValidatorView)>, i: int)
    requires
        0 <= i <= vs.len(),
        resolve_validators(vs.take(i)) is Err,
    ensures
        resolve_validators(vs) == resolve_validators(vs.take(i)),
    decreases vs.len() - i,
{
    if i == vs.len() {
        assert(vs.take(i) =~= vs);
    } else {
        assert(vs.drop_last().take(i) =~= vs.take(i));
        lemma_prefix_error(vs.drop_last(), i);
    }
}

impl ValidatorConfig {
    /// Resolves the two optional transports into one; `None` where both or
    /// neither are present.
    pub fn resolve(&self) -> (r: Option<ConnectionConfig>)
        ensures
            opt_connection_view(r) == resolve_connection(self@),
    {
        match (&self.seccon, &self.unix) {
            (Some(s), None) => Some(ConnectionConfig::SecretConnection(s.duplicate())),
            (None, Some(u)) => Some(ConnectionConfig::UNIXConnection(u.duplicate())),
            _ => None,
        }
    }
}

impl ProviderConfig {
    /// Whether a provider that this build can use is configured.
    pub fn is_usable(&self, hsm_available: bool) -> (r: bool)
        ensures
            r == provider_usable(self@, hsm_available),
    {
        self.dalek.is_some() || (hsm_available && self.yubihsm.is_some())
    }

    /// The providers that this build uses.
    pub fn usable(&self, hsm_available: bool) -> (r: ProviderConfig)
        ensures
            r@ == usable_providers(self@, hsm_available),
    {
        let yubihsm = match &self.yubihsm {
            Some(y) if hsm_available => Some(y.duplicate()),
            _ => None,
        };
        ProviderConfig { dalek: self.dalek, yubihsm }
    }
}

impl KMSConfig {
    /// Whether the identifier of entry `i` stands on an earlier entry.
    fn repeats_earlier_id(&self, i: usize) -> (r: bool)
        requires
            i < self.validators.len(),
        ensures
            r == last_id_repeated(self@.validators.take(i as int + 1)),
    {
        let ghost vs = self@.validators.take(i as int + 1);
        let mut j: usize = 0;
        while j < i
            invariant
                i < self.validators.len(),
                j <= i,
                vs == self@.validators.take(i as int + 1),
                forall|k: int| 0 <= k < j ==> vs[k].0 != vs.last().0,
            decreases i - j,
        {
            if self.validators[j].0 == self.validators[i].0 {
                assert(vs[j as int].0 == vs.last().0);
                return true;
            }
            j = j + 1;
        }
        false
    }

    /// Validates the configuration for a build in which the hardware signer is
    /// available or not: each validator gets exactly one transport, identifiers
    /// are unique, and a usable provider is configured.
    pub fn validate(&self, hsm_available: bool) -> (r: Result<ValidatedConfig, ConfigError>)
        ensures
            result_view(r) == validate_view(self@, hsm_available),
    {
        let ghost vs = self@.validators;
        let mut out: Vec<ResolvedValidator> = Vec::new();
        let mut i: usize = 0;
        assert(vs.take(0) =~= Seq::empty());
        assert(out@.map_values(|v: ResolvedValidator| v@) =~= Seq::empty());
        while i < self.validators.len()
            invariant
                i <= self.validators.len(),
                vs == self@.validators,
                resolve_validators(vs.take(i as int)) == Ok::<_, ConfigErrorView>(
                    out@.map_values(|v: ResolvedValidator| v@),
                ),
            decreases self.validators.len() - i,
        {
            let ghost pre = vs.take(i as int + 1);
            assert(pre.drop_last() =~= vs.take(i as int));
            let id = &self.validators[i].0;
            if self.repeats_earlier_id(i) {
                proof {
                    lemma_prefix_error(vs, i as int + 1);
                }
                return Err(ConfigError::DuplicateValidator(id.clone()));
            }
            match self.validators[i].1.resolve() {
                None => {
                    proof {
                        lemma_prefix_error(vs, i as int + 1);
                    }
                    return Err(ConfigError::AmbiguousConnectionKind(id.clone()));
                },
                Some(connection) => {
                    let ghost before = out@;
                    out.push(
                        ResolvedValidator {
                            id: id.clone(),
                            connection,
                            reconnect: self.validators[i].1.reconnect,
                        },
                    );
                    assert(out@.map_values(|v: ResolvedValidator| v@) =~= before.map_values(
                        |v: ResolvedValidator| v@,
                    ).push(out@.last()@));
                },
            }
            i = i + 1;
        }
        assert(vs.take(i as int) =~= vs);
        if !self.providers.is_usable(hsm_available) {
            return Err(ConfigError::NoUsableProvider);
        }
        Ok(ValidatedConfig { validators: out, providers: self.providers.usable(hsm_available) })
    }
}

/// The source entry that a resolved validator is written back as.
pub open spec fn raw_entry(r: ResolvedValidatorView) -> (Seq<char>, ValidatorView) {
    (
        r.id,
        ValidatorView {
            seccon: match r.connection {
                ConnectionView::SecretConnection(s) => Some(s),
                _ => None,
            },
            unix: match r.connection {
                ConnectionView::UNIXConnection(u) => Some(u),
                _ => None,
            },
            reconnect: r.reconnect,
        },
    )
}

/// The raw configuration that a validated one is written back as.
pub open spec fn raw_view(v: ValidatedView) -> KMSView {
    KMSView {
        validators: v.validators.map_values(|r: ResolvedValidatorView| raw_entry(r)),
        providers: v.providers,
    }
}

impl ResolvedValidator {
    /// This validator as a source entry, with its one transport set.
    pub fn to_raw(&self) -> (r: (String, ValidatorConfig))
        ensures
            (r.0@, r.1@) == raw_entry(self@),
    {
        let (seccon, unix) = match &self.connection {
            ConnectionConfig::SecretConnection(s) => (Some(s.duplicate()), None),
            ConnectionConfig::UNIXConnection(u) => (None, Some(u.duplicate())),
        };
        (self.id.clone(), ValidatorConfig { seccon, unix, reconnect: self.reconnect })
    }
}

impl ValidatedConfig {
    /// This configuration as a raw one, as it would be written back to the
    /// source.
    pub fn to_raw(&self) -> (r: KMSConfig)
        ensures
            r@ == raw_view(self@),
    {
        let mut validators: Vec<(String, ValidatorConfig)> = Vec::new();
        let mut i: usize = 0;
        while i < self.validators.len()
            invariant
                i <= self.validators.len(),
                validators@.len() == i,
                forall|j: int|
                    0 <= j < i ==> (#[trigger] validators@[j].0@, validators@[j].1@) == raw_entry(
                        self.validators@[j]@,
                    ),
            decreases self.validators.len() - i,
        {
            validators.push(self.validators[i].to_raw());
            i = i + 1;
        }
        let r = KMSConfig { validators, providers: self.providers.duplicate() };
        assert(r@.validators =~= raw_view(self@).validators);
        assert(r@.providers == self@.providers);
        r
    }
}

} // verus!
