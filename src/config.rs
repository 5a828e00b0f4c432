//! The raw configuration schema, as read from a configuration source.
use vstd::prelude::*;

verus! {

/// Name of the configuration file.
pub const CONFIG_FILE_NAME: &'static str = "kms.toml";

/// Default value of a validator's `reconnect` setting.
pub fn reconnect_default() -> (r: bool)
    ensures
        r == true,
{
    true
}

/// Settings of an encrypted, authenticated connection to a remote validator.
#[derive(Debug)]
pub struct SecretConnectionConfig {
    /// Path to our identity key.
    pub secret_key_path: String,
    /// Validator hostname or IP address.
    pub addr: String,
    /// Validator port.
    pub port: u16,
}

/// What a `SecretConnectionConfig` holds, as plain values.
pub struct SecretConnectionView {
    pub secret_key_path: Seq<char>,
    pub addr: Seq<char>,
    pub port: u16,
}

impl View for SecretConnectionConfig {
    type V = SecretConnectionView;

    open spec fn view(&self) -> SecretConnectionView {
        SecretConnectionView {
            secret_key_path: self.secret_key_path@,
            addr: self.addr@,
            port: self.port,
        }
    }
}

impl SecretConnectionConfig {
    /// An equal copy of these settings.
    pub fn duplicate(&self) -> (r: SecretConnectionConfig)
        ensures
            r@ == self@,
    {
        SecretConnectionConfig {
            secret_key_path: self.secret_key_path.clone(),
            addr: self.addr.clone(),
            port: self.port,
        }
    }
}

/// Settings of a connection to a validator over a local UNIX-domain socket.
#[derive(Debug)]
pub struct UNIXConnectionConfig {
    /// A UNIX socket path.
    pub socket_path: String,
}

/// What a `UNIXConnectionConfig` holds, as plain values.
pub struct UNIXConnectionView {
    pub socket_path: Seq<char>,
}

impl View for UNIXConnectionConfig {
    type V = UNIXConnectionView;

    open spec fn view(&self) -> UNIXConnectionView {
        UNIXConnectionView { socket_path: self.socket_path@ }
    }
}

impl UNIXConnectionConfig {
    /// An equal copy of these settings.
    pub fn duplicate(&self) -> (r: UNIXConnectionConfig)
        ensures
            r@ == self@,
    {
        UNIXConnectionConfig { socket_path: self.socket_path.clone() }
    }
}

/// Settings of one validator as read from the source: each transport is
/// optional, and validation insists that exactly one of them is present.
#[derive(Debug)]
pub struct ValidatorConfig {
    /// Secret Connection config.
    pub seccon: Option<SecretConnectionConfig>,
    /// UNIX socket config.
    pub unix: Option<UNIXConnectionConfig>,
    /// Automatically reconnect on error? (default: true)
    pub reconnect: bool,
}

/// What a `ValidatorConfig` holds, as plain values.
pub struct ValidatorView {
    pub seccon: Option<SecretConnectionView>,
    pub unix: Option<UNIXConnectionView>,
    pub reconnect: bool,
}

pub open spec fn opt_seccon_view(o: Option<SecretConnectionConfig>) -> Option<SecretConnectionView> {
    match o {
        Some(c) => Some(c@),
        None => None,
    }
}

pub open spec fn opt_unix_view(o: Option<UNIXConnectionConfig>) -> Option<UNIXConnectionView> {
    match o {
        Some(c) => Some(c@),
        None => None,
    }
}

/// The value a `reconnect` setting takes: the one given, else the default.
pub open spec fn reconnect_or_default(reconnect: Option<bool>) -> bool {
    match reconnect {
        Some(b) => b,
        None => true,
    }
}

impl View for ValidatorConfig {
    type V = ValidatorView;

    open spec fn view(&self) -> ValidatorView {
        ValidatorView {
            seccon: opt_seccon_view(self.seccon),
            unix: opt_unix_view(self.unix),
            reconnect: self.reconnect,
        }
    }
}

impl ValidatorConfig {
    /// Builds a validator entry from the fields of the source, where
    /// `reconnect` is `None` when the source leaves it out.
    pub fn new(
        seccon: Option<SecretConnectionConfig>,
        unix: Option<UNIXConnectionConfig>,
        reconnect: Option<bool>,
    ) -> (r: ValidatorConfig)
        ensures
            r.seccon == seccon,
            r.unix == unix,
            r.reconnect == reconnect_or_default(reconnect),
    {
        let reconnect = match reconnect {
            Some(b) => b,
            None => reconnect_default(),
        };
        ValidatorConfig { seccon, unix, reconnect }
    }
}

/// Settings of the software (ed25519) signer. The signer itself reads its key
/// material; nothing of it is checked here.
#[derive(Clone, Copy, Debug, PartialEq, Eq, Structural)]
pub struct DalekConfig {}

/// Settings of the hardware signer: the labels of the HSM connectors to use.
#[derive(Debug)]
pub struct YubihsmConfig {
    /// Labels of the configured HSM connectors.
    pub connectors: Vec<String>,
}

impl View for YubihsmConfig {
    type V = Seq<Seq<char>>;

    open spec fn view(&self) -> Seq<Seq<char>> {
        self.connectors@.map_values(|c: String| c@)
    }
}

impl YubihsmConfig {
    /// An equal copy of these settings.
    pub fn duplicate(&self) -> (r: YubihsmConfig)
        ensures
            r@ == self@,
    {
        let mut connectors: Vec<String> = Vec::new();
        let mut i: usize = 0;
        while i < self.connectors.len()
            invariant
                i <= self.connectors.len(),
                connectors@.len() == i,
                forall|j: int| 0 <= j < i ==> connectors@[j]@ == self.connectors@[j]@,
            decreases self.connectors.len() - i,
        {
            connectors.push(self.connectors[i].clone());
            i = i + 1;
        }
        let r = YubihsmConfig { connectors };
        assert(r@ =~= self@);
        r
    }
}

/// Process-wide selection of signing backends.
#[derive(Debug)]
pub struct ProviderConfig {
    /// ed25519-dalek configuration.
    pub dalek: Option<DalekConfig>,
    /// Map of yubihsm-connector labels to their configurations. It is only
    /// used where the hardware signer is available.
    pub yubihsm: Option<YubihsmConfig>,
}

/// What a `ProviderConfig` holds, as plain values.
pub struct ProviderView {
    pub dalek: Option<DalekConfig>,
    pub yubihsm: Option<Seq<Seq<char>>>,
}

impl View for ProviderConfig {
    type V = ProviderView;

    open spec fn view(&self) -> ProviderView {
        ProviderView {
            dalek: self.dalek,
            yubihsm: match self.yubihsm {
                Some(y) => Some(y@),
                None => None,
            },
        }
    }
}

impl ProviderConfig {
    /// An equal copy of these settings.
    pub fn duplicate(&self) -> (r: ProviderConfig)
        ensures
            r@ == self@,
    {
        let yubihsm = match &self.yubihsm {
            Some(y) => Some(y.duplicate()),
            None => None,
        };
        ProviderConfig { dalek: self.dalek, yubihsm }
    }
}

/// The whole configuration as read from the source: validator entries under
/// their identifiers, in the order of the source, and the providers.
#[derive(Debug)]
pub struct KMSConfig {
    /// Addresses of validator nodes, under their identifiers.
    pub validators: Vec<(String, ValidatorConfig)>,
    /// Cryptographic signature provider configuration.
    pub providers: ProviderConfig,
}

/// What a `KMSConfig` holds, as plain values.
pub struct KMSView {
    pub validators: Seq<(Seq<char>, ValidatorView)>,
    pub providers: ProviderView,
}

impl View for KMSConfig {
    type V = KMSView;

    open spec fn view(&self) -> KMSView {
        KMSView {
            validators: self.validators@.map_values(
                |e: (String, ValidatorConfig)| (e.0@, e.1@),
            ),
            providers: self.providers@,
        }
    }
}

} // verus!
