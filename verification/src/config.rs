//! Configuration of the overlay, from defaults and from environment variables.
use vstd::prelude::*;
use vstd::string::StringExecFns;

use crate::addr::{parse_ipv4, parse_socket_addr, Ipv4Address, SocketAddress};
use crate::text::{ensure_trailing_slash, lowercase_eq, parse_u64};

verus! {

/// Default storage location for iroh node advertisements.
pub const DEFAULT_STORAGE_PREFIX: &'static str = "/registry/rusternetes.io/iroh-overlay/nodes/";

/// A span of time: whole seconds, and nanoseconds below one second.
#[derive(Debug, Clone, Copy, PartialEq, Eq, Structural)]
pub struct Interval {
    pub secs: u64,
    pub subsec_nanos: u32,
}

impl Interval {
    /// `secs` whole seconds.
    pub open spec fn whole_secs(secs: u64) -> Interval {
        Interval { secs, subsec_nanos: 0 }
    }

    /// `secs` whole seconds.
    pub fn from_secs(secs: u64) -> (interval: Interval)
        ensures
            interval == Interval::whole_secs(secs),
    {
        Interval { secs, subsec_nanos: 0 }
    }

    /// `millis` milliseconds.
    pub open spec fn whole_millis(millis: u64) -> Interval {
        Interval {
            secs: millis / 1000,
            subsec_nanos: (millis % 1000 * 1_000_000) as u32,
        }
    }

    /// `millis` milliseconds.
    pub fn from_millis(millis: u64) -> (interval: Interval)
        ensures
            interval == Interval::whole_millis(millis),
    {
        Interval { secs: millis / 1000, subsec_nanos: (millis % 1000 * 1_000_000) as u32 }
    }
}

/// Runtime configuration for the iroh overlay.
#[derive(Debug)]
pub struct IrohOverlayConfig {
    /// Kubernetes/Rusternetes node name for this kube-proxy instance.
    pub node_name: String,
    /// Optional UDP bind address for iroh. Defaults to iroh's preset bind.
    pub bind_addr: Option<SocketAddress>,
    /// Prefix used for deterministic loopback tunnel IPs. The first two octets
    /// are used; default is 127.84.0.0, producing listeners like 127.84.x.y:port.
    pub local_loopback_prefix: Ipv4Address,
    /// Storage prefix for node advertisements.
    pub storage_prefix: String,
    /// How often to refresh this node's storage advertisement.
    pub publish_interval: Interval,
    /// Optional path of a local file that keeps this node's advertisement as JSON for
    /// operators/debugging.
    pub local_addr_file: Option<String>,
}

/// What a configuration holds, with text as character sequences.
pub struct ConfigModel {
    pub node_name: Seq<char>,
    pub bind_addr: Option<SocketAddress>,
    pub local_loopback_prefix: Ipv4Address,
    pub storage_prefix: Seq<char>,
    pub publish_interval: Interval,
    pub local_addr_file: Option<Seq<char>>,
}

/// The text of an optional string.
pub open spec fn opt_text(s: Option<String>) -> Option<Seq<char>> {
    match s {
        Some(s) => Some(s@),
        None => None,
    }
}

impl View for IrohOverlayConfig {
    type V = ConfigModel;

    open spec fn view(&self) -> ConfigModel {
        ConfigModel {
            node_name: self.node_name@,
            bind_addr: self.bind_addr,
            local_loopback_prefix: self.local_loopback_prefix,
            storage_prefix: self.storage_prefix@,
            publish_interval: self.publish_interval,
            local_addr_file: opt_text(self.local_addr_file),
        }
    }
}

impl Clone for IrohOverlayConfig {
    fn clone(&self) -> (config: IrohOverlayConfig)
        ensures
            config@ == self@,
    {
        IrohOverlayConfig {
            node_name: self.node_name.clone(),
            bind_addr: self.bind_addr,
            local_loopback_prefix: self.local_loopback_prefix,
            storage_prefix: self.storage_prefix.clone(),
            publish_interval: self.publish_interval,
            local_addr_file: self.local_addr_file.clone(),
        }
    }
}

/// The environment variables of the overlay. A variable that is not set, or that holds no
/// valid Unicode, is absent.
#[derive(Debug)]
pub struct OverlayEnv {
    /// `RUSTERNETES_IROH_OVERLAY`
    pub overlay: Option<String>,
    /// `RUSTERNETES_IROH_BIND_ADDR`
    pub bind_addr: Option<String>,
    /// `RUSTERNETES_IROH_LOCAL_PREFIX`
    pub local_prefix: Option<String>,
    /// `RUSTERNETES_IROH_STORAGE_PREFIX`
    pub storage_prefix: Option<String>,
    /// `RUSTERNETES_IROH_PUBLISH_INTERVAL_SECS`
    pub publish_interval_secs: Option<String>,
    /// `RUSTERNETES_IROH_ADDR_FILE`
    pub addr_file: Option<String>,
}

/// What the environment holds, with text as character sequences.
pub struct EnvModel {
    pub overlay: Option<Seq<char>>,
    pub bind_addr: Option<Seq<char>>,
    pub local_prefix: Option<Seq<char>>,
    pub storage_prefix: Option<Seq<char>>,
    pub publish_interval_secs: Option<Seq<char>>,
    pub addr_file: Option<Seq<char>>,
}

impl View for OverlayEnv {
    type V = EnvModel;

    open spec fn view(&self) -> EnvModel {
        EnvModel {
            overlay: opt_text(self.overlay),
            bind_addr: opt_text(self.bind_addr),
            local_prefix: opt_text(self.local_prefix),
            storage_prefix: opt_text(self.storage_prefix),
            publish_interval_secs: opt_text(self.publish_interval_secs),
            addr_file: opt_text(self.addr_file),
        }
    }
}

/// Why an environment does not make a configuration.
#[derive(Debug)]
pub enum ConfigError {
    /// The bind address variable, whose text this is, spells no socket address.
    InvalidBindAddr(String),
    /// The loopback prefix variable, whose text this is, spells no IPv4 address.
    InvalidLocalPrefix(String),
    /// The loopback prefix lies outside 127.0.0.0/8.
    PrefixNotLoopback(Ipv4Address),
    /// The publish interval variable, whose text this is, spells no 64-bit unsigned number.
    InvalidPublishInterval(String),
}

/// A configuration error, with text as character sequences.
pub enum ConfigErrorModel {
    InvalidBindAddr(Seq<char>),
    InvalidLocalPrefix(Seq<char>),
    PrefixNotLoopback(Ipv4Address),
    InvalidPublishInterval(Seq<char>),
}

impl View for ConfigError {
    type V = ConfigErrorModel;

    open spec fn view(&self) -> ConfigErrorModel {
        match self {
            ConfigError::InvalidBindAddr(text) => ConfigErrorModel::InvalidBindAddr(text@),
            ConfigError::InvalidLocalPrefix(text) => ConfigErrorModel::InvalidLocalPrefix(text@),
            ConfigError::PrefixNotLoopback(ip) => ConfigErrorModel::PrefixNotLoopback(*ip),
            ConfigError::InvalidPublishInterval(text) => ConfigErrorModel::InvalidPublishInterval(
                text@,
            ),
        }
    }
}

impl ConfigErrorModel {
    /// The sentence that tells an operator about the error.
    pub open spec fn message(self) -> Seq<char> {
        match self {
            ConfigErrorModel::InvalidBindAddr(text) => "invalid RUSTERNETES_IROH_BIND_ADDR="@
                + text,
            ConfigErrorModel::InvalidLocalPrefix(text) => "invalid RUSTERNETES_IROH_LOCAL_PREFIX="@
                + text,
            ConfigErrorModel::PrefixNotLoopback(ip) =>
                "RUSTERNETES_IROH_LOCAL_PREFIX must be in 127.0.0.0/8, got "@ + ip.text(),
            ConfigErrorModel::InvalidPublishInterval(text) =>
                "invalid RUSTERNETES_IROH_PUBLISH_INTERVAL_SECS="@ + text,
        }
    }
}

impl ConfigError {
    /// The sentence that tells an operator about the error.
    pub fn message(&self) -> (s: String)
        ensures
            s@ == self@.message(),
    {
        match self {
            ConfigError::InvalidBindAddr(text) => {
                "invalid RUSTERNETES_IROH_BIND_ADDR=".to_owned().concat(text.as_str())
            },
            ConfigError::InvalidLocalPrefix(text) => {
                "invalid RUSTERNETES_IROH_LOCAL_PREFIX=".to_owned().concat(text.as_str())
            },
            ConfigError::PrefixNotLoopback(ip) => {
                "RUSTERNETES_IROH_LOCAL_PREFIX must be in 127.0.0.0/8, got ".to_owned().concat(
                    ip.to_text().as_str(),
                )
            },
            ConfigError::InvalidPublishInterval(text) => {
                "invalid RUSTERNETES_IROH_PUBLISH_INTERVAL_SECS=".to_owned().concat(text.as_str())
            },
        }
    }
}

/// Whether a value switches the overlay on: `1`, `true`, `yes` or `on`, in any letter case.
pub open spec fn is_on(value: Seq<char>) -> bool {
    let lower = crate::text::ascii_lowercase(value);
    lower == "1"@ || lower == "true"@ || lower == "yes"@ || lower == "on"@
}

impl ConfigModel {
    /// The configuration of a node where nothing else is asked for.
    pub open spec fn default_for(node_name: Seq<char>) -> ConfigModel {
        ConfigModel {
            node_name,
            bind_addr: None,
            local_loopback_prefix: Ipv4Address { a: 127, b: 84, c: 0, d: 0 },
            storage_prefix: DEFAULT_STORAGE_PREFIX@,
            publish_interval: Interval::whole_secs(20),
            local_addr_file: None,
        }
    }
}

impl EnvModel {
    /// Whether the environment switches the overlay on.
    pub open spec fn enabled(self) -> bool {
        self.overlay is Some && is_on(self.overlay->0)
    }

    /// The socket address that the bind address variable spells, if it is set and spells one.
    pub open spec fn bind_addr_value(self) -> Option<SocketAddress> {
        match self.bind_addr {
            Some(text) => crate::addr::socket_addr_value(text),
            None => None,
        }
    }

    /// What is wrong with the bind address variable, which was read as `bind`.
    pub open spec fn bind_addr_error(self, bind: Option<SocketAddress>) -> Option<
        ConfigErrorModel,
    > {
        match self.bind_addr {
            Some(text) => if bind is Some {
                None
            } else {
                Some(ConfigErrorModel::InvalidBindAddr(text))
            },
            None => None,
        }
    }

    /// What is wrong with the loopback prefix variable.
    pub open spec fn local_prefix_error(self) -> Option<ConfigErrorModel> {
        match self.local_prefix {
            Some(text) => match crate::addr::ipv4_value(text) {
                Some(ip) => if ip.is_loopback_spec() {
                    None
                } else {
                    Some(ConfigErrorModel::PrefixNotLoopback(ip))
                },
                None => Some(ConfigErrorModel::InvalidLocalPrefix(text)),
            },
            None => None,
        }
    }

    /// What is wrong with the publish interval variable.
    pub open spec fn publish_interval_error(self) -> Option<ConfigErrorModel> {
        match self.publish_interval_secs {
            Some(text) => match crate::text::u64_value(text) {
                Some(_) => None,
                None => Some(ConfigErrorModel::InvalidPublishInterval(text)),
            },
            None => None,
        }
    }

    /// The error that is reported where the bind address variable was read as `bind`: that of
    /// the bind address before that of the loopback prefix before that of the publish interval.
    pub open spec fn first_error(self, bind: Option<SocketAddress>) -> Option<ConfigErrorModel> {
        if self.bind_addr_error(bind) is Some {
            self.bind_addr_error(bind)
        } else if self.local_prefix_error() is Some {
            self.local_prefix_error()
        } else {
            self.publish_interval_error()
        }
    }

    /// The configuration that an environment without errors describes, where the bind address
    /// variable was read as `bind`: the default, with what each variable that is set puts in
    /// its place.
    pub open spec fn config(self, node_name: Seq<char>, bind: Option<SocketAddress>) -> ConfigModel {
        let default = ConfigModel::default_for(node_name);
        ConfigModel {
            node_name,
            bind_addr: match self.bind_addr {
                Some(_) => bind,
                None => default.bind_addr,
            },
            local_loopback_prefix: match self.local_prefix {
                Some(text) => crate::addr::ipv4_value(text)->0,
                None => default.local_loopback_prefix,
            },
            storage_prefix: match self.storage_prefix {
                Some(text) => crate::text::with_trailing_slash(text),
                None => default.storage_prefix,
            },
            publish_interval: match self.publish_interval_secs {
                Some(text) => Interval::whole_secs(
                    if crate::text::u64_value(text)->0 < 1 {
                        1
                    } else {
                        crate::text::u64_value(text)->0
                    },
                ),
                None => default.publish_interval,
            },
            local_addr_file: self.addr_file,
        }
    }
}

/// Whether a value switches the overlay on: `1`, `true`, `yes` or `on`, in any letter case.
fn switches_on(value: &str) -> (on: bool)
    ensures
        on == is_on(value@),
{
    lowercase_eq(value, "1") || lowercase_eq(value, "true") || lowercase_eq(value, "yes")
        || lowercase_eq(value, "on")
}

impl IrohOverlayConfig {
    /// The default configuration of a node.
    pub fn new(node_name: String) -> (config: Self)
        ensures
            config@ == ConfigModel::default_for(node_name@),
    {
        IrohOverlayConfig {
            node_name,
            bind_addr: None,
            local_loopback_prefix: Ipv4Address { a: 127, b: 84, c: 0, d: 0 },
            storage_prefix: DEFAULT_STORAGE_PREFIX.to_owned(),
            publish_interval: Interval::from_secs(20),
            local_addr_file: None,
        }
    }

    /// Builds the configuration that the environment asks for. There is none unless
    /// `RUSTERNETES_IROH_OVERLAY` is one of `1`, `true`, `yes` and `on`, in any letter case.
    pub fn from_env(node_name: String, env: OverlayEnv) -> (res: Result<Option<Self>, ConfigError>)
        ensures
            res matches Ok(None) <==> !env@.enabled(),
            res is Err <==> env@.enabled() && env@.first_error(env@.bind_addr_value()) is Some,
            res matches Err(err) ==> err@ == env@.first_error(env@.bind_addr_value())->0,
            res matches Ok(Some(config)) ==> config@ == env@.config(
                node_name@,
                env@.bind_addr_value(),
            ),
    {
        let bind: Option<SocketAddress> = match &env.bind_addr {
            Some(text) => parse_socket_addr(text.as_str()),
            None => None,
        };
        Self::from_parsed_env(node_name, env, bind)
    }

    /// Builds the configuration that the environment asks for, where the bind address variable,
    /// if it is set, was read as `bind`.
    pub fn from_parsed_env(
        node_name: String,
        env: OverlayEnv,
        bind: Option<SocketAddress>,
    ) -> (res: Result<Option<Self>, ConfigError>)
        ensures
            res matches Ok(None) <==> !env@.enabled(),
            res is Err <==> env@.enabled() && env@.first_error(bind) is Some,
            res matches Err(err) ==> err@ == env@.first_error(bind)->0,
            res matches Ok(Some(config)) ==> config@ == env@.config(node_name@, bind),
    {
        let enabled: bool = match &env.overlay {
            Some(value) => switches_on(value.as_str()),
            None => false,
        };
        if !enabled {
            return Ok(None);
        }
        let mut config = Self::new(node_name);
        if let Some(value) = env.bind_addr {
            if bind.is_none() {
                return Err(ConfigError::InvalidBindAddr(value));
            }
            config.bind_addr = bind;
        }
        if let Some(value) = env.local_prefix {
            match parse_ipv4(value.as_str()) {
                Some(ip) => {
                    if !ip.is_loopback() {
                        return Err(ConfigError::PrefixNotLoopback(ip));
                    }
                    config.local_loopback_prefix = ip;
                },
                None => {
                    return Err(ConfigError::InvalidLocalPrefix(value));
                },
            }
        }
        if let Some(value) = env.storage_prefix {
            config.storage_prefix = ensure_trailing_slash(value);
        }
        if let Some(value) = env.publish_interval_secs {
            match parse_u64(value.as_str()) {
                Some(secs) => {
                    config.publish_interval = Interval::from_secs(
                        if secs < 1 {
                            1
                        } else {
                            secs
                        },
                    );
                },
                None => {
                    return Err(ConfigError::InvalidPublishInterval(value));
                },
            }
        }
        config.local_addr_file = env.addr_file;
        Ok(Some(config))
    }
}

/// The loopback prefix of every configuration that an environment makes lies in 127.0.0.0/8,
/// its storage prefix ends with a slash, and its publish interval is one second at least.
pub proof fn law_accepted_config_is_sound(
    env: EnvModel,
    node_name: Seq<char>,
    bind: Option<SocketAddress>,
)
    requires
        env.enabled(),
        env.first_error(bind) is None,
    ensures
        env.config(node_name, bind).local_loopback_prefix.is_loopback_spec(),
        env.config(node_name, bind).storage_prefix.len() > 0,
        env.config(node_name, bind).storage_prefix.last() == '/',
        env.config(node_name, bind).publish_interval.secs >= 1,
        env.config(node_name, bind).publish_interval.subsec_nanos == 0,
{
    reveal_strlit("/registry/rusternetes.io/iroh-overlay/nodes/");
}

/// An environment that switches the overlay on and sets nothing else makes the default
/// configuration of the node.
pub proof fn law_unset_variables_keep_defaults(
    env: EnvModel,
    node_name: Seq<char>,
    bind: Option<SocketAddress>,
)
    requires
        env.enabled(),
        env.bind_addr is None,
        env.local_prefix is None,
        env.storage_prefix is None,
        env.publish_interval_secs is None,
        env.addr_file is None,
    ensures
        env.first_error(bind) is None,
        env.config(node_name, bind) == ConfigModel::default_for(node_name),
{
}

/// An interval from whole seconds is that long; one from milliseconds is whole seconds and the
/// milliseconds that are left, which do not make a second.
pub proof fn law_intervals_keep_their_length(secs: u64, millis: u64)
    ensures
        Interval::whole_secs(secs).secs == secs,
        Interval::whole_secs(secs).subsec_nanos == 0,
        Interval::whole_millis(millis).subsec_nanos < 1_000_000_000,
        Interval::whole_millis(millis).secs * 1_000_000_000 + Interval::whole_millis(
            millis,
        ).subsec_nanos == millis * 1_000_000,
{
}

/// Whether a text is a word in small or capital letters.
pub open spec fn spells_word(value: Seq<char>, word: Seq<char>) -> bool {
    &&& value.len() == word.len()
    &&& forall|i: int|
        0 <= i < word.len() ==> (#[trigger] value[i] == word[i] || 'A' <= value[i] <= 'Z'
            && value[i] as int + 32 == word[i] as int)
}

/// A text without capital letters is what another one becomes in small letters exactly where the
/// other one spells it.
proof fn lemma_spells_word(value: Seq<char>, word: Seq<char>)
    requires
        forall|i: int| 0 <= i < word.len() ==> !('A' <= #[trigger] word[i] <= 'Z'),
    ensures
        crate::text::ascii_lowercase(value) == word <==> spells_word(value, word),
{
    let lower = crate::text::ascii_lowercase(value);
    if lower == word {
        assert forall|i: int| 0 <= i < word.len() implies (#[trigger] value[i] == word[i]
            || 'A' <= value[i] <= 'Z' && value[i] as int + 32 == word[i] as int) by {
            crate::text::law_lowercase_changes_capitals_alone(value, i);
            assert(lower[i] == word[i]);
        }
    }
    if spells_word(value, word) {
        assert forall|i: int| 0 <= i < word.len() implies lower[i] == word[i] by {
            crate::text::law_lowercase_changes_capitals_alone(value, i);
            assert(value[i] == word[i] || 'A' <= value[i] <= 'Z' && value[i] as int + 32
                == word[i] as int);
            assert(!('A' <= word[i] <= 'Z'));
        }
        assert(lower =~= word);
    }
}

/// The overlay is switched on exactly by the words `1`, `true`, `yes` and `on`, each in small or
/// capital letters.
pub proof fn law_words_that_switch_on(env: OverlayEnv)
    ensures
        env@.enabled() <==> (env.overlay matches Some(value) && (spells_word(value@, "1"@)
            || spells_word(value@, "true"@) || spells_word(value@, "yes"@) || spells_word(
            value@,
            "on"@,
        ))),
{
    reveal_strlit("1");
    reveal_strlit("true");
    reveal_strlit("yes");
    reveal_strlit("on");
    if let Some(value) = env.overlay {
        lemma_spells_word(value@, "1"@);
        lemma_spells_word(value@, "true"@);
        lemma_spells_word(value@, "yes"@);
        lemma_spells_word(value@, "on"@);
    }
}

/// The default configuration of a node has the loopback prefix 127.84.0.0, the registry path as
/// its storage prefix, and a publish interval of 20 seconds. It asks for no bind address and no
/// address file.
pub proof fn law_defaults(config: IrohOverlayConfig, node_name: Seq<char>)
    requires
        config@ == ConfigModel::default_for(node_name),
    ensures
        config.node_name@ == node_name,
        config.bind_addr is None,
        config.local_loopback_prefix == (Ipv4Address { a: 127, b: 84, c: 0, d: 0 }),
        config.storage_prefix@ == "/registry/rusternetes.io/iroh-overlay/nodes/"@,
        config.publish_interval == (Interval { secs: 20, subsec_nanos: 0 }),
        config.local_addr_file is None,
{
}

/// Each variable that is set takes effect, and each that is not leaves its default. The bind
/// address is what was read; the loopback prefix is the address that its text is the notation
/// of; the storage prefix is its text, with a slash behind it where there was none; the publish
/// interval is its number of seconds, but not 0; and the address file is its text.
pub proof fn law_set_variables_take_effect(
    config: IrohOverlayConfig,
    env: OverlayEnv,
    node_name: Seq<char>,
    bind: Option<SocketAddress>,
    ip: Ipv4Address,
)
    requires
        config@ == env@.config(node_name, bind),
    ensures
        config.node_name@ == node_name,
        env.bind_addr is None ==> config.bind_addr is None,
        env.bind_addr is Some ==> config.bind_addr == bind,
        env.local_prefix is None ==> config.local_loopback_prefix == (Ipv4Address {
            a: 127,
            b: 84,
            c: 0,
            d: 0,
        }),
        env.local_prefix matches Some(text) ==> text@ == ip.text() ==> config.local_loopback_prefix
            == ip,
        env.storage_prefix is None ==> config.storage_prefix@
            == "/registry/rusternetes.io/iroh-overlay/nodes/"@,
        env.storage_prefix matches Some(text) ==> config.storage_prefix@ == (if text@.len() > 0
            && text@[text@.len() - 1] == '/' {
            text@
        } else {
            text@ + seq!['/']
        }),
        env.publish_interval_secs is None ==> config.publish_interval == (Interval {
            secs: 20,
            subsec_nanos: 0,
        }),
        env.publish_interval_secs matches Some(text) ==> (crate::text::u64_value(
            text@,
        ) matches Some(secs) ==> config.publish_interval.subsec_nanos == 0
            && config.publish_interval.secs >= 1 && (secs >= 1 ==> config.publish_interval.secs
            == secs) && (secs == 0 ==> config.publish_interval.secs == 1)),
        env.addr_file is None ==> config.local_addr_file is None,
        env.addr_file matches Some(text) ==> (config.local_addr_file matches Some(path) && path@
            == text@),
{
    crate::addr::law_ipv4_text_reads_back(ip);
    if let Some(text) = env.storage_prefix {
        assert(text@.push('/') =~= text@ + seq!['/']);
    }
}

/// What is wrong with a variable is reported, and the text of the variable with it: first of the
/// bind address, where no address was read; then of the loopback prefix, where its text is no
/// address or one outside 127.0.0.0/8; then of the publish interval, where its text is no number.
/// Nothing else is an error.
pub proof fn law_first_wrong_variable_is_reported(
    env: OverlayEnv,
    bind: Option<SocketAddress>,
    ip: Ipv4Address,
)
    ensures
        env.bind_addr matches Some(text) ==> bind is None ==> env@.first_error(bind) == Some(
            ConfigErrorModel::InvalidBindAddr(text@),
        ),
        env.bind_addr is None || bind is Some ==> {
            &&& env.local_prefix matches Some(text) ==> (forall|x: Ipv4Address|
                text@ != #[trigger] x.text()) ==> env@.first_error(bind) == Some(
                ConfigErrorModel::InvalidLocalPrefix(text@),
            )
            &&& env.local_prefix matches Some(text) ==> text@ == ip.text() && ip.a != 127
                ==> env@.first_error(bind) == Some(ConfigErrorModel::PrefixNotLoopback(ip))
            &&& env.local_prefix is None || env.local_prefix->0@ == ip.text() && ip.a == 127 ==> {
                &&& env.publish_interval_secs is None ==> env@.first_error(bind) is None
                &&& env.publish_interval_secs matches Some(text) ==> env@.first_error(bind) == (
                if crate::text::u64_value(text@) is Some {
                    None
                } else {
                    Some(ConfigErrorModel::InvalidPublishInterval(text@))
                })
            }
        },
{
    crate::addr::law_ipv4_text_reads_back(ip);
}

/// The sentence of a configuration error names the variable and what it holds.
pub proof fn law_config_error_sentences(err: ConfigError)
    ensures
        err matches ConfigError::InvalidBindAddr(text) ==> err@ == ConfigErrorModel::InvalidBindAddr(
            text@,
        ) && err@.message() == "invalid RUSTERNETES_IROH_BIND_ADDR="@ + text@,
        err matches ConfigError::InvalidLocalPrefix(text) ==> err@
            == ConfigErrorModel::InvalidLocalPrefix(text@) && err@.message()
            == "invalid RUSTERNETES_IROH_LOCAL_PREFIX="@ + text@,
        err matches ConfigError::PrefixNotLoopback(ip) ==> err@
            == ConfigErrorModel::PrefixNotLoopback(ip) && err@.message()
            == "RUSTERNETES_IROH_LOCAL_PREFIX must be in 127.0.0.0/8, got "@ + ip.text(),
        err matches ConfigError::InvalidPublishInterval(text) ==> err@
            == ConfigErrorModel::InvalidPublishInterval(text@) && err@.message()
            == "invalid RUSTERNETES_IROH_PUBLISH_INTERVAL_SECS="@ + text@,
{
}

/// The bind address variable is read as the standard library reads its text, and as nothing where
/// it is not set.
pub proof fn law_bind_address_is_read_from_its_text(env: OverlayEnv)
    ensures
        env.bind_addr is None ==> env@.bind_addr_value() is None,
        env.bind_addr matches Some(text) ==> env@.bind_addr_value()
            == crate::addr::socket_addr_value(text@),
{
}

/// The model of a configuration holds each of its parts.
pub proof fn law_model_holds_the_configuration(config: IrohOverlayConfig)
    ensures
        config@.node_name == config.node_name@,
        config@.bind_addr == config.bind_addr,
        config@.local_loopback_prefix == config.local_loopback_prefix,
        config@.storage_prefix == config.storage_prefix@,
        config@.publish_interval == config.publish_interval,
        config.local_addr_file is None <==> config@.local_addr_file is None,
        config.local_addr_file matches Some(path) ==> config@.local_addr_file == Some(path@),
{
}

}
