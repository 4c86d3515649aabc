//! Configuration: link-matching rules and admin routing, their compiled form,
//! and the store that hands committed versions to readers.
use vstd::prelude::*;
use std::sync::Arc;
use crate::matching::{build_case_insensitive, compiles_case_insensitive};
use crate::text::{chars_of, replace, replace_all, string_of};

verus! {

/// Shorthand that a pattern may use for one character of a URL.
pub const URL_CHAR_MACRO: &'static str = "$URLCHAR";

/// What the shorthand stands for.
pub const URL_CHAR_CLASS: &'static str = r#"[A-Za-z0-9\-._~:/?#\[\]@!$&'()*+,;=%]"#;

/// One link-matching rule.
#[derive(Debug, Clone)]
pub struct LinkRegex {
    /// The pattern, which may use the URL-character shorthand.
    pub regex: String,
    /// Replacement template for a plain-link fallback.
    pub fixup: Option<String>,
    pub no_video: Option<String>,
}

/// The admin guild and its channels, by numeric identifier.
#[derive(Debug, Clone, Copy, PartialEq, Eq, Structural)]
pub struct AdminGuild {
    pub guild_id: u64,
    pub log_channel_id: u64,
    pub config_channel_id: u64,
}

/// The configuration as written by its administrators.
#[derive(Debug, Clone)]
pub struct Config {
    pub link_regexes: Vec<LinkRegex>,
    pub admin_guild: Option<AdminGuild>,
}

/// A rule with its pattern compiled.
#[derive(Debug)]
pub struct CompiledLinkRegex {
    /// The matcher, compiled from the pattern with the shorthand expanded,
    /// ignoring case.
    pub regex: regex::Regex,
    /// The pattern as written.
    pub pattern: String,
    pub fixup: Option<String>,
    pub no_video: Option<String>,
}

/// A configuration with every pattern compiled.
#[derive(Debug)]
pub struct CompiledConfig {
    pub link_regexes: Vec<CompiledLinkRegex>,
    pub admin_guild: Option<AdminGuild>,
}

/// Why a configuration was not committed.
#[derive(Debug, Clone, Copy, PartialEq, Eq, Structural)]
pub enum ConfigError {
    /// The pattern of the rule at `index` does not compile.
    InvalidPattern { index: usize },
    /// The generation counter cannot be incremented any further.
    GenerationExhausted,
}

pub open spec fn opt_view(o: Option<String>) -> Option<Seq<char>> {
    match o {
        Some(s) => Some(s@),
        None => None,
    }
}

/// A rule as plain values: pattern, fixup template, no-video template.
pub type RuleView = (Seq<char>, Option<Seq<char>>, Option<Seq<char>>);

pub open spec fn rule_view(r: LinkRegex) -> RuleView {
    (r.regex@, opt_view(r.fixup), opt_view(r.no_video))
}

pub open spec fn compiled_rule_view(r: CompiledLinkRegex) -> RuleView {
    (r.pattern@, opt_view(r.fixup), opt_view(r.no_video))
}

/// The meaning of a configuration: its rules in order and its admin routing.
pub open spec fn config_view(c: Config) -> (Seq<RuleView>, Option<AdminGuild>) {
    (c.link_regexes@.map_values(|r: LinkRegex| rule_view(r)), c.admin_guild)
}

/// The meaning of a compiled configuration, in the same terms.
pub open spec fn compiled_view(c: CompiledConfig) -> (Seq<RuleView>, Option<AdminGuild>) {
    (c.link_regexes@.map_values(|r: CompiledLinkRegex| compiled_rule_view(r)), c.admin_guild)
}

/// A pattern with the URL-character shorthand expanded.
pub open spec fn expand_macros(pattern: Seq<char>) -> Seq<char> {
    replace_all(pattern, URL_CHAR_MACRO@, URL_CHAR_CLASS@)
}

pub open spec fn pattern_valid(pattern: Seq<char>) -> bool {
    compiles_case_insensitive(expand_macros(pattern))
}

/// Every pattern of the configuration compiles.
pub open spec fn config_valid(c: Config) -> bool {
    forall|i: int| 0 <= i < c.link_regexes@.len() ==> pattern_valid(#[trigger] c.link_regexes@[i].regex@)
}

/// Expands the URL-character shorthand in a pattern.
pub fn regex_macros(regex: &str) -> (r: String)
    ensures
        r@ == expand_macros(regex@),
{
    proof {
        reveal_strlit("$URLCHAR");
    }
    let pat = chars_of(URL_CHAR_MACRO);
    let rep = chars_of(URL_CHAR_CLASS);
    string_of(&replace(&chars_of(regex), &pat, &rep))
}

fn clone_opt(o: &Option<String>) -> (r: Option<String>)
    ensures
        r == *o,
{
    match o {
        Some(s) => Some(s.clone()),
        None => None,
    }
}

impl Default for Config {
    /// The empty configuration: no rules, no admin routing.
    fn default() -> (r: Config)
        ensures
            r.link_regexes@.len() == 0,
            r.admin_guild is None,
    {
        Config { link_regexes: Vec::new(), admin_guild: None }
    }
}

impl CompiledConfig {
    /// Compiles every pattern of `config`. Fails on the first rule whose
    /// pattern does not compile, and only then.
    pub fn try_from(config: &Config) -> (r: Result<CompiledConfig, ConfigError>)
        ensures
            r is Ok <==> config_valid(*config),
            r matches Ok(c) ==> compiled_view(c) == config_view(*config),
            r matches Err(e) ==> e matches ConfigError::InvalidPattern { index } && index
                < config.link_regexes@.len() && !pattern_valid(
                config.link_regexes@[index as int].regex@,
            ) && forall|j: int| 0 <= j < index ==> pattern_valid(#[trigger] config.link_regexes@[j].regex@),
    {
        let rules = &config.link_regexes;
        let n = rules.len();
        let mut out: Vec<CompiledLinkRegex> = Vec::new();
        let mut i: usize = 0;
        while i < n
            invariant
                rules@ == config.link_regexes@,
                n == rules@.len(),
                i <= n,
                out@.len() == i,
                forall|j: int| 0 <= j < i ==> pattern_valid(#[trigger] rules@[j].regex@),
                forall|j: int| 0 <= j < i ==> compiled_rule_view(#[trigger] out@[j]) == rule_view(rules@[j]),
            decreases n - i,
        {
            let rule = &rules[i];
            let expanded = regex_macros(rule.regex.as_str());
            match build_case_insensitive(expanded.as_str()) {
                Ok(matcher) => {
                    out.push(
                        CompiledLinkRegex {
                            regex: matcher,
                            pattern: rule.regex.clone(),
                            fixup: clone_opt(&rule.fixup),
                            no_video: clone_opt(&rule.no_video),
                        },
                    );
                },
                Err(_) => {
                    return Err(ConfigError::InvalidPattern { index: i });
                },
            }
            i = i + 1;
        }
        let c = CompiledConfig { link_regexes: out, admin_guild: config.admin_guild };
        assert(compiled_view(c).0 =~= config_view(*config).0);
        Ok(c)
    }

    /// Whether a message posted in `channel_id` of `guild_id` (none for a
    /// direct message) is an edit of the configuration: it must come from
    /// the admin guild's configuration channel.
    pub fn is_admin_config_channel(&self, guild_id: Option<u64>, channel_id: u64) -> (r: bool)
        ensures
            r == (self.admin_guild matches Some(a) && guild_id == Some(a.guild_id)
                && channel_id == a.config_channel_id),
    {
        match self.admin_guild {
            Some(a) => match guild_id {
                Some(g) => g == a.guild_id && channel_id == a.config_channel_id,
                None => false,
            },
            None => false,
        }
    }
}

impl Default for CompiledConfig {
    fn default() -> (r: CompiledConfig)
        ensures
            r.link_regexes@.len() == 0,
            r.admin_guild is None,
    {
        CompiledConfig { link_regexes: Vec::new(), admin_guild: None }
    }
}

/// Relies on `Arc::clone`: the new handle points at the same value.
#[verifier::external_body]
fn share(a: &Arc<CompiledConfig>) -> (r: Arc<CompiledConfig>)
    ensures
        r == *a,
{
    Arc::clone(a)
}

/// The committed configuration and its generation, the state that the
/// store's critical section guards.
#[derive(Debug)]
pub struct ConfigStore {
    pub generation: u64,
    pub config: Arc<CompiledConfig>,
}

/// What an edit of `before` with `config` returns and leaves behind: the
/// configuration is committed with the next generation exactly when every
/// pattern compiles and the counter has room; otherwise nothing changes.
pub open spec fn edit_relation(
    before: ConfigStore,
    config: Config,
    result: Result<(), ConfigError>,
    after: ConfigStore,
) -> bool {
    &&& result is Ok <==> (config_valid(config) && before.generation < u64::MAX)
    &&& result is Ok ==> {
        &&& after.generation == before.generation + 1
        &&& compiled_view(*after.config) == config_view(config)
    }
    &&& result is Err ==> after == before
    &&& !config_valid(config) ==> result matches Err(ConfigError::InvalidPattern { .. })
}

/// What a read of `store` returns: the committed pair, as it stands.
pub open spec fn read_relation(store: ConfigStore, r: (u64, Arc<CompiledConfig>)) -> bool {
    r.0 == store.generation && r.1 == store.config
}

impl ConfigStore {
    /// A store that serves `config` as generation zero.
    pub fn new(config: CompiledConfig) -> (r: ConfigStore)
        ensures
            r.generation == 0,
            *r.config == config,
    {
        ConfigStore { generation: 0, config: Arc::new(config) }
    }

    /// The committed generation and configuration.
    pub fn read(&self) -> (r: (u64, Arc<CompiledConfig>))
        ensures
            read_relation(*self, r),
    {
        (self.generation, share(&self.config))
    }

    /// Commits an already compiled configuration under the next generation.
    pub fn commit(&mut self, config: CompiledConfig) -> (r: Result<u64, ConfigError>)
        ensures
            old(self).generation < u64::MAX ==> r == Ok::<u64, ConfigError>(
                (old(self).generation + 1) as u64,
            ) && final(self).generation == old(self).generation + 1 && *final(self).config
                == config,
            old(self).generation == u64::MAX ==> r == Err::<u64, ConfigError>(
                ConfigError::GenerationExhausted,
            ) && *final(self) == *old(self),
    {
        if self.generation == u64::MAX {
            return Err(ConfigError::GenerationExhausted);
        }
        self.generation = self.generation + 1;
        self.config = Arc::new(config);
        Ok(self.generation)
    }

    /// Validates `config` and commits it; a configuration with a pattern
    /// that does not compile leaves the store untouched.
    pub fn edit(&mut self, config: &Config) -> (r: Result<(), ConfigError>)
        ensures
            edit_relation(*old(self), *config, r, *final(self)),
    {
        let compiled = match CompiledConfig::try_from(config) {
            Ok(c) => c,
            Err(e) => {
                return Err(e);
            },
        };
        match self.commit(compiled) {
            Ok(_) => Ok(()),
            Err(e) => Err(e),
        }
    }
}

/// Committing a valid configuration and then reading yields that
/// configuration, under a newer generation.
pub proof fn lemma_edit_then_read(
    before: ConfigStore,
    config: Config,
    result: Result<(), ConfigError>,
    after: ConfigStore,
    read: (u64, Arc<CompiledConfig>),
)
    requires
        config_valid(config),
        before.generation < u64::MAX,
        edit_relation(before, config, result, after),
        read_relation(after, read),
    ensures
        result is Ok,
        compiled_view(*read.1) == config_view(config),
        read.0 > before.generation,
{
}

/// An edit with a pattern that does not compile fails and leaves what a
/// read returns unchanged.
pub proof fn lemma_rejected_edit_keeps_reads(
    before: ConfigStore,
    config: Config,
    result: Result<(), ConfigError>,
    after: ConfigStore,
    read_before: (u64, Arc<CompiledConfig>),
    read_after: (u64, Arc<CompiledConfig>),
)
    requires
        !config_valid(config),
        edit_relation(before, config, result, after),
        read_relation(before, read_before),
        read_relation(after, read_after),
    ensures
        result is Err,
        read_after == read_before,
{
}

/// One reader's private copy of the last pair it saw.
#[derive(Debug)]
pub struct ReaderCache {
    pub entry: Option<(u64, Arc<CompiledConfig>)>,
}

impl ReaderCache {
    /// A cache that has seen nothing yet.
    pub fn new() -> (r: ReaderCache)
        ensures
            r.entry is None,
    {
        ReaderCache { entry: None }
    }

    /// The cached configuration, where the store's counter still shows the
    /// cached generation.
    pub fn lookup(&self, counter: u64) -> (r: Option<Arc<CompiledConfig>>)
        ensures
            self.entry matches Some(e) ==> (e.0 == counter ==> r == Some(e.1)),
            !(self.entry matches Some(e) && e.0 == counter) ==> r is None,
    {
        match &self.entry {
            Some(e) => {
                if e.0 == counter {
                    Some(share(&e.1))
                } else {
                    None
                }
            },
            None => None,
        }
    }

    /// Takes in a pair copied from the store and returns the pair that the
    /// reader is to use: the copied one, unless the cache already holds a
    /// newer generation. A reader never goes back to an older generation.
    pub fn observe(&mut self, generation: u64, config: Arc<CompiledConfig>) -> (r: (
        u64,
        Arc<CompiledConfig>,
    ))
        ensures
            final(self).entry == Some(r),
            old(self).entry matches Some(e) ==> r.0 >= e.0,
            (old(self).entry matches Some(e) && e.0 > generation) ==> *final(self) == *old(self),
            !(old(self).entry matches Some(e) && e.0 > generation) ==> r == (generation, config),
    {
        match &self.entry {
            Some(e) => {
                if e.0 > generation {
                    return (e.0, share(&e.1));
                }
            },
            None => {},
        }
        self.entry = Some((generation, share(&config)));
        (generation, config)
    }
}

} // verus!
