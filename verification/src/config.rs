//! Application configuration: defaults, the two per-platform sections of the
//! configuration file, and how key/value updates are applied to them.
//! Reading and writing the file happens outside this module.

use vstd::prelude::*;
use crate::text::{str_eq, to_owned_string};

verus! {

/// Works asked for per page when the file does not say.
pub fn default_page_counts() -> (res: u32)
    ensures
        res == 20,
{
    20
}

/// Request timeout in seconds when the file does not say.
pub fn default_timeout() -> (res: u32)
    ensures
        res == 5,
{
    5
}

/// Connections per host when the file does not say.
pub fn default_max_connections() -> (res: u32)
    ensures
        res == 5,
{
    5
}

/// Attempts per download when the file does not say.
pub fn default_max_retries() -> (res: u32)
    ensures
        res == 5,
{
    5
}

/// Concurrent downloads when the file does not say.
pub fn default_max_tasks() -> (res: u32)
    ensures
        res == 10,
{
    10
}

/// Name for what `str::parse::<u32>` returns (`None` on a parse error).
pub uninterp spec fn spec_parse_u32(s: Seq<char>) -> Option<u32>;

/// Calls `str::parse::<u32>` and keeps the value when parsing succeeds.
/// Claimed of it: the result is the named parse of the input.
#[verifier::external_body]
pub(crate) fn parse_u32(s: &str) -> (res: Option<u32>)
    ensures
        res == spec_parse_u32(s@),
{
    s.parse::<u32>().ok()
}

/// Application configuration of one platform.
#[derive(Debug, Clone)]
pub struct AppConfig {
    pub cookie: String,
    pub download_path: String,
    pub naming: String,
    pub encryption: String,
    pub proxy: String,
    pub app_name: String,
    pub folderize: bool,
    pub music: bool,
    pub cover: bool,
    pub desc: bool,
    pub interval: Option<String>,
    pub page_counts: u32,
    pub max_counts: u32,
    pub timeout: u32,
    pub max_connections: u32,
    pub max_retries: u32,
    pub max_tasks: u32,
}

/// Mathematical model of an [`AppConfig`].
pub struct AppConfigModel {
    pub cookie: Seq<char>,
    pub download_path: Seq<char>,
    pub naming: Seq<char>,
    pub encryption: Seq<char>,
    pub proxy: Seq<char>,
    pub app_name: Seq<char>,
    pub folderize: bool,
    pub music: bool,
    pub cover: bool,
    pub desc: bool,
    pub interval: Option<Seq<char>>,
    pub page_counts: u32,
    pub max_counts: u32,
    pub timeout: u32,
    pub max_connections: u32,
    pub max_retries: u32,
    pub max_tasks: u32,
}

impl View for AppConfig {
    type V = AppConfigModel;

    open spec fn view(&self) -> AppConfigModel {
        AppConfigModel {
            cookie: self.cookie@,
            download_path: self.download_path@,
            naming: self.naming@,
            encryption: self.encryption@,
            proxy: self.proxy@,
            app_name: self.app_name@,
            folderize: self.folderize,
            music: self.music,
            cover: self.cover,
            desc: self.desc,
            interval: match self.interval {
                Some(s) => Some(s@),
                None => None,
            },
            page_counts: self.page_counts,
            max_counts: self.max_counts,
            timeout: self.timeout,
            max_connections: self.max_connections,
            max_retries: self.max_retries,
            max_tasks: self.max_tasks,
        }
    }
}

/// The default configuration, named after `app_name`.
pub open spec fn default_model(app_name: Seq<char>) -> AppConfigModel {
    AppConfigModel {
        cookie: Seq::empty(),
        download_path: "Download"@,
        naming: "{create}_{desc}"@,
        encryption: "ab"@,
        proxy: Seq::empty(),
        app_name: app_name,
        folderize: false,
        music: false,
        cover: false,
        desc: false,
        interval: None,
        page_counts: 20,
        max_counts: 0,
        timeout: 5,
        max_connections: 5,
        max_retries: 5,
        max_tasks: 10,
    }
}

/// `parse` of `value`, or `fallback` when it does not parse.
pub open spec fn parsed_or(value: Seq<char>, fallback: u32) -> u32 {
    match spec_parse_u32(value) {
        Some(n) => n,
        None => fallback,
    }
}

/// The configuration after one `key = value` update; unknown keys change
/// nothing, boolean keys are set by `value == "true"`, numeric keys fall back
/// to their default when `value` does not parse.
pub open spec fn apply_update(c: AppConfigModel, key: Seq<char>, value: Seq<char>) -> AppConfigModel {
    if key == "cookie"@ {
        AppConfigModel { cookie: value, ..c }
    } else if key == "download_path"@ {
        AppConfigModel { download_path: value, ..c }
    } else if key == "naming"@ {
        AppConfigModel { naming: value, ..c }
    } else if key == "encryption"@ {
        AppConfigModel { encryption: value, ..c }
    } else if key == "proxy"@ {
        AppConfigModel { proxy: value, ..c }
    } else if key == "app_name"@ {
        AppConfigModel { app_name: value, ..c }
    } else if key == "folderize"@ {
        AppConfigModel { folderize: value == "true"@, ..c }
    } else if key == "music"@ {
        AppConfigModel { music: value == "true"@, ..c }
    } else if key == "cover"@ {
        AppConfigModel { cover: value == "true"@, ..c }
    } else if key == "desc"@ {
        AppConfigModel { desc: value == "true"@, ..c }
    } else if key == "interval"@ {
        AppConfigModel { interval: Some(value), ..c }
    } else if key == "page_counts"@ {
        AppConfigModel { page_counts: parsed_or(value, 20), ..c }
    } else if key == "max_counts"@ {
        AppConfigModel { max_counts: parsed_or(value, 0), ..c }
    } else if key == "timeout"@ {
        AppConfigModel { timeout: parsed_or(value, 5), ..c }
    } else if key == "max_connections"@ {
        AppConfigModel { max_connections: parsed_or(value, 5), ..c }
    } else if key == "max_retries"@ {
        AppConfigModel { max_retries: parsed_or(value, 5), ..c }
    } else if key == "max_tasks"@ {
        AppConfigModel { max_tasks: parsed_or(value, 10), ..c }
    } else {
        c
    }
}

/// The configuration after all updates, applied in order.
pub open spec fn apply_updates(c: AppConfigModel, updates: Seq<(Seq<char>, Seq<char>)>) -> AppConfigModel
    decreases updates.len(),
{
    if updates.len() == 0 {
        c
    } else {
        let last = updates.last();
        apply_update(apply_updates(c, updates.drop_last()), last.0, last.1)
    }
}

/// The updates seen as pairs of character sequences.
pub open spec fn update_views(u: Seq<(String, String)>) -> Seq<(Seq<char>, Seq<char>)> {
    u.map_values(|p: (String, String)| (p.0@, p.1@))
}

fn clone_opt(s: &Option<String>) -> (res: Option<String>)
    ensures
        res == *s,
{
    match s {
        Some(v) => Some(v.clone()),
        None => None,
    }
}

impl AppConfig {
    /// The built-in defaults (`app_name` "douyin").
    pub fn default() -> (res: Self)
        ensures
            res@ == default_model("douyin"@),
    {
        Self::default_named("douyin")
    }

    /// The defaults with another `app_name`.
    pub fn default_named(app_name: &str) -> (res: Self)
        ensures
            res@ == default_model(app_name@),
    {
        AppConfig {
            cookie: String::new(),
            download_path: to_owned_string("Download"),
            naming: to_owned_string("{create}_{desc}"),
            encryption: to_owned_string("ab"),
            proxy: String::new(),
            app_name: to_owned_string(app_name),
            folderize: false,
            music: false,
            cover: false,
            desc: false,
            interval: None,
            page_counts: 20,
            max_counts: 0,
            timeout: 5,
            max_connections: 5,
            max_retries: 5,
            max_tasks: 10,
        }
    }

    /// A field-by-field copy.
    pub fn duplicate(&self) -> (res: Self)
        ensures
            res == *self,
    {
        AppConfig {
            cookie: self.cookie.clone(),
            download_path: self.download_path.clone(),
            naming: self.naming.clone(),
            encryption: self.encryption.clone(),
            proxy: self.proxy.clone(),
            app_name: self.app_name.clone(),
            folderize: self.folderize,
            music: self.music,
            cover: self.cover,
            desc: self.desc,
            interval: clone_opt(&self.interval),
            page_counts: self.page_counts,
            max_counts: self.max_counts,
            timeout: self.timeout,
            max_connections: self.max_connections,
            max_retries: self.max_retries,
            max_tasks: self.max_tasks,
        }
    }

    /// Applies one `key = value` update.
    pub fn apply(&mut self, key: &str, value: &str)
        ensures
            final(self)@ == apply_update(old(self)@, key@, value@),
    {
        if str_eq(key, "cookie") {
            self.cookie = to_owned_string(value);
        } else if str_eq(key, "download_path") {
            self.download_path = to_owned_string(value);
        } else if str_eq(key, "naming") {
            self.naming = to_owned_string(value);
        } else if str_eq(key, "encryption") {
            self.encryption = to_owned_string(value);
        } else if str_eq(key, "proxy") {
            self.proxy = to_owned_string(value);
        } else if str_eq(key, "app_name") {
            self.app_name = to_owned_string(value);
        } else if str_eq(key, "folderize") {
            self.folderize = str_eq(value, "true");
        } else if str_eq(key, "music") {
            self.music = str_eq(value, "true");
        } else if str_eq(key, "cover") {
            self.cover = str_eq(value, "true");
        } else if str_eq(key, "desc") {
            self.desc = str_eq(value, "true");
        } else if str_eq(key, "interval") {
            self.interval = Some(to_owned_string(value));
        } else if str_eq(key, "page_counts") {
            self.page_counts = parse_or(value, 20);
        } else if str_eq(key, "max_counts") {
            self.max_counts = parse_or(value, 0);
        } else if str_eq(key, "timeout") {
            self.timeout = parse_or(value, 5);
        } else if str_eq(key, "max_connections") {
            self.max_connections = parse_or(value, 5);
        } else if str_eq(key, "max_retries") {
            self.max_retries = parse_or(value, 5);
        } else if str_eq(key, "max_tasks") {
            self.max_tasks = parse_or(value, 10);
        }
    }
}

fn parse_or(value: &str, fallback: u32) -> (res: u32)
    ensures
        res == parsed_or(value@, fallback),
{
    match parse_u32(value) {
        Some(n) => n,
        None => fallback,
    }
}

/// Both platform sections of the configuration file.
#[derive(Debug, Clone)]
pub struct ConfigFile {
    pub douyin: Option<AppConfig>,
    pub tiktok: Option<AppConfig>,
}

impl ConfigFile {
    /// Both sections present with their defaults (`app_name` "douyin" and
    /// "tiktok").
    pub fn default() -> (res: Self)
        ensures
            res.douyin matches Some(d) && d@ == default_model("douyin"@),
            res.tiktok matches Some(t) && t@ == default_model("tiktok"@),
    {
        ConfigFile {
            douyin: Some(AppConfig::default()),
            tiktok: Some(AppConfig::default_named("tiktok")),
        }
    }
}

/// Configuration manager: the path of the configuration file and its
/// current contents.
#[derive(Debug)]
pub struct ConfigManager {
    pub config_path: String,
    pub config: ConfigFile,
}

impl ConfigManager {
    /// A manager for `config_path`; `loaded` is what was read and parsed
    /// from that file, if anything was, else the defaults are used.
    pub fn new(config_path: String, loaded: Option<ConfigFile>) -> (res: Self)
        ensures
            res.config_path@ == config_path@,
            loaded matches Some(c) ==> res.config == c,
            loaded is None ==> (res.config.douyin matches Some(d) && d@ == default_model("douyin"@))
                && (res.config.tiktok matches Some(t) && t@ == default_model("tiktok"@)),
    {
        let config = match loaded {
            Some(c) => c,
            None => ConfigFile::default(),
        };
        ConfigManager { config_path, config }
    }

    /// The douyin section, or the defaults when it is absent.
    pub fn get_douyin_config(&self) -> (res: AppConfig)
        ensures
            self.config.douyin matches Some(d) ==> res == d,
            self.config.douyin is None ==> res@ == default_model("douyin"@),
    {
        match &self.config.douyin {
            Some(d) => d.duplicate(),
            None => AppConfig::default(),
        }
    }

    /// The tiktok section, or the defaults (`app_name` "douyin", as the
    /// plain default) when it is absent.
    pub fn get_tiktok_config(&self) -> (res: AppConfig)
        ensures
            self.config.tiktok matches Some(t) ==> res == t,
            self.config.tiktok is None ==> res@ == default_model("douyin"@),
    {
        match &self.config.tiktok {
            Some(t) => t.duplicate(),
            None => AppConfig::default(),
        }
    }

    /// Applies `key = value` updates, in order, to the douyin section (taken
    /// from its defaults when absent); the tiktok section is untouched. The
    /// caller then saves the file.
    pub fn update_douyin_config(&mut self, updates: &Vec<(String, String)>)
        ensures
            final(self).config_path == old(self).config_path,
            final(self).config.tiktok == old(self).config.tiktok,
            final(self).config.douyin matches Some(d) && d@ == apply_updates(
                match old(self).config.douyin {
                    Some(d0) => d0@,
                    None => default_model("douyin"@),
                },
                update_views(updates@),
            ),
    {
        let mut config = self.get_douyin_config();
        let ghost start = config@;
        let mut i: usize = 0;
        while i < updates.len()
            invariant
                i <= updates@.len(),
                config@ == apply_updates(start, update_views(updates@).take(i as int)),
            decreases updates@.len() - i,
        {
            proof {
                let u = update_views(updates@);
                assert(u.take(i + 1).drop_last() =~= u.take(i as int));
                assert(u.take(i + 1).last() == u[i as int]);
            }
            config.apply(updates[i].0.as_str(), updates[i].1.as_str());
            i = i + 1;
        }
        proof {
            assert(update_views(updates@).take(i as int) =~= update_views(updates@));
        }
        self.config.douyin = Some(config);
    }
}

} // verus!

verus! {

/// Whether a key is one of the configuration's fields.
pub open spec fn known_key(key: Seq<char>) -> bool {
    key == "cookie"@ || key == "download_path"@ || key == "naming"@ || key == "encryption"@ || key == "proxy"@
        || key == "app_name"@ || key == "folderize"@ || key == "music"@ || key == "cover"@ || key == "desc"@
        || key == "interval"@ || key == "page_counts"@ || key == "max_counts"@ || key == "timeout"@
        || key == "max_connections"@ || key == "max_retries"@ || key == "max_tasks"@
}

/// An update with an unknown key changes nothing.
pub proof fn lemma_unknown_key_ignored(c: AppConfigModel, key: Seq<char>, value: Seq<char>)
    requires
        !known_key(key),
    ensures
        apply_update(c, key, value) == c,
{
}

/// Applying the same update twice is applying it once: the last write of a
/// key wins.
pub proof fn lemma_update_idempotent(c: AppConfigModel, key: Seq<char>, value: Seq<char>)
    ensures
        apply_update(apply_update(c, key, value), key, value) == apply_update(c, key, value),
{
}

} // verus!
