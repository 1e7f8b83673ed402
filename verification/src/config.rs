//! Settings of the viewer and their defaults.

use vstd::prelude::*;
use vstd::string::*;

verus! {

/// Where the broker is and how to log in.
#[derive(Debug)]
pub struct MqttConfig {
    pub host: String,
    pub port: u16,
    pub username: Option<String>,
    pub password: Option<String>,
    pub client_id: String,
}

/// Where messages are kept and for how long.
#[derive(Debug)]
pub struct DatabaseConfig {
    pub path: String,
    pub max_messages: u64,
    pub auto_cleanup: bool,
    pub cleanup_days: u32,
}

/// How the screens behave.
#[derive(Debug)]
pub struct UiConfig {
    pub refresh_interval_ms: u64,
    pub max_payload_preview: usize,
    pub theme: String,
    pub enable_json_highlight: bool,
}

/// Limits on memory and batching.
#[derive(Debug)]
pub struct PerformanceConfig {
    pub max_memory_mb: u64,
    pub cache_size: usize,
    pub batch_size: usize,
}

/// One keyword rule of the quick-filter bar.
#[derive(Debug)]
pub struct QuickFilter {
    pub name: String,
    pub pattern: String,
    pub color: String,
    pub hotkey: String,
    pub enabled: bool,
    pub case_sensitive: bool,
}

/// The quick-filter bar: whether it is shown, and its rules.
#[derive(Debug)]
pub struct QuickFiltersConfig {
    pub enabled: bool,
    pub filters: Vec<QuickFilter>,
}

/// All settings.
#[derive(Debug)]
pub struct Config {
    pub mqtt: MqttConfig,
    pub database: DatabaseConfig,
    pub ui: UiConfig,
    pub performance: PerformanceConfig,
    pub quick_filters: QuickFiltersConfig,
}

/// A keyword rule as a value: its texts are sequences of characters.
pub struct QuickFilterView {
    pub name: Seq<char>,
    pub pattern: Seq<char>,
    pub color: Seq<char>,
    pub hotkey: Seq<char>,
    pub enabled: bool,
    pub case_sensitive: bool,
}

impl View for QuickFilter {
    type V = QuickFilterView;

    open spec fn view(&self) -> QuickFilterView {
        QuickFilterView {
            name: self.name@,
            pattern: self.pattern@,
            color: self.color@,
            hotkey: self.hotkey@,
            enabled: self.enabled,
            case_sensitive: self.case_sensitive,
        }
    }
}

impl QuickFilterView {
    /// The pattern of the rule occurs in the content; a rule that is blind
    /// to case compares the lower-case forms.
    pub open spec fn matches(self, content: Seq<char>) -> bool {
        if self.case_sensitive {
            crate::text::is_substring(self.pattern, content)
        } else {
            crate::text::is_substring(
                crate::text::lowercase_of(self.pattern),
                crate::text::lowercase_of(content),
            )
        }
    }
}

/// The quick-filter bar never holds more rules than this.
pub const QUICK_FILTER_SLOTS: usize = 5;

/// A rule named after its own keyword, switched on, blind to case.
pub open spec fn is_keyword_rule(
    rule: QuickFilter,
    keyword: Seq<char>,
    color: Seq<char>,
    hotkey: Seq<char>,
) -> bool {
    rule@ == (QuickFilterView {
        name: keyword,
        pattern: keyword,
        color,
        hotkey,
        enabled: true,
        case_sensitive: false,
    })
}

/// The rules that a fresh installation starts with: the five log levels.
pub open spec fn are_default_rules(rules: Seq<QuickFilter>) -> bool {
    &&& rules.len() == 5
    &&& is_keyword_rule(rules[0], "INFO"@, "light_green"@, "F1"@)
    &&& is_keyword_rule(rules[1], "WARN"@, "yellow"@, "F2"@)
    &&& is_keyword_rule(rules[2], "ERROR"@, "red"@, "F3"@)
    &&& is_keyword_rule(rules[3], "TRACE"@, "dark_grey"@, "F4"@)
    &&& is_keyword_rule(rules[4], "DEBUG"@, "cyan"@, "F5"@)
}

/// The settings that a fresh installation starts with.
pub open spec fn is_default_config(c: Config) -> bool {
    &&& c.mqtt.host@ == "127.0.0.1"@
    &&& c.mqtt.port == 1883
    &&& c.mqtt.username is None
    &&& c.mqtt.password is None
    &&& c.mqtt.client_id@ == "mqtt_log_viewer"@
    &&& c.database.path@ == "./mqtt_logs.db"@
    &&& c.database.max_messages == 100_000
    &&& c.database.auto_cleanup
    &&& c.database.cleanup_days == 30
    &&& c.ui.refresh_interval_ms == 250
    &&& c.ui.max_payload_preview == 50
    &&& c.ui.theme@ == "dark"@
    &&& c.ui.enable_json_highlight
    &&& c.performance.max_memory_mb == 100
    &&& c.performance.cache_size == 1000
    &&& c.performance.batch_size == 100
    &&& c.quick_filters.enabled
    &&& are_default_rules(c.quick_filters.filters@)
}

impl QuickFilter {
    /// A rule named after its own keyword, switched on, blind to case.
    pub fn keyword(keyword: &str, color: &str, hotkey: &str) -> (rule: QuickFilter)
        ensures
            is_keyword_rule(rule, keyword@, color@, hotkey@),
    {
        QuickFilter {
            name: String::from_str(keyword),
            pattern: String::from_str(keyword),
            color: String::from_str(color),
            hotkey: String::from_str(hotkey),
            enabled: true,
            case_sensitive: false,
        }
    }
}

impl Clone for QuickFilter {
    fn clone(&self) -> (out: Self)
        ensures
            out == *self,
    {
        QuickFilter {
            name: self.name.clone(),
            pattern: self.pattern.clone(),
            color: self.color.clone(),
            hotkey: self.hotkey.clone(),
            enabled: self.enabled,
            case_sensitive: self.case_sensitive,
        }
    }
}

/// The five log-level rules.
pub fn default_rules() -> (rules: Vec<QuickFilter>)
    ensures
        are_default_rules(rules@),
{
    let mut rules: Vec<QuickFilter> = Vec::new();
    rules.push(QuickFilter::keyword("INFO", "light_green", "F1"));
    rules.push(QuickFilter::keyword("WARN", "yellow", "F2"));
    rules.push(QuickFilter::keyword("ERROR", "red", "F3"));
    rules.push(QuickFilter::keyword("TRACE", "dark_grey", "F4"));
    rules.push(QuickFilter::keyword("DEBUG", "cyan", "F5"));
    rules
}

/// The first rules of a list, at most as many as the bar has slots.
pub fn leading_rules(rules: &Vec<QuickFilter>) -> (out: Vec<QuickFilter>)
    ensures
        out@ == rules@.take(
            if rules@.len() <= QUICK_FILTER_SLOTS {
                rules@.len() as int
            } else {
                QUICK_FILTER_SLOTS as int
            },
        ),
{
    let mut out: Vec<QuickFilter> = Vec::new();
    let mut i: usize = 0;
    while i < rules.len() && i < QUICK_FILTER_SLOTS
        invariant
            i <= rules.len(),
            i <= QUICK_FILTER_SLOTS,
            out@ == rules@.take(i as int),
        decreases rules.len() - i,
    {
        out.push(rules[i].clone());
        assert(out@ =~= rules@.take(i + 1));
        i = i + 1;
    }
    out
}

impl Clone for Config {
    fn clone(&self) -> (out: Self)
        ensures
            out.mqtt.host == self.mqtt.host,
            out.mqtt.port == self.mqtt.port,
            out.mqtt.username == self.mqtt.username,
            out.mqtt.password == self.mqtt.password,
            out.mqtt.client_id == self.mqtt.client_id,
            out.database == self.database,
            out.ui == self.ui,
            out.performance == self.performance,
            out.quick_filters.enabled == self.quick_filters.enabled,
            out.quick_filters.filters@ == self.quick_filters.filters@,
    {
        let mut filters: Vec<QuickFilter> = Vec::new();
        let mut i: usize = 0;
        while i < self.quick_filters.filters.len()
            invariant
                i <= self.quick_filters.filters.len(),
                filters@ == self.quick_filters.filters@.take(i as int),
            decreases self.quick_filters.filters.len() - i,
        {
            filters.push(self.quick_filters.filters[i].clone());
            assert(filters@ =~= self.quick_filters.filters@.take(i + 1));
            i = i + 1;
        }
        assert(self.quick_filters.filters@.take(i as int) =~= self.quick_filters.filters@);
        Config {
            mqtt: MqttConfig {
                host: self.mqtt.host.clone(),
                port: self.mqtt.port,
                username: crate::models::clone_text(&self.mqtt.username),
                password: crate::models::clone_text(&self.mqtt.password),
                client_id: self.mqtt.client_id.clone(),
            },
            database: DatabaseConfig {
                path: self.database.path.clone(),
                max_messages: self.database.max_messages,
                auto_cleanup: self.database.auto_cleanup,
                cleanup_days: self.database.cleanup_days,
            },
            ui: UiConfig {
                refresh_interval_ms: self.ui.refresh_interval_ms,
                max_payload_preview: self.ui.max_payload_preview,
                theme: self.ui.theme.clone(),
                enable_json_highlight: self.ui.enable_json_highlight,
            },
            performance: PerformanceConfig {
                max_memory_mb: self.performance.max_memory_mb,
                cache_size: self.performance.cache_size,
                batch_size: self.performance.batch_size,
            },
            quick_filters: QuickFiltersConfig { enabled: self.quick_filters.enabled, filters },
        }
    }
}

impl Default for Config {
    fn default() -> (out: Self)
        ensures
            is_default_config(out),
    {
        Config {
            mqtt: MqttConfig {
                host: String::from_str("127.0.0.1"),
                port: 1883,
                username: None,
                password: None,
                client_id: String::from_str("mqtt_log_viewer"),
            },
            database: DatabaseConfig {
                path: String::from_str("./mqtt_logs.db"),
                max_messages: 100_000,
                auto_cleanup: true,
                cleanup_days: 30,
            },
            ui: UiConfig {
                refresh_interval_ms: 250,
                max_payload_preview: 50,
                theme: String::from_str("dark"),
                enable_json_highlight: true,
            },
            performance: PerformanceConfig {
                max_memory_mb: 100,
                cache_size: 1000,
                batch_size: 100,
            },
            quick_filters: QuickFiltersConfig { enabled: true, filters: default_rules() },
        }
    }
}

} // verus!
