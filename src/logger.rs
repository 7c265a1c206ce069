//! The logging facade: one subsystem, a registry of category channels with
//! optional threshold overrides, and the process-wide threshold of the
//! `log` crate.
use vstd::prelude::*;
use crate::channel::{native_text, Channel, ChannelView, LogRecord, OSLog};
use crate::level::{LevelFilter, LogLevel};
use crate::registry_map::{
    channel_or_insert, empty_map, map_entries, set_level_or_insert, stored_level, CategoryEntry,
    CategoryMap,
};

verus! {

/// Relies on log's `set_max_level`: stores the process-wide threshold.
#[verifier::external_body]
fn set_global_level(level: LevelFilter) {
    log::set_max_level(
        match level {
            LevelFilter::Off => log::LevelFilter::Off,
            LevelFilter::Error => log::LevelFilter::Error,
            LevelFilter::Warn => log::LevelFilter::Warn,
            LevelFilter::Info => log::LevelFilter::Info,
            LevelFilter::Debug => log::LevelFilter::Debug,
            LevelFilter::Trace => log::LevelFilter::Trace,
        },
    )
}

/// Relies on log's `max_level`: reads the process-wide threshold, which any
/// thread may have changed.
#[verifier::external_body]
fn global_level() -> LevelFilter {
    match log::max_level() {
        log::LevelFilter::Off => LevelFilter::Off,
        log::LevelFilter::Error => LevelFilter::Error,
        log::LevelFilter::Warn => LevelFilter::Warn,
        log::LevelFilter::Info => LevelFilter::Info,
        log::LevelFilter::Debug => LevelFilter::Debug,
        log::LevelFilter::Trace => LevelFilter::Trace,
    }
}

/// The channel that the registry of `subsystem` keeps for `category`.
pub open spec fn category_channel(subsystem: Seq<char>, category: Seq<char>) -> ChannelView {
    ChannelView::Named(subsystem, category)
}

/// The threshold that applies to `category`: its override if one was set,
/// else `global`.
pub open spec fn threshold_in(
    entries: Map<Seq<char>, (Option<LevelFilter>, ChannelView)>,
    category: Seq<char>,
    global: LevelFilter,
) -> LevelFilter {
    if entries.contains_key(category) && entries[category].0 is Some {
        entries[category].0->Some_0
    } else {
        global
    }
}

/// The entries once `category` has a channel: unchanged if it had one, else
/// with a new entry that has no override.
pub open spec fn with_channel(
    entries: Map<Seq<char>, (Option<LevelFilter>, ChannelView)>,
    subsystem: Seq<char>,
    category: Seq<char>,
) -> Map<Seq<char>, (Option<LevelFilter>, ChannelView)> {
    if entries.contains_key(category) {
        entries
    } else {
        entries.insert(category, (None, category_channel(subsystem, category)))
    }
}

/// Two distinct categories never share a channel: neither the channels that
/// `handle_for` returns for them nor those stored in a well-formed logger.
pub proof fn lemma_channels_never_alias(l: OsLogger, c1: Seq<char>, c2: Seq<char>)
    requires
        l.wf(),
        c1 != c2,
    ensures
        category_channel(l.subsystem_name(), c1) != category_channel(l.subsystem_name(), c2),
        l.entries().contains_key(c1) && l.entries().contains_key(c2) ==> l.entries()[c1].1
            != l.entries()[c2].1,
{
}

/// Asking for the channel of a category a second time creates nothing: the
/// entries after the second request are those after the first, and the
/// channel is the same one.
pub proof fn lemma_handle_for_created_once(
    entries: Map<Seq<char>, (Option<LevelFilter>, ChannelView)>,
    subsystem: Seq<char>,
    category: Seq<char>,
)
    ensures
        with_channel(with_channel(entries, subsystem, category), subsystem, category)
            == with_channel(entries, subsystem, category),
        with_channel(entries, subsystem, category).contains_key(category),
        entries.contains_key(category) ==> with_channel(entries, subsystem, category)[category]
            == entries[category],
{
}

/// The override set last for a category decides its threshold, whatever the
/// global threshold; other categories keep theirs.
pub proof fn lemma_last_override_wins(
    entries: Map<Seq<char>, (Option<LevelFilter>, ChannelView)>,
    category: Seq<char>,
    other: Seq<char>,
    level: LevelFilter,
    channel: ChannelView,
    global: LevelFilter,
)
    requires
        other != category,
    ensures
        threshold_in(entries.insert(category, (Some(level), channel)), category, global) == level,
        threshold_in(entries.insert(category, (Some(level), channel)), other, global)
            == threshold_in(entries, other, global),
{
}

/// Creating a channel on a log call never changes a threshold: a category
/// that never had an override follows the global threshold.
pub proof fn lemma_channel_keeps_thresholds(
    entries: Map<Seq<char>, (Option<LevelFilter>, ChannelView)>,
    subsystem: Seq<char>,
    category: Seq<char>,
    other: Seq<char>,
    global: LevelFilter,
)
    ensures
        threshold_in(with_channel(entries, subsystem, category), other, global) == threshold_in(
            entries,
            other,
            global,
        ),
        !entries.contains_key(category) ==> threshold_in(
            with_channel(entries, subsystem, category),
            category,
            global,
        ) == global,
{
}

/// A logger for one subsystem that keeps one channel per category.
pub struct OsLogger {
    subsystem: String,
    category_loggers: CategoryMap,
}

impl OsLogger {
    pub closed spec fn subsystem_name(&self) -> Seq<char> {
        self.subsystem@
    }

    /// Each category's override and channel.
    pub closed spec fn entries(&self) -> Map<Seq<char>, (Option<LevelFilter>, ChannelView)> {
        map_entries(self.category_loggers)
    }

    /// Every category keeps the channel named after it in this subsystem.
    pub open spec fn wf(&self) -> bool {
        forall|c: Seq<char>| #[trigger]
            self.entries().contains_key(c) ==> self.entries()[c].1 == category_channel(
                self.subsystem_name(),
                c,
            )
    }

    /// The threshold that applies to `category` under the global `global`.
    pub open spec fn threshold(&self, category: Seq<char>, global: LevelFilter) -> LevelFilter {
        threshold_in(self.entries(), category, global)
    }

    /// A logger for `subsystem` with no categories yet.
    pub fn new(subsystem: &str) -> (r: OsLogger)
        ensures
            r.subsystem_name() == subsystem@,
            r.entries() == Map::<Seq<char>, (Option<LevelFilter>, ChannelView)>::empty(),
            r.wf(),
    {
        OsLogger { subsystem: subsystem.to_string(), category_loggers: empty_map() }
    }

    /// Sets the process-wide threshold to `max_level`.
    pub fn with_level(self, max_level: LevelFilter) -> (r: OsLogger)
        ensures
            r.subsystem_name() == self.subsystem_name(),
            r.entries() == self.entries(),
    {
        set_global_level(max_level);
        self
    }

    /// Sets the override of `category` to `level`, creating its channel the
    /// first time the category is named; a later call replaces the override.
    pub fn with_category(self, category: &str, level: LevelFilter) -> (r: OsLogger)
        requires
            self.wf(),
        ensures
            r.subsystem_name() == self.subsystem_name(),
            r.entries() == self.entries().insert(
                category@,
                (Some(level), category_channel(self.subsystem_name(), category@)),
            ),
            r.wf(),
    {
        let mut s = self;
        s.set_category(category, level);
        s
    }

    /// In place: sets the override of `category` to `level`.
    pub fn set_category(&mut self, category: &str, level: LevelFilter)
        requires
            old(self).wf(),
        ensures
            final(self).subsystem_name() == old(self).subsystem_name(),
            final(self).entries() == old(self).entries().insert(
                category@,
                (Some(level), category_channel(old(self).subsystem_name(), category@)),
            ),
            final(self).wf(),
    {
        let fresh = OSLog::new(self.subsystem.as_str(), category);
        set_level_or_insert(&mut self.category_loggers, category.to_string(), level, fresh);
    }

    /// The override set for `category`, if any.
    pub fn category_level(&self, category: &str) -> (r: Option<LevelFilter>)
        ensures
            self.entries().contains_key(category@) ==> r == self.entries()[category@].0,
            !self.entries().contains_key(category@) ==> r is None,
    {
        match stored_level(&self.category_loggers, category) {
            Some(level) => level,
            None => None,
        }
    }

    /// The threshold of `category`: its override, else `global`.
    pub fn effective_threshold(&self, category: &str, global: LevelFilter) -> (r: LevelFilter)
        ensures
            r == self.threshold(category@, global),
    {
        match self.category_level(category) {
            Some(level) => level,
            None => global,
        }
    }

    /// Whether a call of `level` to `category` is logged when the global
    /// threshold is `global`.
    pub fn enabled_with(&self, category: &str, level: LogLevel, global: LevelFilter) -> (r: bool)
        ensures
            r == level.passes(self.threshold(category@, global)),
    {
        level.is_within(self.effective_threshold(category, global))
    }

    /// Whether a call of `level` to `category` is logged under the current
    /// process-wide threshold. Where `category` has an override, that alone
    /// decides.
    pub fn enabled(&self, category: &str, level: LogLevel) -> (r: bool)
        ensures
            self.entries().contains_key(category@) && self.entries()[category@].0 is Some
                ==> r == level.passes(self.entries()[category@].0->Some_0),
    {
        let global = global_level();
        self.enabled_with(category, level, global)
    }

    /// The channel of `category`, whose entry is created and stored the
    /// first time. The result describes the channel; the native channel
    /// itself is opened by whoever emits on it.
    pub fn handle_for(&mut self, category: &str) -> (r: Channel)
        requires
            old(self).wf(),
        ensures
            r@ == category_channel(old(self).subsystem_name(), category@),
            final(self).subsystem_name() == old(self).subsystem_name(),
            final(self).entries() == with_channel(
                old(self).entries(),
                old(self).subsystem_name(),
                category@,
            ),
            final(self).wf(),
    {
        let fresh = CategoryEntry { level: None, log: OSLog::new(self.subsystem.as_str(), category) };
        channel_or_insert(&mut self.category_loggers, category.to_string(), fresh)
    }

    /// The record that emits `message` for a call of `level` to `category`
    /// when the global threshold is `global`, or `None` when the call is
    /// filtered out. A call that passes creates the category's channel if it
    /// has none yet; one that is filtered out changes nothing.
    pub fn log_with(&mut self, category: &str, level: LogLevel, message: &str, global: LevelFilter) -> (r:
        Option<LogRecord>)
        requires
            old(self).wf(),
        ensures
            final(self).subsystem_name() == old(self).subsystem_name(),
            final(self).wf(),
            !level.passes(old(self).threshold(category@, global)) ==> r is None
                && final(self).entries() == old(self).entries(),
            level.passes(old(self).threshold(category@, global)) ==> {
                &&& r matches Some(rec)
                &&& rec.channel@ == category_channel(old(self).subsystem_name(), category@)
                &&& rec.code == level.native().spec_code()
                &&& rec.message@ == native_text(message@)
                &&& final(self).entries() == with_channel(
                    old(self).entries(),
                    old(self).subsystem_name(),
                    category@,
                )
            },
    {
        if !self.enabled_with(category, level, global) {
            return None;
        }
        let channel = self.handle_for(category);
        let native = crate::level::Level::from(level);
        Some(LogRecord { channel, code: native.code(), message: crate::cstring::to_cstr(message) })
    }

    /// As `log_with`, under the current process-wide threshold.
    pub fn log(&mut self, category: &str, level: LogLevel, message: &str) -> (r: Option<LogRecord>)
        requires
            old(self).wf(),
        ensures
            final(self).subsystem_name() == old(self).subsystem_name(),
            final(self).wf(),
            r matches Some(rec) ==> rec.channel@ == category_channel(
                old(self).subsystem_name(),
                category@,
            ) && rec.code == level.native().spec_code() && rec.message@ == native_text(message@),
            final(self).entries() == if r is Some {
                with_channel(old(self).entries(), old(self).subsystem_name(), category@)
            } else {
                old(self).entries()
            },
            old(self).entries().contains_key(category@) && old(self).entries()[category@].0 is Some
                ==> (r is Some <==> level.passes(old(self).entries()[category@].0->Some_0)),
    {
        let global = global_level();
        self.log_with(category, level, message, global)
    }

    /// Nothing is buffered on this side of the native boundary.
    pub fn flush(&self) {
    }
}

} // verus!
