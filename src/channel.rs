//! Native log channels.
//!
//! A channel is either one the library creates for a (subsystem, category)
//! pair, which it owns and must release exactly once, or the process-wide
//! default channel, which it only borrows and never releases. The two are
//! told apart by their variant, not by comparing handles at run time.
use vstd::prelude::*;
use vstd::string::StringSliceAdditionalSpecFns;
use vstd::utf8::encode_utf8;
use crate::cstring::{c_string_of, to_cstr};
use crate::level::Level;

verus! {

/// Which native channel a handle stands for.
#[derive(Clone)]
pub enum Channel {
    /// A channel created for one subsystem and category, owned by its handle.
    Named { subsystem: String, category: String },
    /// The process-wide default channel, borrowed by every handle to it.
    Default,
}

/// The mathematical value of a [`Channel`].
pub enum ChannelView {
    Named(Seq<char>, Seq<char>),
    Default,
}

impl View for Channel {
    type V = ChannelView;

    open spec fn view(&self) -> ChannelView {
        match self {
            Channel::Named { subsystem, category } => ChannelView::Named(subsystem@, category@),
            Channel::Default => ChannelView::Default,
        }
    }
}

/// The null-terminated bytes handed to the native side for a text.
pub open spec fn native_text(s: Seq<char>) -> Seq<u8> {
    c_string_of(encode_utf8(s))
}

impl Channel {
    /// A copy of this channel with the same names.
    pub fn duplicate(&self) -> (r: Channel)
        ensures
            r@ == self@,
    {
        match self {
            Channel::Named { subsystem, category } => Channel::Named {
                subsystem: subsystem.clone(),
                category: category.clone(),
            },
            Channel::Default => Channel::Default,
        }
    }

    /// The (subsystem, category) bytes that create this channel natively;
    /// `None` for the default channel, which is never created.
    pub fn native_names(&self) -> (r: Option<(Vec<u8>, Vec<u8>)>)
        ensures
            match self@ {
                ChannelView::Named(s, c) => r matches Some(p) && p.0@ == native_text(s)
                    && p.1@ == native_text(c),
                ChannelView::Default => r is None,
            },
    {
        match self {
            Channel::Named { subsystem, category } => Some(
                (to_cstr(subsystem.as_str()), to_cstr(category.as_str())),
            ),
            Channel::Default => None,
        }
    }

    /// Whether dropping a handle to this channel releases it: every channel
    /// but the shared default one.
    pub fn releases_on_drop(&self) -> (r: bool)
        ensures
            r == (self@ is Named),
    {
        match self {
            Channel::Named { .. } => true,
            Channel::Default => false,
        }
    }
}

/// One message as the native emit call takes it: the channel, the native
/// type code and the null-terminated text.
pub struct LogRecord {
    pub channel: Channel,
    pub code: u8,
    pub message: Vec<u8>,
}

/// A handle to one native log channel.
pub struct OSLog {
    pub(crate) channel: Channel,
}

impl View for OSLog {
    type V = ChannelView;

    closed spec fn view(&self) -> ChannelView {
        self.channel@
    }
}

impl OSLog {
    /// A handle to the channel of `subsystem` and `category`.
    pub fn new(subsystem: &str, category: &str) -> (r: OSLog)
        ensures
            r@ == ChannelView::Named(subsystem@, category@),
    {
        OSLog {
            channel: Channel::Named {
                subsystem: subsystem.to_string(),
                category: category.to_string(),
            },
        }
    }

    /// A handle to the process-wide default channel.
    pub fn global() -> (r: OSLog)
        ensures
            r@ == ChannelView::Default,
    {
        OSLog { channel: Channel::Default }
    }

    pub fn channel(&self) -> (r: &Channel)
        ensures
            r@ == self@,
    {
        &self.channel
    }

    /// Whether dropping this handle releases its channel.
    pub fn releases_on_drop(&self) -> (r: bool)
        ensures
            r == (self@ is Named),
    {
        self.channel.releases_on_drop()
    }

    /// The record that emits `message` at `level` on this channel.
    pub fn with_level(&self, level: Level, message: &str) -> (r: LogRecord)
        ensures
            r.channel@ == self@,
            r.code == level.spec_code(),
            r.message@ == native_text(message@),
    {
        LogRecord { channel: self.channel.duplicate(), code: level.code(), message: to_cstr(message) }
    }

    pub fn debug(&self, message: &str) -> (r: LogRecord)
        ensures
            r.channel@ == self@,
            r.code == Level::Debug.spec_code(),
            r.message@ == native_text(message@),
    {
        self.with_level(Level::Debug, message)
    }

    pub fn info(&self, message: &str) -> (r: LogRecord)
        ensures
            r.channel@ == self@,
            r.code == Level::Info.spec_code(),
            r.message@ == native_text(message@),
    {
        self.with_level(Level::Info, message)
    }

    pub fn default(&self, message: &str) -> (r: LogRecord)
        ensures
            r.channel@ == self@,
            r.code == Level::Default.spec_code(),
            r.message@ == native_text(message@),
    {
        self.with_level(Level::Default, message)
    }

    pub fn error(&self, message: &str) -> (r: LogRecord)
        ensures
            r.channel@ == self@,
            r.code == Level::Error.spec_code(),
            r.message@ == native_text(message@),
    {
        self.with_level(Level::Error, message)
    }

    pub fn fault(&self, message: &str) -> (r: LogRecord)
        ensures
            r.channel@ == self@,
            r.code == Level::Fault.spec_code(),
            r.message@ == native_text(message@),
    {
        self.with_level(Level::Fault, message)
    }
}

} // verus!
