//! The client: its configuration, the message it is given, and the action
//! it answers with.

use vstd::prelude::*;
use crate::clock::{jakarta_wall_clock, Instant};
use crate::delivery::{
    Completion, CompletionModel, LogAction, LogActionModel, PostRequest, PostRequestModel,
};
use crate::embed::{field_models, Embed, EmbedModel, Field, FieldModel};

verus! {

/// The colour of `info`: blue.
pub const INFO_COLOR: i32 = 3447003;

/// The colour of `success`: green.
pub const SUCCESS_COLOR: i32 = 3066993;

/// The colour of `error`: red.
pub const ERROR_COLOR: i32 = 15158332;

/// One message as the caller states it.
#[derive(Debug)]
pub struct LogOptions {
    /// Meant to be non-empty; an empty title is posted as it is.
    pub title: String,
    /// May be empty.
    pub description: String,
    /// The fields in the order in which they are shown; `None` for none.
    pub fields: Option<Vec<Field>>,
    /// A 24-bit RGB colour, or `None` for the channel's default.
    pub color: Option<i32>,
}

/// A `LogOptions` as a mathematical value.
pub struct LogOptionsModel {
    pub title: Seq<char>,
    pub description: Seq<char>,
    pub fields: Option<Seq<FieldModel>>,
    pub color: Option<int>,
}

/// The models of the fields that a caller may or may not give.
pub open spec fn optional_field_models(fields: Option<Vec<Field>>) -> Option<Seq<FieldModel>> {
    match fields {
        Some(list) => Some(field_models(list@)),
        None => None,
    }
}

impl View for LogOptions {
    type V = LogOptionsModel;

    open spec fn view(&self) -> LogOptionsModel {
        LogOptionsModel {
            title: self.title@,
            description: self.description@,
            fields: optional_field_models(self.fields),
            color: match self.color {
                Some(rgb) => Some(rgb as int),
                None => None,
            },
        }
    }
}

/// The glyph that tells the reader which environment a message is from.
pub open spec fn environment_prefix(is_production: bool) -> Seq<char> {
    if is_production {
        "🚀"@
    } else {
        "🛠️"@
    }
}

/// The line for the error stream when no webhook is configured.
pub open spec fn disabled_warning() -> Seq<char> {
    "Discord webhook URL is not set"@
}

/// The configuration of a client as a mathematical value.
pub struct LoggerConfig {
    pub webhook_url: Seq<char>,
    pub footer_text: Seq<char>,
    pub is_production: bool,
}

impl LoggerConfig {
    /// An empty webhook URL switches delivery off.
    pub open spec fn disabled(self) -> bool {
        self.webhook_url.len() == 0
    }

    /// The embed for a message, given the two texts of the time.
    pub open spec fn compose(
        self,
        options: LogOptionsModel,
        timestamp: Seq<char>,
        footer_time: Seq<char>,
    ) -> EmbedModel {
        EmbedModel {
            title: environment_prefix(self.is_production) + " "@ + options.title,
            description: options.description,
            color: options.color,
            fields: match options.fields {
                Some(list) => list,
                None => Seq::empty(),
            },
            timestamp,
            footer_text: self.footer_text + " | "@ + footer_time,
        }
    }

    /// How a call ends when delivery is switched off: a warning, and
    /// success.
    pub open spec fn skipped(self) -> CompletionModel {
        CompletionModel { warning: Some(disabled_warning()), confirmation: None, result: Ok(()) }
    }

    /// The action for a message, given the two texts of the time: nothing
    /// to send when delivery is switched off, else one request to the
    /// webhook with the embed as its body.
    pub open spec fn log_with(
        self,
        options: LogOptionsModel,
        timestamp: Seq<char>,
        footer_time: Seq<char>,
    ) -> LogActionModel {
        if self.disabled() {
            LogActionModel::Finished(self.skipped())
        } else {
            LogActionModel::Post(
                PostRequestModel {
                    url: self.webhook_url,
                    body: self.compose(options, timestamp, footer_time).body(),
                    title: options.title,
                },
            )
        }
    }

    /// The action for a message at given readings of the clock: `stamp` for
    /// the embed's timestamp, `footer` for its footer. `None` where chrono
    /// has no date for a reading that is needed.
    ///
    /// The footer shows the clock of Jakarta as the tz database has it. That
    /// is seven hours ahead of UTC for every reading from 1964 on, and so for
    /// every reading that `log` takes. For an earlier reading it is the
    /// offset that Jakarta kept then, such as seven and a half hours in 1963.
    pub open spec fn log_at(
        self,
        options: LogOptionsModel,
        stamp: Instant,
        footer: Instant,
    ) -> Option<LogActionModel> {
        if self.disabled() {
            Some(LogActionModel::Finished(self.skipped()))
        } else {
            match (stamp.timestamp_text(), footer.footer_time_text()) {
                (Some(timestamp), Some(footer_time)) => Some(
                    self.log_with(options, timestamp, footer_time),
                ),
                _ => None,
            }
        }
    }

    /// Whether `action` answers the message at some readings of the clock.
    pub open spec fn may_log(self, options: LogOptionsModel, action: LogActionModel) -> bool {
        exists|stamp: Instant, footer: Instant|
            (#[trigger] self.log_at(options, stamp, footer)) == Some(action)
    }

    /// What `log` may give for a message: an action that answers it at some
    /// readings of the clock, or none. A client whose delivery is switched
    /// off needs no clock and always gives its action.
    pub open spec fn may_answer(
        self,
        options: LogOptionsModel,
        answer: Option<LogActionModel>,
    ) -> bool {
        match answer {
            Some(action) => self.may_log(options, action),
            None => !self.disabled(),
        }
    }
}

/// The message that `info`, `success` and `error` hand to `log`: the
/// caller's texts and fields, and a colour.
pub open spec fn colored(
    title: Seq<char>,
    description: Seq<char>,
    fields: Option<Seq<FieldModel>>,
    color: i32,
) -> LogOptionsModel {
    LogOptionsModel { title, description, fields, color: Some(color as int) }
}

/// The model of an action that may be missing.
pub open spec fn optional_action_model(action: Option<LogAction>) -> Option<LogActionModel> {
    match action {
        Some(action) => Some(action@),
        None => None,
    }
}

/// A client for one webhook. Its configuration never changes.
pub struct DiscordLogger {
    webhook_url: String,
    footer_text: String,
    is_production: bool,
}

impl View for DiscordLogger {
    type V = LoggerConfig;

    closed spec fn view(&self) -> LoggerConfig {
        LoggerConfig {
            webhook_url: self.webhook_url@,
            footer_text: self.footer_text@,
            is_production: self.is_production,
        }
    }
}

impl DiscordLogger {
    /// A client with the given configuration, taken as it is.
    pub fn new(webhook_url: String, footer_text: String, is_production: bool) -> (logger: Self)
        ensures
            logger@ == (LoggerConfig {
                webhook_url: webhook_url@,
                footer_text: footer_text@,
                is_production,
            }),
    {
        Self { webhook_url, footer_text, is_production }
    }

    /// The glyph of the client's environment.
    pub fn get_environment_prefix(&self) -> (prefix: &'static str)
        ensures
            prefix@ == environment_prefix(self@.is_production),
    {
        if self.is_production {
            "🚀"
        } else {
            "🛠️"
        }
    }

    /// `DateTime::from_timestamp`, then `with_timezone` to
    /// `chrono_tz::Asia::Jakarta`, then `format` with `%Y-%m-%d %H:%M:%S`:
    /// the result is what `jakarta_wall_clock` names.
    #[verifier::external_body]
    fn get_formatted_timestamp(&self, at: Instant) -> (text: Option<String>)
        ensures
            text.deep_view() == jakarta_wall_clock(at.secs as int, at.nanos as int),
    {
        match chrono::DateTime::from_timestamp(at.secs, at.nanos) {
            Some(utc) => Some(
                utc.with_timezone(&chrono_tz::Asia::Jakarta).format("%Y-%m-%d %H:%M:%S").to_string(),
            ),
            None => None,
        }
    }

    /// The embed for a message, given the two texts of the time.
    pub fn compose(
        &self,
        options: LogOptions,
        timestamp: String,
        footer_time: String,
    ) -> (embed: Embed)
        ensures
            embed@ == self@.compose(options@, timestamp@, footer_time@),
    {
        let mut title = String::from_str(self.get_environment_prefix());
        title.append(" ");
        title.append(options.title.as_str());
        let mut footer_text = self.footer_text.clone();
        footer_text.append(" | ");
        footer_text.append(footer_time.as_str());
        let fields = match options.fields {
            Some(list) => list,
            None => Vec::new(),
        };
        assert(options.fields is None ==> field_models(fields@) =~= Seq::empty());
        Embed {
            title,
            description: options.description,
            color: options.color,
            fields,
            timestamp,
            footer_text,
        }
    }

    /// The action of a client whose delivery is switched off.
    fn skip(&self) -> (action: LogAction)
        ensures
            action@ == LogActionModel::Finished(self@.skipped()),
    {
        LogAction::Finished(
            Completion {
                warning: Some(String::from_str("Discord webhook URL is not set")),
                confirmation: None,
                result: Ok(()),
            },
        )
    }

    /// The action for a message, given the two texts of the time.
    pub fn log_with(
        &self,
        options: LogOptions,
        timestamp: String,
        footer_time: String,
    ) -> (action: LogAction)
        ensures
            action@ == self@.log_with(options@, timestamp@, footer_time@),
    {
        if self.webhook_url.as_str().is_empty() {
            return self.skip();
        }
        let title = options.title.clone();
        let embed = self.compose(options, timestamp, footer_time);
        LogAction::Post(PostRequest { url: self.webhook_url.clone(), body: embed.to_body(), title })
    }

    /// The action for a message at given readings of the clock; the footer
    /// shows Jakarta's clock as the tz database has it for the reading.
    pub fn log_at(
        &self,
        options: LogOptions,
        stamp: Instant,
        footer: Instant,
    ) -> (action: Option<LogAction>)
        ensures
            optional_action_model(action) == self@.log_at(options@, stamp, footer),
    {
        if self.webhook_url.as_str().is_empty() {
            return Some(self.skip());
        }
        match stamp.to_rfc3339() {
            Some(timestamp) => match self.get_formatted_timestamp(footer) {
                Some(footer_time) => Some(self.log_with(options, timestamp, footer_time)),
                None => None,
            },
            None => None,
        }
    }

    /// The action for a message now. Delivery switched off, the clock is not
    /// read; else it is read twice, first for the timestamp and then for the
    /// footer. `None` where the clock gives no reading that chrono can write.
    pub fn log(&self, options: LogOptions) -> (action: Option<LogAction>)
        ensures
            self@.may_answer(options@, optional_action_model(action)),
            action matches Some(given) ==> (given@ is Finished <==> self@.disabled()),
    {
        if self.webhook_url.as_str().is_empty() {
            let ghost any = Instant { secs: 0, nanos: 0 };
            let action = self.skip();
            assert(self@.log_at(options@, any, any) == Some(action@));
            return Some(action);
        }
        match Instant::now() {
            Some(stamp) => match Instant::now() {
                Some(footer) => self.log_at(options, stamp, footer),
                None => None,
            },
            None => None,
        }
    }

    /// `log` in blue.
    pub fn info(
        &self,
        title: String,
        description: String,
        fields: Option<Vec<Field>>,
    ) -> (action: Option<LogAction>)
        ensures
            self@.may_answer(
                colored(title@, description@, optional_field_models(fields), INFO_COLOR),
                optional_action_model(action),
            ),
            action matches Some(given) ==> (given@ is Finished <==> self@.disabled()),
    {
        self.log(LogOptions { title, description, fields, color: Some(INFO_COLOR) })
    }

    /// `log` in green.
    pub fn success(
        &self,
        title: String,
        description: String,
        fields: Option<Vec<Field>>,
    ) -> (action: Option<LogAction>)
        ensures
            self@.may_answer(
                colored(title@, description@, optional_field_models(fields), SUCCESS_COLOR),
                optional_action_model(action),
            ),
            action matches Some(given) ==> (given@ is Finished <==> self@.disabled()),
    {
        self.log(LogOptions { title, description, fields, color: Some(SUCCESS_COLOR) })
    }

    /// `log` in red.
    pub fn error(
        &self,
        title: String,
        description: String,
        fields: Option<Vec<Field>>,
    ) -> (action: Option<LogAction>)
        ensures
            self@.may_answer(
                colored(title@, description@, optional_field_models(fields), ERROR_COLOR),
                optional_action_model(action),
            ),
            action matches Some(given) ==> (given@ is Finished <==> self@.disabled()),
    {
        self.log(LogOptions { title, description, fields, color: Some(ERROR_COLOR) })
    }
}

} // verus!
