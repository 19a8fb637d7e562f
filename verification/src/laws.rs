//! What holds of every message that the client answers.

use vstd::prelude::*;
use crate::clock::Instant;
use crate::delivery::{
    accepted, CompletionModel, DeliveryErrorModel, LogActionModel, PostOutcomeModel,
    PostRequestModel,
};
use crate::embed::{EmbedModel, FieldModel};
use crate::json::Json;
use crate::logger::{
    colored, environment_prefix, LogOptionsModel, LoggerConfig, ERROR_COLOR, INFO_COLOR,
    SUCCESS_COLOR,
};

verus! {

/// The embed that a request carries: the first element of `embeds`.
pub open spec fn posted_embed(request: PostRequestModel) -> Json {
    request.body.member("embeds"@).elements()[0]
}

/// The keys of an embed are told apart by their characters, and so are
/// those of a field.
proof fn lemma_keys_differ()
    ensures
        "title"@ != "description"@,
        "title"@ != "color"@,
        "title"@ != "fields"@,
        "title"@ != "timestamp"@,
        "title"@ != "footer"@,
        "description"@ != "color"@,
        "description"@ != "fields"@,
        "description"@ != "timestamp"@,
        "description"@ != "footer"@,
        "color"@ != "fields"@,
        "color"@ != "timestamp"@,
        "color"@ != "footer"@,
        "fields"@ != "timestamp"@,
        "fields"@ != "footer"@,
        "timestamp"@ != "footer"@,
        "name"@ != "value"@,
        "name"@ != "inline"@,
        "value"@ != "inline"@,
{
    reveal_strlit("title");
    reveal_strlit("description");
    reveal_strlit("color");
    reveal_strlit("fields");
    reveal_strlit("timestamp");
    reveal_strlit("footer");
    reveal_strlit("name");
    reveal_strlit("value");
    reveal_strlit("inline");
    assert("title"@.len() == 5 && "description"@.len() == 11 && "color"@.len() == 5);
    assert("fields"@.len() == 6 && "timestamp"@.len() == 9 && "footer"@.len() == 6);
    assert("name"@.len() == 4 && "value"@.len() == 5 && "inline"@.len() == 6);
    assert("title"@[0] != "color"@[0]);
    assert("fields"@[1] != "footer"@[1]);
}

/// An embed's object has its six members and no other, each with the value
/// of its part.
pub proof fn law_embed_has_six_members(embed: EmbedModel)
    ensures
        embed.json().keys() =~= set![
            "title"@,
            "description"@,
            "color"@,
            "fields"@,
            "timestamp"@,
            "footer"@,
        ],
        embed.json().member("title"@) == Json::Text(embed.title),
        embed.json().member("description"@) == Json::Text(embed.description),
        embed.json().member("color"@) == embed.color_json(),
        embed.json().member("fields"@) == embed.fields_json(),
        embed.json().member("timestamp"@) == Json::Text(embed.timestamp),
        embed.json().member("footer"@) == embed.footer_json(),
        embed.footer_json().keys() =~= set!["text"@],
        embed.footer_json().member("text"@) == Json::Text(embed.footer_text),
{
    lemma_keys_differ();
}

/// A request's body is an object whose one member, `embeds`, is an array of
/// exactly one embed.
pub proof fn law_body_holds_one_embed(embed: EmbedModel)
    ensures
        embed.body().keys() =~= set!["embeds"@],
        embed.body().member("embeds"@).elements() =~= seq![embed.json()],
        embed.body().member("embeds"@) is Array,
{
}

/// A field's object always has `name` and `value`, in the field's own
/// characters. It has `inline` exactly where the field sets it, and then
/// with the field's own truth value.
pub proof fn law_inline_is_written_only_when_set(field: FieldModel)
    ensures
        field.json().has("name"@),
        field.json().member("name"@) == Json::Text(field.name),
        field.json().has("value"@),
        field.json().member("value"@) == Json::Text(field.value),
        field.json().has("inline"@) <==> field.inline is Some,
        field.inline is Some ==> field.json().member("inline"@) == Json::Bool(field.inline->0),
{
    lemma_keys_differ();
}

/// The fields of an embed are written as an array, whatever their number:
/// one object for each field, in the embed's order.
pub proof fn law_fields_are_written_in_order(embed: EmbedModel)
    ensures
        embed.json().has("fields"@),
        embed.json().member("fields"@) is Array,
        embed.json().member("fields"@).elements().len() == embed.fields.len(),
        forall|k: int|
            0 <= k < embed.fields.len() ==> (#[trigger] embed.json().member("fields"@).elements()[k])
                == embed.fields[k].json(),
{
    law_embed_has_six_members(embed);
}

/// What answers a message of a client with a webhook is one request, to
/// that webhook and under the caller's title, whose body holds the embed
/// composed for the message at some readings of the clock: the embed that
/// is given back.
proof fn lemma_request_carries_the_embed(
    config: LoggerConfig,
    options: LogOptionsModel,
    action: LogActionModel,
) -> (embed: EmbedModel)
    requires
        !config.disabled(),
        config.may_log(options, action),
    ensures
        action is Post,
        action->Post_0.url == config.webhook_url,
        action->Post_0.title == options.title,
        action->Post_0.body == embed.body(),
        action->Post_0.body.keys() =~= set!["embeds"@],
        action->Post_0.body.member("embeds"@) is Array,
        action->Post_0.body.member("embeds"@).elements().len() == 1,
        posted_embed(action->Post_0) == embed.json(),
        embed.title == environment_prefix(config.is_production) + " "@ + options.title,
        embed.description == options.description,
        embed.color == options.color,
        options.fields is Some ==> embed.fields == options.fields->0,
        options.fields is None ==> embed.fields == Seq::<FieldModel>::empty(),
{
    let (stamp, footer) = choose|stamp: Instant, footer: Instant|
        (#[trigger] config.log_at(options, stamp, footer)) == Some(action);
    let embed = config.compose(
        options,
        stamp.timestamp_text()->0,
        footer.footer_time_text()->0,
    );
    law_body_holds_one_embed(embed);
    embed
}

/// With a webhook configured, a message is answered with one request: to
/// that webhook, under the caller's title, with a body whose one member
/// `embeds` is an array of exactly one element.
pub proof fn law_enabled_client_posts_one_embed(
    config: LoggerConfig,
    options: LogOptionsModel,
    action: LogActionModel,
)
    requires
        !config.disabled(),
        config.may_log(options, action),
    ensures
        action is Post,
        action->Post_0.url == config.webhook_url,
        action->Post_0.title == options.title,
        action->Post_0.body.keys() =~= set!["embeds"@],
        action->Post_0.body.member("embeds"@) is Array,
        action->Post_0.body.member("embeds"@).elements().len() == 1,
{
    lemma_request_carries_the_embed(config, options, action);
}

/// Without a webhook, a message is answered with no request at all: the
/// call is over, with the warning for the error stream and success.
pub proof fn law_disabled_client_sends_nothing(
    config: LoggerConfig,
    options: LogOptionsModel,
    action: LogActionModel,
)
    requires
        config.disabled(),
        config.may_log(options, action),
    ensures
        action == LogActionModel::Finished(
            CompletionModel {
                warning: Some("Discord webhook URL is not set"@),
                confirmation: None,
                result: Ok(()),
            },
        ),
{
}

/// `info`, `success` and `error` are `log` with a colour of their own,
/// 3447003, 3066993 and 15158332, and with the caller's title, description
/// and fields as they are: what may answer one of them is what may answer
/// `log` for that message.
pub proof fn law_info_success_error_are_log_in_a_color(
    config: LoggerConfig,
    title: Seq<char>,
    description: Seq<char>,
    fields: Option<Seq<FieldModel>>,
    action: LogActionModel,
)
    ensures
        config.may_log(colored(title, description, fields, INFO_COLOR), action) == config.may_log(
            LogOptionsModel { title, description, fields, color: Some(3447003) },
            action,
        ),
        config.may_log(colored(title, description, fields, SUCCESS_COLOR), action)
            == config.may_log(
            LogOptionsModel { title, description, fields, color: Some(3066993) },
            action,
        ),
        config.may_log(colored(title, description, fields, ERROR_COLOR), action) == config.may_log(
            LogOptionsModel { title, description, fields, color: Some(15158332) },
            action,
        ),
{
}

/// The posted title is the caller's title behind the glyph of the client's
/// environment and one space.
pub proof fn law_title_tells_the_environment(
    config: LoggerConfig,
    options: LogOptionsModel,
    action: LogActionModel,
)
    requires
        !config.disabled(),
        config.may_log(options, action),
    ensures
        action is Post,
        posted_embed(action->Post_0).has("title"@),
        config.is_production ==> posted_embed(action->Post_0).member("title"@) == Json::Text(
            "🚀 "@ + options.title,
        ),
        !config.is_production ==> posted_embed(action->Post_0).member("title"@) == Json::Text(
            "🛠️ "@ + options.title,
        ),
{
    let embed = lemma_request_carries_the_embed(config, options, action);
    law_embed_has_six_members(embed);
    reveal_strlit("🚀");
    reveal_strlit("🛠️");
    reveal_strlit(" ");
    reveal_strlit("🚀 ");
    reveal_strlit("🛠️ ");
    assert("🚀"@ + " "@ =~= "🚀 "@);
    assert("🛠️"@ + " "@ =~= "🛠️ "@);
    assert(("🚀"@ + " "@) + options.title =~= "🚀 "@ + options.title);
    assert(("🛠️"@ + " "@) + options.title =~= "🛠️ "@ + options.title);
}

/// A message without fields is posted with `fields` present and an empty
/// array, never null.
pub proof fn law_absent_fields_are_an_empty_array(
    config: LoggerConfig,
    options: LogOptionsModel,
    action: LogActionModel,
)
    requires
        !config.disabled(),
        config.may_log(options, action),
        options.fields is None,
    ensures
        action is Post,
        posted_embed(action->Post_0).has("fields"@),
        posted_embed(action->Post_0).member("fields"@) == Json::Array(Seq::empty()),
{
    let embed = lemma_request_carries_the_embed(config, options, action);
    law_embed_has_six_members(embed);
    assert(embed.fields.map_values(|field: FieldModel| field.json()) =~= Seq::empty());
}

/// A message with fields is posted with one object for each of them, in
/// the caller's order.
pub proof fn law_given_fields_are_posted_in_order(
    config: LoggerConfig,
    options: LogOptionsModel,
    action: LogActionModel,
)
    requires
        !config.disabled(),
        config.may_log(options, action),
        options.fields is Some,
    ensures
        action is Post,
        posted_embed(action->Post_0).member("fields"@) is Array,
        posted_embed(action->Post_0).member("fields"@).elements().len()
            == options.fields->0.len(),
        forall|k: int|
            0 <= k < options.fields->0.len() ==> (#[trigger] posted_embed(action->Post_0).member(
                "fields"@,
            ).elements()[k]) == options.fields->0[k].json(),
{
    let embed = lemma_request_carries_the_embed(config, options, action);
    law_fields_are_written_in_order(embed);
}

/// At given readings of the clock, a client with a webhook gives no action
/// exactly where chrono has no date for one of the two readings; a client
/// without one always ends the call.
pub proof fn law_action_is_missing_only_without_a_date(
    config: LoggerConfig,
    options: LogOptionsModel,
    stamp: Instant,
    footer: Instant,
)
    ensures
        config.log_at(options, stamp, footer) is None <==> !config.disabled() && (
            stamp.timestamp_text() is None || footer.footer_time_text() is None),
        config.disabled() ==> config.log_at(options, stamp, footer) == Some(
            LogActionModel::Finished(config.skipped()),
        ),
{
}

/// At given readings of the clock, the posted footer is the client's footer
/// text, ` | `, and the time that a clock in Jakarta shows at the second
/// reading; the posted timestamp is the first reading in UTC. Both texts
/// are chrono's.
pub proof fn law_footer_and_timestamp_tell_the_readings(
    config: LoggerConfig,
    options: LogOptionsModel,
    stamp: Instant,
    footer: Instant,
    action: LogActionModel,
)
    requires
        !config.disabled(),
        config.log_at(options, stamp, footer) == Some(action),
    ensures
        action is Post,
        stamp.timestamp_text() is Some,
        footer.footer_time_text() is Some,
        posted_embed(action->Post_0).member("timestamp"@) == Json::Text(
            stamp.timestamp_text()->0,
        ),
        posted_embed(action->Post_0).member("footer"@).keys() =~= set!["text"@],
        posted_embed(action->Post_0).member("footer"@).member("text"@) == Json::Text(
            config.footer_text + " | "@ + footer.footer_time_text()->0,
        ),
{
    let embed = config.compose(
        options,
        stamp.timestamp_text()->0,
        footer.footer_time_text()->0,
    );
    law_body_holds_one_embed(embed);
    law_embed_has_six_members(embed);
}

/// What is posted at given readings of the clock is fixed by the client,
/// the message and the two readings. Nothing else of the machine enters,
/// neither its own time zone nor the moment of the call: two answers at
/// the same readings are the same, footer and timestamp included.
pub proof fn law_answer_depends_on_the_readings_alone(
    config: LoggerConfig,
    options: LogOptionsModel,
    stamp: Instant,
    footer: Instant,
    first: LogActionModel,
    second: LogActionModel,
)
    requires
        config.log_at(options, stamp, footer) == Some(first),
        config.log_at(options, stamp, footer) == Some(second),
    ensures
        first == second,
        !config.disabled() ==> posted_embed(first->Post_0).member("footer"@).member("text"@)
            == posted_embed(second->Post_0).member("footer"@).member("text"@),
        !config.disabled() ==> posted_embed(first->Post_0).member("timestamp"@) == posted_embed(
            second->Post_0,
        ).member("timestamp"@),
{
}

/// What `log` gives is an action or none. A client without a webhook always
/// gives its action, the end of the call. A client with one gives a
/// request wherever it gives an action; it gives none only where the clock
/// gave no reading or chrono has no date for it.
pub proof fn law_answer_is_missing_only_for_want_of_a_reading(
    config: LoggerConfig,
    options: LogOptionsModel,
    answer: Option<LogActionModel>,
)
    requires
        config.may_answer(options, answer),
    ensures
        config.disabled() ==> answer == Some(LogActionModel::Finished(config.skipped())),
        !config.disabled() && answer is Some ==> answer->0 is Post,
{
    if answer is Some && !config.disabled() {
        lemma_request_carries_the_embed(config, options, answer->0);
    }
}

/// The caller's description and colour are posted as they are: the colour
/// as a number, or null where none is given.
pub proof fn law_description_and_color_are_posted_unchanged(
    config: LoggerConfig,
    options: LogOptionsModel,
    action: LogActionModel,
)
    requires
        !config.disabled(),
        config.may_log(options, action),
    ensures
        action is Post,
        posted_embed(action->Post_0).member("description"@) == Json::Text(options.description),
        options.color is Some ==> posted_embed(action->Post_0).member("color"@) == Json::Number(
            options.color->0,
        ),
        options.color is None ==> posted_embed(action->Post_0).member("color"@) == Json::Null,
{
    let embed = lemma_request_carries_the_embed(config, options, action);
    law_embed_has_six_members(embed);
}

/// A response with a status outside 200 to 299 ends the call with an error
/// that carries the status, and with nothing to print.
pub proof fn law_refused_status_is_an_error(request: PostRequestModel, status: u16)
    requires
        !accepted(status),
    ensures
        request.complete(PostOutcomeModel::Status(status)) == (CompletionModel {
            warning: None,
            confirmation: None,
            result: Err(DeliveryErrorModel::HttpStatus { status }),
        }),
{
}

/// A response with a status from 200 to 299 ends the call with success and
/// the line that confirms the delivery under the caller's title.
pub proof fn law_accepted_status_is_confirmed(request: PostRequestModel, status: u16)
    requires
        accepted(status),
    ensures
        request.complete(PostOutcomeModel::Status(status)) == (CompletionModel {
            warning: None,
            confirmation: Some("Message sent to Discord: "@ + request.title),
            result: Ok(()),
        }),
{
}

/// A request that got no response ends the call with an error that carries
/// the transport's account, and with nothing to print.
pub proof fn law_transport_failure_is_an_error(request: PostRequestModel, reason: Seq<char>)
    ensures
        request.complete(PostOutcomeModel::TransportFailure(reason)) == (CompletionModel {
            warning: None,
            confirmation: None,
            result: Err(DeliveryErrorModel::Transport { reason }),
        }),
{
}

} // verus!
