use vstd::prelude::*;

use crate::db::groups::FeishuGroup;
use crate::handlers::api::alerts::ApiReply;
use crate::models::feishu::FeishuMessage;
use crate::services::message_builder::{
    build_test_message, card_for, config_in_force, is_shown_time, test_vars, CardConfig,
};

verus! {

/// What to send to check a group's webhook: its URL and the test message built with
/// its card configuration.
pub fn test_group_message(group: &FeishuGroup, config: Option<CardConfig>) -> (r: (String, FeishuMessage))
    ensures
        r.0@ == group.webhook_url@,
        exists|ts: Seq<char>| is_shown_time(ts) && r.1@ == card_for(*group, config_in_force(config), test_vars(ts)),
{
    (group.webhook_url.clone(), build_test_message(group, config))
}

/// The answer to a group test, from Feishu's answer to the test message.
pub fn test_group_reply(result: Result<(), String>) -> (r: ApiReply)
    ensures
        match result {
            Ok(()) => r matches ApiReply::Done { message } && message@ == "Test message sent successfully"@,
            Err(e) => r matches ApiReply::Failed { error } && error@ == e@,
        },
{
    match result {
        Ok(()) => ApiReply::Done { message: "Test message sent successfully".to_owned() },
        Err(e) => ApiReply::Failed { error: e },
    }
}

} // verus!
