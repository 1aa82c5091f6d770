//! What a message looks like on its way to the notification service.

use crate::text::{join, joined, texts};
use vstd::prelude::*;
use vstd::string::*;

verus! {

/// The address to which the messages of a topic are posted.
pub open spec fn topic_address(base_url: Seq<char>, topic: Seq<char>) -> Seq<char> {
    base_url + "/"@ + topic
}

/// One link of a message, as the service reads it: a button that opens
/// `url` and is labelled `label`.
pub open spec fn view_action_text(action: (Seq<char>, Seq<char>)) -> Seq<char> {
    "view, "@ + action.0 + ", "@ + action.1 + ";"@
}

/// The links of a message, as the service reads them: one after the other,
/// with a blank between each two.
pub open spec fn actions_header(actions: Seq<(Seq<char>, Seq<char>)>) -> Seq<char> {
    joined(actions.map_values(|a: (Seq<char>, Seq<char>)| view_action_text(a)), " "@)
}

/// The address to which the messages of `topic` are posted.
pub fn topic_url(base_url: &str, topic: &str) -> (url: String)
    ensures
        url@ == topic_address(base_url@, topic@),
{
    let mut url = String::from_str(base_url);
    url.append("/");
    url.append(topic);
    url
}

/// The value of the header that carries the links of a message.
pub fn actions_header_value(view_actions: &Vec<(String, String)>) -> (value: String)
    ensures
        value@ == actions_header(view_actions@.map_values(|a: (String, String)| (a.0@, a.1@))),
{
    let ghost actions = view_actions@.map_values(|a: (String, String)| (a.0@, a.1@));
    let ghost wanted = actions.map_values(|a: (Seq<char>, Seq<char>)| view_action_text(a));
    let mut parts: Vec<String> = Vec::new();
    let mut i: usize = 0;
    while i < view_actions.len()
        invariant
            i <= view_actions.len(),
            actions == view_actions@.map_values(|a: (String, String)| (a.0@, a.1@)),
            wanted == actions.map_values(|a: (Seq<char>, Seq<char>)| view_action_text(a)),
            texts(parts@) == wanted.take(i as int),
        decreases view_actions.len() - i,
    {
        let mut part = String::from_str("view, ");
        part.append(view_actions[i].0.as_str());
        part.append(", ");
        part.append(view_actions[i].1.as_str());
        part.append(";");
        parts.push(part);
        assert(wanted.take(i + 1) =~= wanted.take(i as int).push(wanted[i as int]));
        i = i + 1;
    }
    assert(wanted.take(i as int) =~= wanted);
    join(&parts, " ")
}

} // verus!
