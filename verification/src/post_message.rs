//! The delivery side of the pipeline: resolving the salutation, building the
//! channel-specific payloads, planning the webhook posts (Slack before
//! Teams), and counting how many channels accepted their payload.
//!
//! The webhook POSTs themselves are network I/O and live outside the
//! library; callers post each planned payload in order and hand back one
//! acceptance flag per post.

use vstd::prelude::*;
use vstd::string::StringExecFns;
use crate::coffee_config::Publish;
use crate::decimal::idec_string;
use crate::decimal::spec_idec;
use crate::gitlab_client::MergeRequest;

verus! {

/// The payload posted to a Slack webhook: a single text block.
#[derive(Debug, PartialEq)]
pub struct SlackMessage {
    pub text: String,
}

/// The payload posted to a Teams webhook: a title and a text block.
#[derive(Debug, PartialEq)]
pub struct TeamsMessage {
    pub title: String,
    pub text: String,
}

/// One planned payload, tagged with the channel it is shaped for.
#[derive(Debug, PartialEq)]
pub enum ChannelMessage {
    Slack(SlackMessage),
    Teams(TeamsMessage),
}

/// One planned webhook post: where to post and what to post.
#[derive(Debug, PartialEq)]
pub struct Delivery {
    pub webhook_url: String,
    pub message: ChannelMessage,
}

/// The fixed salutation used when the configuration supplies none.
pub open spec fn spec_default_salutation() -> Seq<char> {
    "Hi! There are some Merge Requests to review :)"@
}

/// The salutation one run resolves to: the configured text if present, else
/// the fixed default.
pub open spec fn spec_salutation(config: Publish) -> Seq<char> {
    match config.salutation {
        Some(s) => s@,
        None => spec_default_salutation(),
    }
}

/// One Slack message line for one review request.
pub open spec fn spec_slack_line(mr: MergeRequest) -> Seq<char> {
    "<"@ + mr.web_url@ + "|"@ + mr.title@ + "> by "@ + mr.author.name@ + " opened on *"@
        + mr.created_at@ + "*. Upvotes: "@ + spec_idec(mr.upvotes as int)
}

/// One Teams message line for one review request.
pub open spec fn spec_teams_line(mr: MergeRequest) -> Seq<char> {
    "["@ + mr.title@ + "]("@ + mr.web_url@ + ") by "@ + mr.author.name@ + " opened on __"@
        + mr.created_at@ + "__. Upvotes: "@ + spec_idec(mr.upvotes as int)
}

/// The Slack lines of a request list, joined by single line breaks.
pub open spec fn spec_slack_lines(mrs: Seq<MergeRequest>) -> Seq<char>
    decreases mrs.len(),
{
    if mrs.len() == 0 {
        Seq::empty()
    } else if mrs.len() == 1 {
        spec_slack_line(mrs[0])
    } else {
        spec_slack_lines(mrs.drop_last()) + "\n"@ + spec_slack_line(mrs.last())
    }
}

/// The Teams lines of a request list, joined by single line breaks.
pub open spec fn spec_teams_lines(mrs: Seq<MergeRequest>) -> Seq<char>
    decreases mrs.len(),
{
    if mrs.len() == 0 {
        Seq::empty()
    } else if mrs.len() == 1 {
        spec_teams_line(mrs[0])
    } else {
        spec_teams_lines(mrs.drop_last()) + "\n"@ + spec_teams_line(mrs.last())
    }
}

/// The whole Slack text: the salutation, a line break, then the joined lines.
pub open spec fn spec_slack_text(salutation: Seq<char>, mrs: Seq<MergeRequest>) -> Seq<char> {
    salutation + "\n"@ + spec_slack_lines(mrs)
}

/// Resolves the salutation: the configured text if present, else the fixed
/// default line.
pub fn get_salutation<'a>(config: &'a Publish) -> (s: &'a str)
    ensures
        s@ == spec_salutation(*config),
{
    match &config.salutation {
        Some(message) => message.as_str(),
        None => "Hi! There are some Merge Requests to review :)",
    }
}

fn slack_line(mr: &MergeRequest) -> (s: String)
    ensures
        s@ == spec_slack_line(*mr),
{
    let mut s = String::new();
    s.append("<");
    s.append(mr.web_url.as_str());
    s.append("|");
    s.append(mr.title.as_str());
    s.append("> by ");
    s.append(mr.author.name.as_str());
    s.append(" opened on *");
    s.append(mr.created_at.as_str());
    s.append("*. Upvotes: ");
    let upvotes = idec_string(mr.upvotes);
    s.append(upvotes.as_str());
    proof {
        assert(s@ =~= spec_slack_line(*mr));
    }
    s
}

fn teams_line(mr: &MergeRequest) -> (s: String)
    ensures
        s@ == spec_teams_line(*mr),
{
    let mut s = String::new();
    s.append("[");
    s.append(mr.title.as_str());
    s.append("](");
    s.append(mr.web_url.as_str());
    s.append(") by ");
    s.append(mr.author.name.as_str());
    s.append(" opened on __");
    s.append(mr.created_at.as_str());
    s.append("__. Upvotes: ");
    let upvotes = idec_string(mr.upvotes);
    s.append(upvotes.as_str());
    proof {
        assert(s@ =~= spec_teams_line(*mr));
    }
    s
}

fn slack_lines(merge_requests: &Vec<MergeRequest>) -> (s: String)
    ensures
        s@ == spec_slack_lines(merge_requests@),
{
    let mut s = String::new();
    let mut i: usize = 0;
    while i < merge_requests.len()
        invariant
            i <= merge_requests@.len(),
            s@ == spec_slack_lines(merge_requests@.take(i as int)),
        decreases merge_requests@.len() - i,
    {
        if i > 0 {
            s.append("\n");
        }
        let line = slack_line(&merge_requests[i]);
        s.append(line.as_str());
        i += 1;
        proof {
            assert(merge_requests@.take(i as int).drop_last() =~= merge_requests@.take(
                i as int - 1,
            ));
            assert(merge_requests@.take(i as int).last() == merge_requests@[i as int - 1]);
            assert(s@ =~= spec_slack_lines(merge_requests@.take(i as int)));
        }
    }
    proof {
        assert(merge_requests@.take(merge_requests@.len() as int) =~= merge_requests@);
    }
    s
}

fn teams_lines(merge_requests: &Vec<MergeRequest>) -> (s: String)
    ensures
        s@ == spec_teams_lines(merge_requests@),
{
    let mut s = String::new();
    let mut i: usize = 0;
    while i < merge_requests.len()
        invariant
            i <= merge_requests@.len(),
            s@ == spec_teams_lines(merge_requests@.take(i as int)),
        decreases merge_requests@.len() - i,
    {
        if i > 0 {
            s.append("\n");
        }
        let line = teams_line(&merge_requests[i]);
        s.append(line.as_str());
        i += 1;
        proof {
            assert(merge_requests@.take(i as int).drop_last() =~= merge_requests@.take(
                i as int - 1,
            ));
            assert(merge_requests@.take(i as int).last() == merge_requests@[i as int - 1]);
            assert(s@ =~= spec_teams_lines(merge_requests@.take(i as int)));
        }
    }
    proof {
        assert(merge_requests@.take(merge_requests@.len() as int) =~= merge_requests@);
    }
    s
}

impl SlackMessage {
    /// Builds the Slack payload: the salutation, a line break, then one line
    /// per request joined by line breaks.
    pub fn new(title: &str, merge_requests: &Vec<MergeRequest>) -> (m: Self)
        ensures
            m.text@ == spec_slack_text(title@, merge_requests@),
    {
        let mut text = title.to_owned();
        text.append("\n");
        let lines = slack_lines(merge_requests);
        text.append(lines.as_str());
        SlackMessage { text }
    }
}

impl TeamsMessage {
    /// Builds the Teams payload: the salutation as the title, and one line
    /// per request joined by line breaks as the text.
    pub fn new(title: &str, merge_requests: &Vec<MergeRequest>) -> (m: Self)
        ensures
            m.title@ == title@,
            m.text@ == spec_teams_lines(merge_requests@),
    {
        TeamsMessage { title: title.to_owned(), text: teams_lines(merge_requests) }
    }
}

/// How many webhook posts one run plans: one per configured channel.
pub open spec fn spec_delivery_count(config: Publish) -> nat {
    (if config.slack is Some {
        1nat
    } else {
        0nat
    }) + (if config.teams is Some {
        1nat
    } else {
        0nat
    })
}

/// The planned post for the Slack channel: its configured webhook URL and
/// the Slack-shaped payload for the given request list.
pub open spec fn spec_is_slack_delivery(
    d: Delivery,
    mrs: Seq<MergeRequest>,
    config: Publish,
) -> bool {
    &&& d.webhook_url@ == config.slack->0.webhook_url@
    &&& d.message matches ChannelMessage::Slack(m) && m.text@ == spec_slack_text(
        spec_salutation(config),
        mrs,
    )
}

/// The planned post for the Teams channel: its configured webhook URL and
/// the Teams-shaped payload for the given request list.
pub open spec fn spec_is_teams_delivery(
    d: Delivery,
    mrs: Seq<MergeRequest>,
    config: Publish,
) -> bool {
    &&& d.webhook_url@ == config.teams->0.webhook_url@
    &&& d.message matches ChannelMessage::Teams(m) && m.title@ == spec_salutation(config)
        && m.text@ == spec_teams_lines(mrs)
}

/// Plans the webhook posts of one run: a Slack post first if that channel is
/// configured, then a Teams post if that channel is configured, each
/// carrying its channel-shaped payload for the given request list. A channel
/// that is absent gets no post.
pub fn build_deliveries(merge_requests: &Vec<MergeRequest>, config: &Publish) -> (plan: Vec<
    Delivery,
>)
    ensures
        plan@.len() == spec_delivery_count(*config),
        config.slack is Some ==> spec_is_slack_delivery(plan@[0], merge_requests@, *config),
        config.teams is Some ==> spec_is_teams_delivery(
            plan@[plan@.len() - 1],
            merge_requests@,
            *config,
        ),
{
    let salutation = get_salutation(config);
    let mut plan: Vec<Delivery> = Vec::new();
    match &config.slack {
        Some(channel) => {
            let message = SlackMessage::new(salutation, merge_requests);
            plan.push(
                Delivery {
                    webhook_url: channel.webhook_url.clone(),
                    message: ChannelMessage::Slack(message),
                },
            );
        },
        None => {},
    }
    match &config.teams {
        Some(channel) => {
            let message = TeamsMessage::new(salutation, merge_requests);
            plan.push(
                Delivery {
                    webhook_url: channel.webhook_url.clone(),
                    message: ChannelMessage::Teams(message),
                },
            );
        },
        None => {},
    }
    plan
}

/// How many of the posts were accepted: the number of true flags.
pub open spec fn spec_success_count(outcomes: Seq<bool>) -> nat
    decreases outcomes.len(),
{
    if outcomes.len() == 0 {
        0nat
    } else {
        spec_success_count(outcomes.drop_last()) + if outcomes.last() {
            1nat
        } else {
            0nat
        }
    }
}

/// Counts the channels whose webhook accepted its payload: one per true
/// flag, in any mix of accepted and rejected posts. A rejected post lowers
/// the count and nothing else.
pub fn count_successes(outcomes: &Vec<bool>) -> (n: usize)
    ensures
        n == spec_success_count(outcomes@),
{
    let mut n: usize = 0;
    let mut i: usize = 0;
    while i < outcomes.len()
        invariant
            i <= outcomes@.len(),
            n <= i,
            n == spec_success_count(outcomes@.take(i as int)),
        decreases outcomes@.len() - i,
    {
        if outcomes[i] {
            n += 1;
        }
        i += 1;
        proof {
            assert(outcomes@.take(i as int).drop_last() =~= outcomes@.take(i as int - 1));
            assert(outcomes@.take(i as int).last() == outcomes@[i as int - 1]);
        }
    }
    proof {
        assert(outcomes@.take(outcomes@.len() as int) =~= outcomes@);
    }
    n
}

/// Message construction is pure: two Slack payloads built from the same
/// salutation and the same request list carry identical text, so formatting
/// the same list twice yields the same message.
pub proof fn lemma_slack_format_deterministic(
    salutation: Seq<char>,
    mrs: Seq<MergeRequest>,
    first: SlackMessage,
    second: SlackMessage,
)
    requires
        first.text@ == spec_slack_text(salutation, mrs),
        second.text@ == spec_slack_text(salutation, mrs),
    ensures
        first.text@ == second.text@,
{
}

/// Message construction is pure: two Teams payloads built from the same
/// salutation and the same request list carry identical title and text, so
/// formatting the same list twice yields the same message.
pub proof fn lemma_teams_format_deterministic(
    salutation: Seq<char>,
    mrs: Seq<MergeRequest>,
    first: TeamsMessage,
    second: TeamsMessage,
)
    requires
        first.title@ == salutation,
        first.text@ == spec_teams_lines(mrs),
        second.title@ == salutation,
        second.text@ == spec_teams_lines(mrs),
    ensures
        first.title@ == second.title@,
        first.text@ == second.text@,
{
}

} // verus!
