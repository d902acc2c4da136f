use coffee_rustviews::coffee_config::{Gitlab, Publish, PublishChannel};
use coffee_rustviews::decimal::idec_string;
use coffee_rustviews::gitlab_client::{
    assemble_open, fetch_urls, filter_merge_requests, Author, FetchError, MergeRequest,
};
use coffee_rustviews::post_message::{
    build_deliveries, count_successes, get_salutation, ChannelMessage, SlackMessage, TeamsMessage,
};

fn make_mr(title: &str, url: &str, wip: bool) -> MergeRequest {
    MergeRequest {
        title: title.to_string(),
        author: Author {
            name: "Author Name".to_string(),
        },
        created_at: "2021-05-01T00:00:00Z".to_string(),
        upvotes: 1,
        web_url: url.to_string(),
        work_in_progress: wip,
    }
}

fn unscoped_config(include_wip: Option<bool>) -> Gitlab {
    Gitlab {
        base_url: "https://test.gitlab.com".to_string(),
        include_wip,
        projects: None,
        token: "TOKEN".to_string(),
    }
}

#[test]
fn gets_salutation_when_defined_in_config() {
    let config = Publish {
        salutation: Some("Hey tests!".into()),
        slack: None,
        teams: None,
    };

    assert_eq!(get_salutation(&config), "Hey tests!");
}

#[test]
fn gets_salutation_when_not_defined_in_config() {
    let config = Publish {
        salutation: None,
        slack: None,
        teams: None,
    };

    assert_eq!(
        get_salutation(&config),
        "Hi! There are some Merge Requests to review :)"
    );
}

#[test]
fn it_loads_single_merge_request() {
    let config = unscoped_config(None);
    let responses = vec![Some(vec![make_mr(
        "Whatever",
        "https://test.gitlab.com/projects/x/mrs/1",
        false,
    )])];
    let response = assemble_open(&config, responses);
    assert_eq!(response.is_ok(), true);
    let result = response.unwrap();
    assert_eq!(
        result,
        vec![make_mr(
            "Whatever",
            "https://test.gitlab.com/projects/x/mrs/1",
            false
        )]
    );
}

#[test]
fn it_loads_empty_response() {
    let config = unscoped_config(None);
    let response = assemble_open(&config, vec![Some(vec![])]);
    assert_eq!(response.is_ok(), true);
    let result = response.unwrap();
    assert_eq!(result, vec![]);
}

#[test]
fn excludes_wip() {
    let config = unscoped_config(Some(false));
    let responses = vec![Some(vec![
        make_mr(
            "WIP: Whatever",
            "https://test.gitlab.com/projects/x/mrs/1",
            true,
        ),
        make_mr("Active", "https://test.gitlab.com/projects/x/mrs/2", false),
    ])];
    let response = assemble_open(&config, responses);
    assert_eq!(response.is_ok(), true);
    let response = response.unwrap();
    assert_eq!(
        response,
        vec![make_mr(
            "Active",
            "https://test.gitlab.com/projects/x/mrs/2",
            false
        )]
    );
}

#[test]
fn includes_wip() {
    let config = unscoped_config(Some(true));
    let responses = vec![Some(vec![
        make_mr(
            "WIP: Whatever",
            "https://test.gitlab.com/projects/x/mrs/1",
            true,
        ),
        make_mr("Active", "https://test.gitlab.com/projects/x/mrs/2", false),
    ])];
    let response = assemble_open(&config, responses);
    assert_eq!(response.is_ok(), true);
    let response = response.unwrap();
    assert_eq!(
        response,
        vec![
            make_mr(
                "WIP: Whatever",
                "https://test.gitlab.com/projects/x/mrs/1",
                true
            ),
            make_mr("Active", "https://test.gitlab.com/projects/x/mrs/2", false),
        ]
    );
}

#[test]
fn gets_all_projects() {
    let config = Gitlab {
        base_url: "https://test.gitlab.com".to_string(),
        include_wip: Some(true),
        projects: Some(vec!["one".to_string(), "two".to_string()]),
        token: "TOKEN".to_string(),
    };

    let urls = fetch_urls(&config);
    assert_eq!(
        urls,
        vec![
            "https://test.gitlab.com/projects/one/merge_requests?state=opened".to_string(),
            "https://test.gitlab.com/projects/two/merge_requests?state=opened".to_string(),
        ]
    );

    let response = assemble_open(&config, vec![Some(vec![]), Some(vec![])]);
    assert_eq!(response.is_ok(), true);
}

#[test]
fn unscoped_fetch_plans_one_request() {
    let config = unscoped_config(None);
    let urls = fetch_urls(&config);
    assert_eq!(
        urls,
        vec!["https://test.gitlab.com/merge_requests?state=opened".to_string()]
    );
}

#[test]
fn scoped_fetch_skips_failed_projects() {
    let config = Gitlab {
        base_url: "https://test.gitlab.com".to_string(),
        include_wip: None,
        projects: Some(vec!["one".to_string(), "two".to_string()]),
        token: "TOKEN".to_string(),
    };
    let kept = make_mr("Kept", "https://test.gitlab.com/projects/two/mrs/1", false);
    let responses = vec![None, Some(vec![kept])];
    let response = assemble_open(&config, responses);
    assert_eq!(response.is_ok(), true);
    assert_eq!(
        response.unwrap(),
        vec![make_mr(
            "Kept",
            "https://test.gitlab.com/projects/two/mrs/1",
            false
        )]
    );
}

#[test]
fn scoped_fetch_concatenates_in_project_order() {
    let config = Gitlab {
        base_url: "https://test.gitlab.com".to_string(),
        include_wip: None,
        projects: Some(vec!["one".to_string(), "two".to_string()]),
        token: "TOKEN".to_string(),
    };
    let first = make_mr("First", "https://test.gitlab.com/projects/one/mrs/1", false);
    let second = make_mr("Second", "https://test.gitlab.com/projects/two/mrs/1", false);
    let responses = vec![Some(vec![first]), Some(vec![second])];
    let response = assemble_open(&config, responses).unwrap();
    assert_eq!(
        response,
        vec![
            make_mr("First", "https://test.gitlab.com/projects/one/mrs/1", false),
            make_mr("Second", "https://test.gitlab.com/projects/two/mrs/1", false),
        ]
    );
}

#[test]
fn unscoped_fetch_failure_is_fatal() {
    let config = unscoped_config(None);
    let response = assemble_open(&config, vec![None]);
    assert_eq!(response, Err(FetchError::Upstream));
}

#[test]
fn filter_keeps_non_wip_under_both_flags() {
    let wip = make_mr("WIP: Whatever", "https://x/1", true);
    let active = make_mr("Active", "https://x/2", false);
    let off = filter_merge_requests(vec![wip, active], Some(false));
    assert_eq!(off, vec![make_mr("Active", "https://x/2", false)]);

    let wip = make_mr("WIP: Whatever", "https://x/1", true);
    let active = make_mr("Active", "https://x/2", false);
    let on = filter_merge_requests(vec![wip, active], Some(true));
    assert_eq!(on.len(), 2);
    let refiltered = filter_merge_requests(on, Some(false));
    assert_eq!(refiltered, vec![make_mr("Active", "https://x/2", false)]);
}

#[test]
fn posts_to_slack() {
    let config = Publish {
        salutation: None,
        slack: Some(PublishChannel {
            webhook_url: "https://hooks.example.test/slack".to_string(),
        }),
        teams: None,
    };
    let merge_requests = vec![make_mr(
        "Whatever",
        "https://test.gitlab.com/projects/x/mrs/1",
        false,
    )];
    let plan = build_deliveries(&merge_requests, &config);
    assert_eq!(plan.len(), 1);
    assert_eq!(plan[0].webhook_url, "https://hooks.example.test/slack");
    assert!(matches!(plan[0].message, ChannelMessage::Slack(_)));
    let outcomes = vec![true];
    let result = count_successes(&outcomes);
    assert_eq!(result, 1);
}

#[test]
fn posts_to_teams() {
    let config = Publish {
        salutation: None,
        teams: Some(PublishChannel {
            webhook_url: "https://hooks.example.test/teams".to_string(),
        }),
        slack: None,
    };
    let merge_requests = vec![make_mr(
        "Whatever",
        "https://test.gitlab.com/projects/x/mrs/1",
        false,
    )];
    let plan = build_deliveries(&merge_requests, &config);
    assert_eq!(plan.len(), 1);
    assert_eq!(plan[0].webhook_url, "https://hooks.example.test/teams");
    assert!(matches!(plan[0].message, ChannelMessage::Teams(_)));
    let outcomes = vec![true];
    let result = count_successes(&outcomes);
    assert_eq!(result, 1);
}

#[test]
fn post_to_webhook_is_false() {
    let config = Publish {
        salutation: None,
        teams: Some(PublishChannel {
            webhook_url: "https://hooks.example.test/teams".to_string(),
        }),
        slack: None,
    };
    let merge_requests = vec![make_mr(
        "Whatever",
        "https://test.gitlab.com/projects/x/mrs/1",
        false,
    )];
    let plan = build_deliveries(&merge_requests, &config);
    assert_eq!(plan.len(), 1);
    let outcomes = vec![false];
    let result = count_successes(&outcomes);
    assert_eq!(result, 0);
}

#[test]
fn slack_before_teams_when_both_configured() {
    let config = Publish {
        salutation: Some("Hello".to_string()),
        slack: Some(PublishChannel {
            webhook_url: "https://hooks.example.test/slack".to_string(),
        }),
        teams: Some(PublishChannel {
            webhook_url: "https://hooks.example.test/teams".to_string(),
        }),
    };
    let merge_requests = vec![];
    let plan = build_deliveries(&merge_requests, &config);
    assert_eq!(plan.len(), 2);
    assert!(matches!(plan[0].message, ChannelMessage::Slack(_)));
    assert!(matches!(plan[1].message, ChannelMessage::Teams(_)));
}

#[test]
fn no_channels_means_no_deliveries() {
    let config = Publish {
        salutation: None,
        slack: None,
        teams: None,
    };
    let plan = build_deliveries(&vec![], &config);
    assert_eq!(plan.len(), 0);
    assert_eq!(count_successes(&vec![]), 0);
}

#[test]
fn slack_message_exact_text() {
    let merge_requests = vec![make_mr(
        "Whatever",
        "https://test.gitlab.com/projects/x/mrs/1",
        false,
    )];
    let message = SlackMessage::new(
        "Hi! There are some Merge Requests to review :)",
        &merge_requests,
    );
    assert_eq!(
        message.text,
        "Hi! There are some Merge Requests to review :)\n\
         <https://test.gitlab.com/projects/x/mrs/1|Whatever> by Author Name \
         opened on *2021-05-01T00:00:00Z*. Upvotes: 1"
    );
}

#[test]
fn teams_message_exact_text() {
    let merge_requests = vec![make_mr(
        "Whatever",
        "https://test.gitlab.com/projects/x/mrs/1",
        false,
    )];
    let message = TeamsMessage::new("Hello team", &merge_requests);
    assert_eq!(message.title, "Hello team");
    assert_eq!(
        message.text,
        "[Whatever](https://test.gitlab.com/projects/x/mrs/1) by Author Name \
         opened on __2021-05-01T00:00:00Z__. Upvotes: 1"
    );
}

#[test]
fn multiple_lines_joined_by_line_breaks() {
    let merge_requests = vec![
        make_mr("One", "https://x/1", false),
        make_mr("Two", "https://x/2", false),
    ];
    let message = SlackMessage::new("Hey", &merge_requests);
    assert_eq!(
        message.text,
        "Hey\n<https://x/1|One> by Author Name opened on *2021-05-01T00:00:00Z*. Upvotes: 1\n\
         <https://x/2|Two> by Author Name opened on *2021-05-01T00:00:00Z*. Upvotes: 1"
    );
}

#[test]
fn empty_list_keeps_salutation_line() {
    let message = SlackMessage::new("Hey", &vec![]);
    assert_eq!(message.text, "Hey\n");
    let teams = TeamsMessage::new("Hey", &vec![]);
    assert_eq!(teams.title, "Hey");
    assert_eq!(teams.text, "");
}

#[test]
fn formatting_twice_yields_identical_text() {
    let merge_requests = vec![
        make_mr("One", "https://x/1", false),
        make_mr("Two", "https://x/2", true),
    ];
    let first = SlackMessage::new("Hey", &merge_requests);
    let second = SlackMessage::new("Hey", &merge_requests);
    assert_eq!(first.text, second.text);

    let first = TeamsMessage::new("Hey", &merge_requests);
    let second = TeamsMessage::new("Hey", &merge_requests);
    assert_eq!(first.title, second.title);
    assert_eq!(first.text, second.text);
}

#[test]
fn upvote_counts_render_in_decimal() {
    assert_eq!(idec_string(0), "0");
    assert_eq!(idec_string(7), "7");
    assert_eq!(idec_string(42), "42");
    assert_eq!(idec_string(127), "127");
    assert_eq!(idec_string(-1), "-1");
    assert_eq!(idec_string(-42), "-42");
    assert_eq!(idec_string(-128), "-128");
}

#[test]
fn negative_upvotes_appear_in_message() {
    let mut mr = make_mr("Odd", "https://x/1", false);
    mr.upvotes = -3;
    let message = SlackMessage::new("Hey", &vec![mr]);
    assert_eq!(
        message.text,
        "Hey\n<https://x/1|Odd> by Author Name opened on *2021-05-01T00:00:00Z*. Upvotes: -3"
    );
}
