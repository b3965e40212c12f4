use roux::client::{Method, Request, Response};
use roux::util::defaults::{default_client, default_headers, default_string};
use roux::util::error::RouxError;
use roux::util::option::FeedOption;
use roux::{Reddit, Subreddit, Subreddits, User};

fn pairs(params: &[roux::client::Param]) -> Vec<(String, String)> {
    params.iter().map(|p| (p.name.clone(), p.value.clone())).collect()
}

fn pair(name: &str, value: &str) -> (String, String) {
    (name.to_string(), value.to_string())
}

fn reddit() -> Reddit {
    Reddit::new("agent", "id", "secret").username("user").password("pass")
}

fn response(status: u16, body: &str) -> Response {
    Response { status, headers: Vec::new(), body: body.to_string() }
}

#[test]
fn token_request_is_a_password_grant() {
    let reddit = reddit();
    assert!(reddit.has_credentials());
    let request: Request = reddit.token_request();
    assert_eq!(request.method, Method::Post);
    assert_eq!(request.url, "https://www.reddit.com/api/v1/access_token");
    assert_eq!(pairs(&request.headers), vec![pair("User-Agent", "agent")]);
    let auth = request.basic_auth.unwrap();
    assert_eq!((auth.user.as_str(), auth.password.as_str()), ("id", "secret"));
    assert_eq!(
        pairs(&request.form),
        vec![pair("grant_type", "password"), pair("username", "user"), pair("password", "pass")]
    );
}

#[test]
fn credentials_need_both_parts() {
    assert!(!Reddit::new("agent", "id", "secret").has_credentials());
    assert!(!Reddit::new("agent", "id", "secret").username("user").has_credentials());
    assert!(!Reddit::new("agent", "id", "secret").password("pass").has_credentials());
}

#[test]
fn token_is_sent_with_later_calls() {
    let me = reddit().login(response(200, r#"{"access_token":"abc"}"#)).unwrap();
    assert_eq!(me.config.access_token.as_deref(), Some("abc"));
    let request = me.me();
    assert_eq!(request.method, Method::Get);
    assert_eq!(request.url, "https://oauth.reddit.com/api/v1/me/.json");
    assert_eq!(
        pairs(&request.headers),
        vec![pair("Authorization", "Bearer abc"), pair("User-Agent", "agent")]
    );
}

#[test]
fn refused_grant_is_an_auth_error() {
    match reddit().login(response(200, r#"{"error":"invalid_grant"}"#)) {
        Err(RouxError::Auth(reason)) => assert_eq!(reason, "invalid_grant"),
        other => panic!("unexpected: {:?}", other),
    }
}

#[test]
fn token_shape_is_tried_first() {
    let me = reddit().login(response(200, r#"{"error":"x","access_token":"tok"}"#)).unwrap();
    assert_eq!(me.config.access_token.as_deref(), Some("tok"));
    match reddit().login(response(200, r#"{"access_token":5,"error":"bad"}"#)) {
        Err(RouxError::Auth(reason)) => assert_eq!(reason, "bad"),
        other => panic!("unexpected: {:?}", other),
    }
}

#[test]
fn login_fails_on_other_statuses_and_bodies() {
    match reddit().login(response(401, r#"{"access_token":"abc"}"#)) {
        Err(RouxError::Status(kept)) => {
            assert_eq!(kept.status, 401);
            assert_eq!(kept.body, r#"{"access_token":"abc"}"#);
        },
        other => panic!("unexpected: {:?}", other),
    }
    assert!(matches!(reddit().login(response(200, "not json")), Err(RouxError::Parse(_))));
    assert!(matches!(reddit().login(response(200, r#"{"other":1}"#)), Err(RouxError::Parse(_))));
    assert!(matches!(reddit().login(response(200, r#"["abc"]"#)), Err(RouxError::Parse(_))));
}

#[test]
fn session_subreddit_uses_the_oauth_host() {
    let sub = reddit().subreddit("rust", response(200, r#"{"access_token":"abc"}"#)).unwrap();
    assert!(sub.is_oauth);
    assert_eq!(sub.name, "rust");
    let request = sub.moderators().unwrap();
    assert_eq!(request.url, "https://oauth.reddit.com/r/rust/about/moderators/.json");
    assert_eq!(
        pairs(&request.headers),
        vec![pair("Authorization", "Bearer abc"), pair("User-Agent", "agent")]
    );
}

#[test]
fn revocation_succeeds_on_204_only() {
    let login = || reddit().login(response(200, r#"{"access_token":"abc"}"#)).unwrap();
    assert!(login().logout(response(204, "")).is_ok());
    for status in [200u16, 403] {
        match login().logout(response(status, "x")) {
            Err(RouxError::Status(kept)) => assert_eq!(kept.status, status),
            other => panic!("unexpected: {:?}", other),
        }
    }
}

#[test]
fn revocation_request_posts_the_token() {
    let me = reddit().login(response(200, r#"{"access_token":"abc"}"#)).unwrap();
    let request = me.logout_request();
    assert_eq!(request.method, Method::Post);
    assert_eq!(request.url, "https://www.reddit.com/api/v1/revoke_token");
    let auth = request.basic_auth.unwrap();
    assert_eq!((auth.user.as_str(), auth.password.as_str()), ("id", "secret"));
    assert_eq!(pairs(&request.form), vec![pair("access_token", "abc")]);
}

#[test]
fn mutations_are_form_posts() {
    let me = reddit().login(response(200, r#"{"access_token":"abc"}"#)).unwrap();
    let request = me.submit_link("a title", "https://example.org", "rust");
    assert_eq!(request.method, Method::Post);
    assert_eq!(request.url, "https://oauth.reddit.com/api/submit/.json");
    assert_eq!(
        pairs(&request.form),
        vec![pair("kind", "link"), pair("title", "a title"), pair("url", "https://example.org"), pair("sr", "rust")]
    );
    let request = me.submit_text("t", "body", "rust");
    assert_eq!(
        pairs(&request.form),
        vec![pair("kind", "self"), pair("title", "t"), pair("text", "body"), pair("sr", "rust")]
    );
    let request = me.submit_richtext("t", "{}", "rust");
    assert_eq!(
        pairs(&request.form),
        vec![pair("kind", "self"), pair("title", "t"), pair("richtext_json", "{}"), pair("sr", "rust")]
    );
    let request = me.comment("hello", "t3_x");
    assert_eq!(request.url, "https://oauth.reddit.com/api/comment/.json");
    assert_eq!(pairs(&request.form), vec![pair("text", "hello"), pair("parent", "t3_x")]);
    let request = me.edit("hello", "t1_x");
    assert_eq!(request.url, "https://oauth.reddit.com/api/editusertext/.json");
    assert_eq!(pairs(&request.form), vec![pair("text", "hello"), pair("thing_id", "t1_x")]);
    let request = me.mark_read("t4_a,t4_b");
    assert_eq!(request.url, "https://oauth.reddit.com/api/read_message/.json");
    assert_eq!(pairs(&request.form), vec![pair("id", "t4_a,t4_b")]);
    let request = me.mark_unread("t4_a");
    assert_eq!(request.url, "https://oauth.reddit.com/api/unread_message/.json");
    let request = me.compose_message("bob", "hi", "text");
    assert_eq!(
        pairs(&request.form),
        vec![pair("api_type", "json"), pair("subject", "hi"), pair("text", "text"), pair("to", "bob")]
    );
    let request = me.add_subreddit_friend("bob", "contributor", "rust");
    assert_eq!(request.url, "https://oauth.reddit.com/r/rust/api/friend/.json");
    assert_eq!(pairs(&request.form), vec![pair("name", "bob"), pair("type", "contributor")]);
    let request = me.remove_subreddit_friend("bob", "contributor", "rust");
    assert_eq!(request.url, "https://oauth.reddit.com/r/rust/api/unfriend/.json");
}

#[test]
fn own_feeds_take_options() {
    let me = reddit().login(response(200, r#"{"access_token":"abc"}"#)).unwrap();
    assert_eq!(me.saved(None).url, "https://oauth.reddit.com/user/user/saved/.json/.json");
    let options = FeedOption::new().limit(5).after("t3_z").unwrap();
    assert_eq!(
        me.saved(Some(options)).url,
        "https://oauth.reddit.com/user/user/saved/.json?&after=t3_z&limit=5&/.json"
    );
    assert_eq!(me.upvoted(None).url, "https://oauth.reddit.com/user/user/upvoted/.json/.json");
    assert_eq!(me.downvoted(None).url, "https://oauth.reddit.com/user/user/downvoted/.json/.json");
    assert_eq!(me.inbox().url, "https://oauth.reddit.com/message/inbox/.json");
    assert_eq!(me.unread().url, "https://oauth.reddit.com/message/unread/.json");
    assert_eq!(me.get_submissions("t3_a,t3_b").url, "https://oauth.reddit.com//by_id/t3_a,t3_b/.json");
}

#[test]
fn plain_subreddit_requests() {
    let sub = Subreddit::new("astolfo");
    assert!(!sub.is_oauth);
    assert!(matches!(sub.moderators(), Err(RouxError::OAuthClientRequired)));
    assert_eq!(sub.about().url, "https://www.reddit.com/r/astolfo/about/.json");
    assert_eq!(pairs(&sub.about().headers), vec![pair("User-Agent", "roux/rust")]);
    assert_eq!(sub.hot(25, None).url, "https://www.reddit.com/r/astolfo/hot.json?limit=25");
    assert_eq!(sub.rising(25, None).url, "https://www.reddit.com/r/astolfo/rising.json?limit=25");
    assert_eq!(sub.latest(1000, None).url, "https://www.reddit.com/r/astolfo/new.json?limit=1000");
    let options = FeedOption::new().period(roux::util::option::TimePeriod::ThisMonth);
    assert_eq!(
        sub.top(25, Some(options)).url,
        "https://www.reddit.com/r/astolfo/top.json?limit=25?&t=month&"
    );
    assert_eq!(
        sub.latest_comments(None, Some(25)).url,
        "https://www.reddit.com/r/astolfo/comments.json?&limit=25"
    );
    assert_eq!(
        sub.article_comments("abc", Some(2), Some(25)).url,
        "https://www.reddit.com/r/astolfo/comments/abc.json?&depth=2&limit=25"
    );
    assert_eq!(sub.link_flairs().url, "https://www.reddit.com/r/astolfo/api/link_flair_v2.json");
    assert_eq!(
        Subreddits::search("rust", Some(3), None).url,
        "https://www.reddit.com/subreddits/search.json?q=rust&limit=3"
    );
}

#[test]
fn user_requests() {
    let user = User::new("beneater");
    assert_eq!(user.overview(None).url, "https://www.reddit.com/user/beneater/overview/.json");
    assert_eq!(user.submitted(None).url, "https://www.reddit.com/user/beneater/submitted/.json");
    assert_eq!(user.about(None).url, "https://www.reddit.com/user/beneater/about/.json");
    let options = FeedOption::new().after("t1_q").unwrap();
    assert_eq!(
        user.comments(Some(options)).url,
        "https://www.reddit.com/user/beneater/comments/.json?&after=t1_q&"
    );
    assert_eq!(
        user.walk_page("overview", "").url,
        "https://www.reddit.com/user/beneater/overview/.json?sort=new&t=all&limit=100&after="
    );
    assert_eq!(
        user.walk_page("comments", "t1_q").url,
        "https://www.reddit.com/user/beneater/comments/.json?sort=new&t=all&limit=100&after=t1_q"
    );
}

#[test]
fn defaults() {
    assert_eq!(default_string(), "");
    assert_eq!(pairs(&default_headers()), vec![pair("User-Agent", "roux/rust")]);
    assert_eq!(pairs(&default_client().default_headers), vec![pair("User-Agent", "roux/rust")]);
}

#[test]
fn error_messages() {
    assert_eq!(RouxError::Status(response(403, "")).message(), "Status error: 403");
    assert_eq!(RouxError::Auth("invalid_grant".to_string()).message(), "Auth error: invalid_grant");
    assert_eq!(RouxError::Network("timed out".to_string()).message(), "timed out");
    assert_eq!(RouxError::OAuthClientRequired.message(), "OAuth client required");
    match roux::json::parse("{") {
        Err(error) => assert!(!error.message().is_empty()),
        Ok(_) => panic!("a brace alone is no document"),
    }
}

#[test]
fn status_error_keeps_the_whole_response() {
    let refused = Response {
        status: 429,
        headers: vec![roux::client::Param::new("retry-after", "7")],
        body: "slow down".to_string(),
    };
    match reddit().login(refused) {
        Err(RouxError::Status(kept)) => {
            assert_eq!(kept.status, 429);
            assert_eq!(pairs(&kept.headers), vec![pair("retry-after", "7")]);
            assert_eq!(kept.body, "slow down");
        },
        other => panic!("unexpected: {:?}", other),
    }
}

#[test]
fn sessions_and_configurations_are_copied_whole() {
    let me = reddit().login(response(200, r#"{"access_token":"abc"}"#)).unwrap();
    let copy = me.clone();
    assert_eq!(copy.config.user_agent, "agent");
    assert_eq!(copy.config.client_id, "id");
    assert_eq!(copy.config.client_secret, "secret");
    assert_eq!(copy.config.username.as_deref(), Some("user"));
    assert_eq!(copy.config.password.as_deref(), Some("pass"));
    assert_eq!(copy.config.access_token.as_deref(), Some("abc"));
    assert_eq!(pairs(&copy.client.default_headers), pairs(&me.client.default_headers));
    assert_eq!(copy.me().url, me.me().url);
    let config = me.config.clone();
    assert_eq!(config.access_token.as_deref(), Some("abc"));
    let client = me.client.clone();
    assert_eq!(pairs(&client.default_headers).len(), 2);
}
