use roux::json::{parse, Json};
use roux::models::comment::{decode_comment, CommentData, Comments, REPLY_DEPTH};
use roux::models::friend::Friend;
use roux::models::reply::MaybeReplies;
use roux::models::response::{read, BasicThing, Listing, Payload};
use roux::models::saved::{Saved, SavedData};
use roux::models::submission::Submissions;
use roux::models::subreddit::{decode_comment_feed, unwrap_feed};
use roux::paging::{walk_all, Walk};
use roux::util::error::RouxError;
use roux::Subreddit;

fn comment_json(id: &str, replies: &str) -> String {
    format!(
        r#"{{"total_awards_received":1,"approved_at_utc":1.5e9,"link_id":"t3_l","author_flair_template_id":"tmpl","likes":null,"saved":false,"id":"{id}","gilded":2,"archived":false,"no_follow":true,"author":"ann","can_mod_post":false,"created_utc":1.5e9,"send_replies":true,"parent_id":"t3_p","score":3,"author_fullname":"t2_ann","over_18":false,"approved_by":"","subreddit_id":"t5_s","body":"text of {id}","name":"t1_{id}","author_patreon_flair":false,"downs":4,"is_submitter":false,"body_html":"<p>text</p>","distinguished":null,"edited":false,"stickied":false,"author_premium":false,"can_gild":true,"subreddit":"rust","author_flair_text_color":"dark","score_hidden":false,"permalink":"/r/rust/comments/l/{id}/","num_reports":null,"depth":5,"subreddit_name_prefixed":"r/rust","author_flair_text":"flair","created":1.5e9,"collapsed":false,"controversiality":6,"locked":true,"subreddit_type":"public","ups":7,"replies":{replies}}}"#
    )
}

fn listing_json(children: &[String]) -> String {
    let things: Vec<String> =
        children.iter().map(|c| format!(r#"{{"kind":"t1","data":{c}}}"#)).collect();
    format!(
        r#"{{"kind":"Listing","data":{{"modhash":null,"dist":{},"after":null,"before":null,"children":[{}]}}}}"#,
        children.len(),
        things.join(",")
    )
}

fn nested_comment(levels: usize) -> String {
    let mut inner = comment_json("c0", r#""""#);
    for level in 1..=levels {
        inner = comment_json(&format!("c{level}"), &listing_json(&[inner]));
    }
    inner
}

fn depth_of(comment: &CommentData) -> usize {
    match &comment.replies {
        Some(MaybeReplies::Reply(listing)) => {
            1 + listing.data.children.iter().map(|c| depth_of(&c.data)).max().unwrap_or(0)
        },
        _ => 0,
    }
}

#[test]
fn json_documents_are_read_into_trees() {
    let json = parse(r#"{"b":[1,2.5,"x",null,true],"a":{"n":-7}}"#).unwrap();
    let items = json.member("b").unwrap().as_items().unwrap();
    assert_eq!(items.len(), 5);
    assert_eq!(items[0].as_int(), Some(1));
    assert_eq!(items[1].as_int(), None);
    assert!(matches!(items[1], Json::Number(None)));
    assert_eq!(items[2].as_text(), Some("x"));
    assert!(items[3].is_null());
    assert!(matches!(items[4], Json::Bool(true)));
    assert_eq!(json.member("a").unwrap().member("n").unwrap().as_i32(), Some(-7));
    assert!(json.member("c").is_none());
    assert!(items[0].member("a").is_none());
    assert!(matches!(parse("{\"a\":"), Err(RouxError::Parse(_))));
    assert!(matches!(parse(""), Err(RouxError::Parse(_))));
}

#[test]
fn integers_outside_32_bits_are_no_i32() {
    let json = parse(r#"{"small":2147483647,"big":2147483648,"low":-2147483649}"#).unwrap();
    assert_eq!(json.member("small").unwrap().as_i32(), Some(2147483647));
    assert_eq!(json.member("big").unwrap().as_i32(), None);
    assert_eq!(json.member("big").unwrap().as_int(), Some(2147483648));
    assert_eq!(json.member("low").unwrap().as_i32(), None);
    assert_eq!(json.optional_i32_member("small"), Some(Some(2147483647)));
    assert_eq!(json.optional_i32_member("absent"), Some(None));
    assert_eq!(json.optional_i32_member("big"), None);
}

#[test]
fn empty_string_replies_mean_no_replies() {
    let comment: CommentData = read(&comment_json("abc", r#""""#)).unwrap();
    assert_eq!(comment.id, "abc");
    assert_eq!(comment.name, "t1_abc");
    assert_eq!(comment.author, "ann");
    assert_eq!(comment.body, "text of abc");
    assert_eq!(comment.parent_id, "t3_p");
    assert_eq!(comment.link_id, "t3_l");
    assert_eq!(comment.author_flair_template_id, "tmpl");
    assert_eq!(comment.author_fullname, "t2_ann");
    assert_eq!(comment.approved_by, "");
    assert_eq!(comment.body_html, "<p>text</p>");
    assert_eq!(comment.subreddit, "rust");
    assert_eq!(comment.author_flair_text_color, "dark");
    assert_eq!(comment.permalink, "/r/rust/comments/l/abc/");
    assert_eq!(comment.subreddit_name_prefixed, "r/rust");
    assert_eq!(comment.author_flair_text, "flair");
    assert_eq!(comment.subreddit_type, "public");
    assert_eq!(
        (comment.total_awards_received, comment.gilded, comment.score),
        (1, 2, 3)
    );
    assert_eq!((comment.downs, comment.controversiality, comment.ups), (4, 6, 7));
    assert!(comment.no_follow && comment.send_replies && comment.can_gild && comment.locked);
    assert!(!comment.saved && !comment.archived && !comment.can_mod_post && !comment.edited);
    assert!(!comment.author_patreon_flair && !comment.is_submitter && !comment.stickied);
    assert!(!comment.author_premium && !comment.score_hidden && !comment.collapsed);
    assert_eq!(comment.likes, None);
    assert_eq!(comment.over_18, Some(false));
    assert_eq!(comment.quarantine, None);
    assert_eq!(comment.subreddit_id.as_deref(), Some("t5_s"));
    assert_eq!(comment.distinguished, None);
    assert_eq!(comment.link_title, None);
    assert_eq!(comment.num_reports, None);
    assert_eq!(comment.num_comments, None);
    assert_eq!(comment.depth, Some(5));
    match comment.replies {
        Some(MaybeReplies::Str(text)) => assert_eq!(text, ""),
        other => panic!("unexpected: {:?}", other),
    }
}

#[test]
fn absent_or_null_replies_are_none() {
    let comment: CommentData = read(&comment_json("abc", "null")).unwrap();
    assert!(comment.replies.is_none());
    let without = comment_json("abc", "null").replace(r#","replies":null"#, "");
    assert!(!without.contains(r#""replies""#));
    let comment: CommentData = read(&without).unwrap();
    assert!(comment.replies.is_none());
}

#[test]
fn replies_of_another_kind_are_refused() {
    assert!(matches!(read::<CommentData>(&comment_json("abc", "5")), Err(RouxError::Parse(_))));
    assert!(matches!(
        read::<CommentData>(&comment_json("abc", r#"{"kind":"Listing"}"#)),
        Err(RouxError::Parse(_))
    ));
    assert!(matches!(
        read::<CommentData>(r#"{"id":"a","name":"t1_a","author":"ann","parent_id":"t3_p"}"#),
        Err(RouxError::Parse(_))
    ));
}

#[test]
fn a_comment_needs_each_member_in_its_type() {
    let good = comment_json("abc", "null");
    assert!(read::<CommentData>(&good).is_ok());
    for (from, to) in [
        (r#""saved":false,"#, ""),
        (r#""saved":false"#, r#""saved":"no""#),
        (r#""score":3"#, r#""score":3.5"#),
        (r#""score":3"#, r#""score":2147483648"#),
        (r#""ups":7,"#, ""),
        (r#""subreddit_type":"public","#, ""),
        (r#""link_id":"t3_l""#, r#""link_id":null"#),
        (r#""likes":null"#, r#""likes":1"#),
        (r#""depth":5"#, r#""depth":"five""#),
        (r#""distinguished":null"#, r#""distinguished":false"#),
    ] {
        let bad = good.replacen(from, to, 1);
        assert_ne!(bad, good);
        assert!(matches!(read::<CommentData>(&bad), Err(RouxError::Parse(_))), "{}", from);
    }
    for (from, to) in [
        (r#""likes":null,"#, ""),
        (r#""likes":null"#, r#""likes":true"#),
        (r#""depth":5,"#, ""),
        (r#""approved_at_utc":1.5e9,"#, ""),
    ] {
        let fine = good.replacen(from, to, 1);
        assert_ne!(fine, good);
        assert!(read::<CommentData>(&fine).is_ok(), "{}", from);
    }
}

#[test]
fn replies_nest_six_levels_deep() {
    let comment: CommentData = read(&nested_comment(6)).unwrap();
    assert_eq!(comment.id, "c6");
    assert_eq!(depth_of(&comment), 6);
    let mut at = &comment;
    for level in (0..6).rev() {
        at = match &at.replies {
            Some(MaybeReplies::Reply(listing)) => {
                assert_eq!(listing.kind, "Listing");
                assert_eq!(listing.data.dist, Some(1));
                assert_eq!(listing.data.children.len(), 1);
                assert_eq!(listing.data.children[0].kind, "t1");
                &listing.data.children[0].data
            },
            other => panic!("unexpected: {:?}", other),
        };
        assert_eq!(at.id, format!("c{level}"));
    }
    assert!(matches!(&at.replies, Some(MaybeReplies::Str(text)) if text.is_empty()));
}

#[test]
fn replies_are_read_down_to_the_given_depth() {
    let json = parse(&nested_comment(3)).unwrap();
    assert!(decode_comment(&json, 3).is_some());
    assert!(decode_comment(&json, REPLY_DEPTH).is_some());
    assert!(decode_comment(&json, 2).is_none());
    assert!(decode_comment(&json, 0).is_none());
    let flat = parse(&nested_comment(0)).unwrap();
    assert!(decode_comment(&flat, 0).is_some());
}

#[test]
fn comment_feed_of_an_article_is_the_last_of_a_sequence() {
    let page = listing_json(&[comment_json("only", r#""""#)]);
    let body = format!("[{page}]");
    let url = "https://www.reddit.com/r/rust/comments/abc.json?&limit=25";
    let comments: Comments = Subreddit::read_comment_feed(url, &body).unwrap();
    assert_eq!(comments.kind, "Listing");
    assert_eq!(comments.data.children.len(), 1);
    assert_eq!(comments.data.children[0].data.id, "only");

    let first = listing_json(&[comment_json("first", r#""""#)]);
    let body = format!("[{first},{page}]");
    let comments = Subreddit::read_comment_feed(url, &body).unwrap();
    assert_eq!(comments.data.children[0].data.id, "only");

    assert!(matches!(Subreddit::read_comment_feed(url, "[]"), Err(RouxError::Parse(_))));
    assert!(matches!(Subreddit::read_comment_feed(url, &page), Err(RouxError::Parse(_))));
}

#[test]
fn other_comment_feeds_are_one_listing() {
    let page = listing_json(&[comment_json("a", r#""""#), comment_json("b", "null")]);
    let url = "https://www.reddit.com/r/rust/comments.json?&limit=25";
    let comments = Subreddit::read_comment_feed(url, &page).unwrap();
    assert_eq!(comments.data.children.len(), 2);
    assert_eq!(comments.data.children[1].data.id, "b");
    let body = format!("[{page}]");
    assert!(matches!(Subreddit::read_comment_feed(url, &body), Err(RouxError::Parse(_))));
}

#[test]
fn unwrapping_takes_the_last_element() {
    let json = parse(r#"[{"n":1},{"n":2}]"#).unwrap();
    let last = unwrap_feed(&json, true).unwrap();
    assert_eq!(last.member("n").unwrap().as_int(), Some(2));
    assert!(unwrap_feed(&json, false).unwrap().as_items().is_some());
    assert!(unwrap_feed(&parse("[]").unwrap(), true).is_none());
    assert!(unwrap_feed(&parse("{}").unwrap(), true).is_none());
    assert!(decode_comment_feed(&parse("[]").unwrap(), true).is_none());
}

#[test]
fn saved_items_are_told_apart_by_shape() {
    let post = r#"{"id":"xyz","name":"t3_xyz","title":"A post","author":"bob","subreddit":"rust","url":"https://example.org"}"#;
    let comment = comment_json("c1", r#""""#);
    let body = format!(
        r#"{{"kind":"Listing","data":{{"after":"t1_c1","before":null,"children":[{{"kind":"t3","data":{post}}},{{"kind":"t1","data":{comment}}}]}}}}"#
    );
    let saved: Saved = read(&body).unwrap();
    assert_eq!(saved.data.after.as_deref(), Some("t1_c1"));
    assert!(saved.data.before.is_none());
    assert_eq!(saved.data.children.len(), 2);
    match &saved.data.children[0].data {
        SavedData::Submission(submission) => {
            assert_eq!(submission.id, "xyz");
            assert_eq!(submission.title, "A post");
            assert_eq!(submission.url.as_deref(), Some("https://example.org"));
        },
        other => panic!("unexpected: {:?}", other),
    }
    assert_eq!(saved.data.children[0].data.id(), "xyz");
    assert!(matches!(&saved.data.children[1].data, SavedData::Comment(c) if c.id == "c1"));
    assert_eq!(saved.data.children[1].data.id(), "c1");
}

#[test]
fn a_value_of_both_shapes_is_a_post() {
    let comment = comment_json("x", "null");
    assert!(matches!(read::<SavedData>(&comment), Ok(SavedData::Comment(c)) if c.id == "x"));
    let both = comment.replacen('{', r#"{"title":"T","#, 1);
    assert!(matches!(read::<SavedData>(&both), Ok(SavedData::Submission(s)) if s.id == "x"));
    assert!(matches!(read::<SavedData>(r#"{"id":"x"}"#), Err(RouxError::Parse(_))));
}

#[test]
fn pages_of_posts_and_friend_answers() {
    let body = r#"{"kind":"Listing","data":{"dist":1,"after":null,"children":[{"kind":"t3","data":{"id":"p","name":"t3_p","title":"T","author":"a","subreddit":"s"}}]}}"#;
    let posts: Submissions = read(body).unwrap();
    assert_eq!(posts.data.dist, Some(1));
    assert!(posts.data.children[0].data.url.is_none());
    assert!(read::<Friend>(r#"{"success":true}"#).unwrap().success);
    assert!(!read::<Friend>(r#"{"success":false}"#).unwrap().success);
    assert!(matches!(read::<Friend>(r#"{"success":"yes"}"#), Err(RouxError::Parse(_))));
    let wrong_dist = r#"{"kind":"Listing","data":{"dist":"one","children":[]}}"#;
    assert!(matches!(read::<Submissions>(wrong_dist), Err(RouxError::Parse(_))));
    let no_children = r#"{"kind":"Listing","data":{"dist":1}}"#;
    assert!(matches!(read::<Submissions>(no_children), Err(RouxError::Parse(_))));
    assert!(Friend::decode(&Json::Null).is_none());
}

fn page(items: &[u32], after: Option<&str>) -> BasicThing<Listing<BasicThing<u32>>> {
    BasicThing {
        kind: "Listing".to_string(),
        data: Listing {
            modhash: None,
            dist: None,
            after: after.map(|a| a.to_string()),
            before: None,
            children: items.iter().map(|i| BasicThing { kind: "t".to_string(), data: *i }).collect(),
        },
    }
}

fn serve(feed: &[u32], size: usize, cursor: &str) -> BasicThing<Listing<BasicThing<u32>>> {
    let pos: usize = if cursor.is_empty() { 0 } else { cursor.parse().unwrap() };
    let end = (pos + size).min(feed.len());
    let after = if end < feed.len() { Some(end.to_string()) } else { None };
    page(&feed[pos..end], after.as_deref())
}

#[test]
fn a_walk_collects_the_whole_feed() {
    for (n, size, fetches) in [(1usize, 1usize, 1usize), (7, 3, 3), (6, 3, 2), (5, 10, 1), (10, 1, 10)] {
        let feed: Vec<u32> = (0..n as u32).map(|i| i * 10).collect();
        let mut walk: Walk<u32> = Walk::new();
        let mut count = 0;
        while let Some(cursor) = walk.next_cursor() {
            let next = serve(&feed, size, cursor);
            walk.take(next);
            count += 1;
        }
        assert_eq!(count, fetches);
        let pages = walk.into_pages();
        assert_eq!(pages.len(), fetches);
        let seen: Vec<u32> =
            pages.iter().flat_map(|p| p.data.children.iter().map(|c| c.data)).collect();
        assert_eq!(seen, feed);
    }
}

#[test]
fn a_walk_of_an_empty_feed_asks_once() {
    let mut walk: Walk<u32> = Walk::new();
    assert_eq!(walk.next_cursor(), Some(""));
    walk.take(serve(&[], 5, ""));
    assert!(walk.next_cursor().is_none());
    assert_eq!(walk.into_pages().len(), 1);
}

#[test]
fn a_repeated_cursor_ends_the_walk() {
    let mut walk: Walk<u32> = Walk::new();
    walk.take(page(&[1, 2], Some("t3_b")));
    assert_eq!(walk.next_cursor(), Some("t3_b"));
    walk.take(page(&[1, 2], Some("t3_b")));
    assert!(walk.finished);
    assert!(walk.next_cursor().is_none());
    walk.take(page(&[3], Some("t3_c")));
    assert_eq!(walk.pages.len(), 2);
    assert_eq!(walk.after, "t3_b");
}

#[test]
fn moderators_are_read_with_their_permissions() {
    let body = r#"{"kind":"UserList","data":{"children":[{"id":"t2_a","name":"ann","author_flair_text":null,"mod_permissions":["all"]},{"name":"bob","mod_permissions":["wiki","posts"]},{"name":"cy"}]}}"#;
    let moderators: roux::models::moderator::Moderators = read(body).unwrap();
    assert_eq!(moderators.kind, "UserList");
    let list = &moderators.data.children;
    assert_eq!(list.len(), 3);
    assert_eq!(list[0].id.as_deref(), Some("t2_a"));
    assert!(list[0].author_flair_text.is_none());
    assert_eq!(list[0].mod_permissions, Some(vec!["all".to_string()]));
    assert!(list[1].id.is_none());
    assert_eq!(list[1].mod_permissions, Some(vec!["wiki".to_string(), "posts".to_string()]));
    assert!(list[2].mod_permissions.is_none());
    let wrong = r#"{"kind":"UserList","data":{"children":[{"name":"ann","mod_permissions":["all",1]}]}}"#;
    assert!(matches!(read::<roux::models::moderator::Moderators>(wrong), Err(RouxError::Parse(_))));
    let wrong = r#"{"kind":"UserList","data":{"children":[{"name":5}]}}"#;
    assert!(matches!(read::<roux::models::moderator::Moderators>(wrong), Err(RouxError::Parse(_))));
}

#[test]
fn about_page_is_read() {
    let body = r#"{"kind":"t2","data":{"snoovatar_img":"https://a/s.png","icon_img":"https://a/i.png","total_karma":12}}"#;
    let about: roux::models::about::About = read(body).unwrap();
    assert_eq!(about.kind, "t2");
    assert_eq!(about.data.snoovatar_img, "https://a/s.png");
    assert_eq!(about.data.icon_img, "https://a/i.png");
    let body = r#"{"kind":"t2","data":{"icon_img":"https://a/i.png"}}"#;
    assert!(matches!(read::<roux::models::about::About>(body), Err(RouxError::Parse(_))));
}

#[test]
fn a_saved_post_written_and_read_is_the_same_post() {
    let body = r#"{"id":"xyz","name":"t3_xyz","title":"A post","author":"bob","subreddit":"rust","url":null}"#;
    let written: SavedData = read(body).unwrap();
    let json = written.to_json().unwrap();
    match SavedData::decode(&json) {
        Some(SavedData::Submission(read_back)) => {
            assert_eq!(read_back.id, "xyz");
            assert_eq!(read_back.name, "t3_xyz");
            assert_eq!(read_back.title, "A post");
            assert_eq!(read_back.author, "bob");
            assert_eq!(read_back.subreddit, "rust");
            assert!(read_back.url.is_none());
        },
        other => panic!("unexpected: {:?}", other),
    }
    assert_eq!(json.member("title").unwrap().as_text(), Some("A post"));
    assert!(json.member("url").unwrap().is_null());
}

#[test]
fn a_saved_comment_written_and_read_is_the_same_comment() {
    let written: SavedData = read(&nested_comment(6)).unwrap();
    assert!(matches!(written, SavedData::Comment(_)));
    let json = written.to_json().unwrap();
    assert!(json.member("title").is_none());
    match SavedData::decode(&json) {
        Some(SavedData::Comment(read_back)) => {
            assert_eq!(read_back.id, "c6");
            assert_eq!(written.id(), "c6");
            assert_eq!(read_back.body, "text of c6");
            assert_eq!(read_back.permalink, "/r/rust/comments/l/c6/");
            assert_eq!((read_back.score, read_back.ups, read_back.downs), (3, 7, 4));
            assert!(read_back.locked && !read_back.saved);
            assert_eq!(read_back.over_18, Some(false));
            assert_eq!(read_back.likes, None);
            assert_eq!(read_back.subreddit_id.as_deref(), Some("t5_s"));
            assert_eq!(read_back.depth, Some(5));
            assert_eq!(depth_of(&read_back), 6);
            let mut at = &read_back;
            for level in (0..6).rev() {
                at = match &at.replies {
                    Some(MaybeReplies::Reply(listing)) => {
                        assert_eq!(listing.kind, "Listing");
                        assert_eq!(listing.data.dist, Some(1));
                        &listing.data.children[0].data
                    },
                    other => panic!("unexpected: {:?}", other),
                };
                assert_eq!(at.id, format!("c{level}"));
            }
            assert!(matches!(&at.replies, Some(MaybeReplies::Str(text)) if text.is_empty()));
        },
        other => panic!("unexpected: {:?}", other),
    }
}

#[test]
fn a_comment_is_written_down_to_the_given_depth() {
    let json = parse(&nested_comment(2)).unwrap();
    let comment = decode_comment(&json, 2).unwrap();
    assert!(roux::models::comment::encode_comment(&comment, 2).is_some());
    assert!(roux::models::comment::encode_comment(&comment, 1).is_none());
    let flat = decode_comment(&parse(&comment_json("f", "null")).unwrap(), 0).unwrap();
    let written = roux::models::comment::encode_comment(&flat, 0).unwrap();
    assert!(written.member("replies").unwrap().is_null());
    assert!(decode_comment(&written, 0).unwrap().replies.is_none());
}

#[test]
fn link_flairs_are_a_list() {
    let body = r#"[{"type":"richtext","text_editable":false,"allowable_content":"all","text":"News","max_emojis":10,"text_color":"dark","mod_only":true,"css_class":"news","richtext":[{"e":"text","t":"News"},{"e":"emoji","a":":n:","u":"https://a/n.png"}],"background_color":"","id":"f1"}]"#;
    let flairs: Vec<roux::models::link_flair::LinkFlairData> = read(body).unwrap();
    assert_eq!(flairs.len(), 1);
    let flair = &flairs[0];
    assert_eq!(flair.type_field, "richtext");
    assert!(!flair.text_editable);
    assert!(flair.mod_only);
    assert_eq!(flair.max_emojis, 10);
    assert_eq!(flair.text, "News");
    assert_eq!(flair.background_color, "");
    assert_eq!(flair.id, "f1");
    assert_eq!(flair.richtext.len(), 2);
    assert_eq!(flair.richtext[0].t.as_deref(), Some("News"));
    assert!(flair.richtext[0].a.is_none());
    assert_eq!(flair.richtext[1].a.as_deref(), Some(":n:"));
    assert_eq!(flair.richtext[1].u.as_deref(), Some("https://a/n.png"));
    assert!(read::<Vec<roux::models::link_flair::LinkFlairData>>("[]").unwrap().is_empty());
    assert!(matches!(
        read::<Vec<roux::models::link_flair::LinkFlairData>>(r#"{"type":"text"}"#),
        Err(RouxError::Parse(_))
    ));
    let no_pieces = body.replace(r#""richtext":[{"e":"text","t":"News"},{"e":"emoji","a":":n:","u":"https://a/n.png"}],"#, "");
    assert!(matches!(
        read::<Vec<roux::models::link_flair::LinkFlairData>>(&no_pieces),
        Err(RouxError::Parse(_))
    ));
}

#[test]
fn a_whole_walk_collects_the_whole_feed() {
    for (n, size, fetches) in [(1usize, 1usize, 1usize), (7, 3, 3), (6, 3, 2), (5, 10, 1), (10, 1, 10)] {
        let feed: Vec<u32> = (0..n as u32).map(|i| i * 10).collect();
        let asked = std::cell::Cell::new(0usize);
        let walk = walk_all(
            |cursor: String| {
                asked.set(asked.get() + 1);
                Ok(serve(&feed, size, &cursor))
            },
            n,
        )
        .unwrap();
        assert!(walk.finished);
        assert_eq!(asked.get(), fetches);
        assert_eq!(walk.pages.len(), fetches);
        let seen: Vec<u32> =
            walk.pages.iter().flat_map(|p| p.data.children.iter().map(|c| c.data)).collect();
        assert_eq!(seen, feed);
    }
}

#[test]
fn a_whole_walk_stops_at_its_bound_and_at_a_failure() {
    let feed: Vec<u32> = (0..10).collect();
    let walk = walk_all(|cursor: String| Ok(serve(&feed, 2, &cursor)), 3).unwrap();
    assert!(!walk.finished);
    assert_eq!(walk.pages.len(), 3);
    assert_eq!(walk.after, "6");
    let none = walk_all(|cursor: String| Ok(serve(&feed, 2, &cursor)), 0).unwrap();
    assert!(none.pages.is_empty() && !none.finished);
    let failed: Result<Walk<u32>, RouxError> = walk_all(
        |cursor: String| {
            if cursor == "4" {
                Err(RouxError::Network("down".to_string()))
            } else {
                Ok(serve(&feed, 2, &cursor))
            }
        },
        100,
    );
    assert!(matches!(failed, Err(RouxError::Network(text)) if text == "down"));
    let stuck = walk_all(|_cursor: String| Ok(page(&[1], Some("t3_same"))), 100).unwrap();
    assert!(stuck.finished);
    assert_eq!(stuck.pages.len(), 2);
    let empty = walk_all(|cursor: String| Ok(serve(&[], 5, &cursor)), 100).unwrap();
    assert!(empty.finished);
    assert_eq!(empty.pages.len(), 1);
}
