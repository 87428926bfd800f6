//! End-to-end tests: raw feed text in, canonical JSON document out.

use fetch_feed::feed::FeedError;
use fetch_feed::normalize_feed;
use serde_json::Value;

const RSS_FIXTURE: &str = r#"<?xml version="1.0" encoding="UTF-8"?>
<rss xmlns:content="http://purl.org/rss/1.0/modules/content/" version="2.0">
    <channel>
        <title>ProgrammableWeb.com - Feed</title>
        <link>https://www.programmableweb.com/</link>
        <description>News and information around APIs.</description>
        <pubDate>Thu, 22 Sep 2022 01:58:26 +0200</pubDate>
        <item>
            <title>Revolut confirms cyberattack exposed personal data of tens of thousands of users</title>
            <link>https://example.org/revolut-cyberattack</link>
            <description>Fintech startup Revolut has confirmed it was hit by a highly targeted cyberattack.</description>
            <content:encoded><![CDATA[
                <div>
                    <p><strong>Fintech startup Revolut</strong> confirmed the incident.</p>
                    <iframe src="https://example.org/blank" width="0" height="0"></iframe>
                </div>
            ]]></content:encoded>
            <pubDate>Thu, 22 Sep 2022 01:58:26 +0200</pubDate>
        </item>
    </channel>
</rss>
"#;

const ATOM_FIXTURE: &str = r#"<?xml version="1.0" encoding="utf-8"?>
<feed xmlns="http://www.w3.org/2005/Atom">
  <title>Example Feed</title>
  <link href="http://example.org/"/>
  <updated>2003-12-13T18:30:02Z</updated>
  <id>urn:uuid:60a76c80-d399-11d9-b93C-0003939e0af6</id>
  <entry>
    <title>Atom-Powered Robots Run Amok</title>
    <link href="http://example.org/2003/12/13/atom03"/>
    <id>urn:uuid:1225c695-cfb8-4ebb-aaaa-80da344efa6a</id>
    <updated>2003-12-13T18:30:02Z</updated>
    <summary>Some text.</summary>
  </entry>
</feed>
"#;

const RSS_NO_LINK: &str = r#"<?xml version="1.0" encoding="UTF-8"?>
<rss version="2.0">
    <channel>
        <title>Tiny</title>
        <link>http://example.com/</link>
        <description>Channel</description>
        <item>
            <title>First</title>
            <description>Hello</description>
        </item>
    </channel>
</rss>
"#;

#[test]
fn rss_fixture_title() {
    let out = normalize_feed(RSS_FIXTURE).expect("the fixture should parse");
    let json: Value = serde_json::from_str(&out).expect("the output should be JSON");
    assert_eq!(
        json["items"][0]["title"],
        "Revolut confirms cyberattack exposed personal data of tens of thousands of users"
    );
}

#[test]
fn rss_fixture_fields() {
    let out = normalize_feed(RSS_FIXTURE).expect("the fixture should parse");
    let json: Value = serde_json::from_str(&out).expect("the output should be JSON");
    assert_eq!(json["type"], "rss");
    assert_eq!(json["title"], "ProgrammableWeb.com - Feed");
    assert_eq!(json["links"][0], "https://www.programmableweb.com/");
    let item = &json["items"][0];
    assert_eq!(item["published"], 1663804706);
    assert_eq!(item["publishedRaw"], "Thu, 22 Sep 2022 01:58:26 +0200");
    assert_eq!(item["link"], "https://example.org/revolut-cyberattack");
    let content = item["content"].as_str().expect("content should be a string");
    assert!(content.contains("<strong>Fintech startup Revolut</strong>"));
    assert!(!content.contains("iframe"));
}

#[test]
fn atom_fixture_fields() {
    let out = normalize_feed(ATOM_FIXTURE).expect("the fixture should parse");
    let json: Value = serde_json::from_str(&out).expect("the output should be JSON");
    assert_eq!(json["type"], "atom");
    assert_eq!(json["title"], "Example Feed");
    assert!(json["icon"].is_null());
    assert!(json["logo"].is_null());
    let item = &json["items"][0];
    assert_eq!(item["title"], "Atom-Powered Robots Run Amok");
    assert_eq!(item["description"], "Some text.");
    assert_eq!(item["content"], "");
    assert_eq!(item["published"], 1071340202);
    assert_eq!(item["publishedRaw"], "2003-12-13T18:30:02Z");
    assert_eq!(item["link"], "http://example.org/2003/12/13/atom03");
}

#[test]
fn missing_link_rss() {
    let out = normalize_feed(RSS_NO_LINK).expect("the fixture should parse");
    let json: Value = serde_json::from_str(&out).expect("the output should be JSON");
    let item = &json["items"][0];
    let object = item.as_object().expect("an item should be an object");
    assert!(object.contains_key("link"));
    assert_eq!(item["link"], "");
}

#[test]
fn all_keys_present() {
    for fixture in [RSS_FIXTURE, ATOM_FIXTURE, RSS_NO_LINK] {
        let out = normalize_feed(fixture).expect("the fixture should parse");
        let json: Value = serde_json::from_str(&out).expect("the output should be JSON");
        let items = json["items"].as_array().expect("items should be an array");
        for item in items {
            let object = item.as_object().expect("an item should be an object");
            for key in ["title", "description", "content", "published", "publishedRaw", "link"] {
                assert!(object.contains_key(key), "missing key {}", key);
            }
        }
    }
}

#[test]
fn atom_entry_without_dates_gets_the_sentinel() {
    let fixture = r#"<?xml version="1.0" encoding="utf-8"?>
<feed xmlns="http://www.w3.org/2005/Atom">
  <title>Example Feed</title>
  <updated>2003-12-13T18:30:02Z</updated>
  <id>urn:uuid:60a76c80-d399-11d9-b93C-0003939e0af6</id>
  <entry>
    <title>Dateless</title>
    <id>urn:uuid:1225c695-cfb8-4ebb-aaaa-80da344efa6a</id>
  </entry>
</feed>
"#;
    let out = normalize_feed(fixture).expect("the fixture should parse");
    let json: Value = serde_json::from_str(&out).expect("the output should be JSON");
    let item = &json["items"][0];
    assert_eq!(item["publishedRaw"], "NO_DATE");
    assert_eq!(item["published"], 0);
    assert_eq!(item["link"], "");
    assert_eq!(item["description"], "");
    assert_eq!(item["content"], "");
}

#[test]
fn atom_published_wins_over_updated() {
    let fixture = r#"<?xml version="1.0" encoding="utf-8"?>
<feed xmlns="http://www.w3.org/2005/Atom">
  <title>Example Feed</title>
  <icon>http://example.org/icon.png</icon>
  <logo>http://example.org/logo.png</logo>
  <link href="http://example.org/"/>
  <updated>2003-12-13T18:30:02Z</updated>
  <id>urn:uuid:60a76c80-d399-11d9-b93C-0003939e0af6</id>
  <entry>
    <title>Dated</title>
    <id>urn:uuid:1225c695-cfb8-4ebb-aaaa-80da344efa6a</id>
    <updated>2003-12-13T18:30:02Z</updated>
    <published>Thu, 22 Sep 2022 01:58:26 +0200</published>
  </entry>
</feed>
"#;
    let out = normalize_feed(fixture).expect("the fixture should parse");
    let json: Value = serde_json::from_str(&out).expect("the output should be JSON");
    assert_eq!(json["icon"], "http://example.org/icon.png");
    assert_eq!(json["logo"], "http://example.org/logo.png");
    assert_eq!(json["links"][0], "http://example.org/");
    let item = &json["items"][0];
    assert_eq!(item["publishedRaw"], "Thu, 22 Sep 2022 01:58:26 +0200");
    assert_eq!(item["published"], 1663804706);
}

#[test]
fn idempotent_output() {
    let first = normalize_feed(RSS_FIXTURE).expect("the fixture should parse");
    let second = normalize_feed(RSS_FIXTURE).expect("the fixture should parse");
    assert_eq!(first, second);
}

#[test]
fn pre_epoch_date_renders_as_negative_number() {
    let fixture = r#"<?xml version="1.0" encoding="UTF-8"?>
<rss version="2.0">
    <channel>
        <title>Old</title>
        <link>http://example.com/</link>
        <description>Channel</description>
        <item>
            <title>Ancient</title>
            <pubDate>Fri, 01 Jan 1960 00:00:00 +0000</pubDate>
        </item>
    </channel>
</rss>
"#;
    let out = normalize_feed(fixture).expect("the fixture should parse");
    let json: Value = serde_json::from_str(&out).expect("the output should be JSON");
    assert_eq!(json["items"][0]["published"], -315619200);
}

#[test]
fn plain_text_is_parse_error() {
    let res = normalize_feed("just some plain text, certainly not a feed");
    assert!(matches!(res, Err(FeedError::FeedParse)));
}

#[test]
fn escaping_survives_a_json_round_trip() {
    let tricky = r#"<?xml version="1.0" encoding="UTF-8"?>
<rss version="2.0">
    <channel>
        <title>Quote " backslash \ tab&#9;done</title>
        <link>http://example.com/</link>
        <description>Channel</description>
        <item>
            <title>Newline&#10;inside</title>
            <description>Hello</description>
        </item>
    </channel>
</rss>
"#;
    let out = normalize_feed(tricky).expect("the fixture should parse");
    let json: Value = serde_json::from_str(&out).expect("the output should be JSON");
    assert_eq!(json["title"], "Quote \" backslash \\ tab\tdone");
    assert_eq!(json["items"][0]["title"], "Newline\ninside");
}
