use yoursfm::audio::metadata::{
    clean_wiki_text, combine_track_metadata, lastfm_track_info_url, lastfm_wiki_texts, musicbrainz_search_url,
    musicbrainz_user_agent, release_year_from_date,
};
use yoursfm::text::{first_piece_of, parse_u32_text, trim, u32_to_decimal};

#[test]
fn trim_removes_unicode_whitespace_at_both_ends() {
    assert_eq!(trim("  hello world \n"), "hello world");
    assert_eq!(trim("\u{3000}\u{a0}x\u{2009}"), "x");
    assert_eq!(trim(" \t\r\n "), "");
    assert_eq!(trim(""), "");
    assert_eq!(trim("a b"), "a b");
    let s = "\u{85} mixed\u{200b}text \u{2028}";
    assert_eq!(trim(s), s.trim());
}

#[test]
fn first_piece_is_text_before_first_marker() {
    assert_eq!(first_piece_of("Great song. <a href=\"x\">Read more</a> <a href", "<a href"), "Great song. ");
    assert_eq!(first_piece_of("no marker here", "<a href"), "no marker here");
    assert_eq!(first_piece_of("1999-12-31", "-"), "1999");
    assert_eq!(first_piece_of("-12", "-"), "");
}

#[test]
fn decimal_text_of_u32() {
    assert_eq!(u32_to_decimal(0), "0");
    assert_eq!(u32_to_decimal(7), "7");
    assert_eq!(u32_to_decimal(1970), "1970");
    assert_eq!(u32_to_decimal(u32::MAX), "4294967295");
}

#[test]
fn parse_u32_follows_str_parse() {
    for s in ["0", "1970", "+42", "4294967295", "4294967296", "", "+", "-", "-1", "12a", " 12", "0012", "99999999999"] {
        assert_eq!(parse_u32_text(s), s.parse::<u32>().ok(), "input {:?}", s);
    }
}

#[test]
fn release_year_is_leading_part_of_date() {
    assert_eq!(release_year_from_date("1970-07-16"), Some(1970));
    assert_eq!(release_year_from_date("1985"), Some(1985));
    assert_eq!(release_year_from_date("unknown"), None);
    assert_eq!(release_year_from_date(""), None);
}

#[test]
fn wiki_text_loses_link_and_whitespace() {
    assert_eq!(
        clean_wiki_text("  A classic from 1970.\n <a href=\"https://www.last.fm/music/x\">Read more on Last.fm</a>"),
        "A classic from 1970."
    );
    let (s, c) = lastfm_wiki_texts(" short <a href", " long text ");
    assert_eq!(s, "short");
    assert_eq!(c, "long text");
}

#[test]
fn lastfm_url_encodes_artist_and_track() {
    assert_eq!(
        lastfm_track_info_url("KEY", "Beyoncé & Jay-Z", "Crazy in Love"),
        "http://ws.audioscrobbler.com/2.0/?method=track.getInfo&api_key=KEY&artist=Beyonc%C3%A9%20%26%20Jay-Z&track=Crazy%20in%20Love&format=json&autocorrect=1"
    );
}

#[test]
fn musicbrainz_url_encodes_the_query() {
    assert_eq!(
        musicbrainz_search_url("Halo", "Beyoncé"),
        "https://musicbrainz.org/ws/2/recording/?query=recording%3A%22Halo%22%20AND%20artist%3A%22Beyonc%C3%A9%22&fmt=json&limit=1"
    );
    assert_eq!(musicbrainz_user_agent("me@example.org"), "YoursFM/0.1.0 ( me@example.org )");
}

#[test]
fn metadata_combines_both_sources() {
    let m = combine_track_metadata(Some(("sum".to_string(), "content".to_string())), Some(1970));
    assert_eq!(m.release_year, Some(1970));
    assert_eq!(m.wiki_summary.as_deref(), Some("sum"));
    assert_eq!(m.wiki_content.as_deref(), Some("content"));
    let m = combine_track_metadata(None, None);
    assert!(m.release_year.is_none() && m.wiki_summary.is_none() && m.wiki_content.is_none());
}
