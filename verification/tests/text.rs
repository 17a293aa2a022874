use current_song::color::Color;
use current_song::config::Config;
use current_song::song::SongInfo;
use current_song::text::{chars_of, find, matches_at, replace, same_text};

fn song(artist: &str, title: &str) -> SongInfo {
    SongInfo::new(artist.to_string(), title.to_string())
}

#[test]
fn chars_of_gives_the_characters() {
    assert_eq!(chars_of(""), Vec::<char>::new());
    assert_eq!(chars_of("a\u{266b}b"), vec!['a', '\u{266b}', 'b']);
}

#[test]
fn same_text_compares_whole_texts() {
    assert!(same_text("", ""));
    assert!(same_text("abc", "abc"));
    assert!(!same_text("abc", "abd"));
    assert!(!same_text("abc", "ab"));
    assert!(!same_text("ab", "abc"));
    assert!(same_text("\u{266b}", "\u{266b}"));
}

#[test]
fn matches_at_looks_at_one_place() {
    let text = chars_of("hello");
    assert!(matches_at(&text, 0, &chars_of("he")));
    assert!(matches_at(&text, 3, &chars_of("lo")));
    assert!(!matches_at(&text, 4, &chars_of("lo")));
    assert!(!matches_at(&text, 1, &chars_of("he")));
    assert!(matches_at(&text, 5, &chars_of("")));
    assert!(!matches_at(&text, 6, &chars_of("")));
}

#[test]
fn find_gives_the_first_place() {
    assert_eq!(find(&chars_of("abcabc"), &chars_of("bc")), Some(1));
    assert_eq!(find(&chars_of("abcabc"), &chars_of("abc")), Some(0));
    assert_eq!(find(&chars_of("abcabc"), &chars_of("cb")), None);
    assert_eq!(find(&chars_of("ab"), &chars_of("abc")), None);
    assert_eq!(find(&chars_of("abc"), &chars_of("c")), Some(2));
    assert_eq!(find(&chars_of(""), &chars_of("")), Some(0));
}

#[test]
fn replace_replaces_every_occurrence() {
    assert_eq!(replace("a{x}b{x}", "{x}", "Q"), "aQbQ");
    assert_eq!(replace("{x}", "{x}", ""), "");
    assert_eq!(replace("no match", "{x}", "Q"), "no match");
    assert_eq!(replace("", "{x}", "Q"), "");
    assert_eq!(replace("ab", "abc", "Q"), "ab");
}

#[test]
fn replace_goes_from_the_left_without_overlap() {
    assert_eq!(replace("aaa", "aa", "X"), "Xa");
    assert_eq!(replace("aaaa", "aa", "X"), "XX");
    assert_eq!(replace("abab", "ab", "ba"), "baba");
    assert_eq!(replace("aXa", "X", "XX"), "aXXa");
}

#[test]
fn replace_leaves_the_text_alone_for_an_empty_pattern() {
    assert_eq!(replace("abc", "", "X"), "abc");
}

#[test]
fn replace_agrees_with_the_standard_library() {
    let texts = ["", "a", "{artist} - {title}", "xx{t}{t}x{t", "\u{266b} {a}\u{266b}{a}", "aaaaa"];
    let patterns = ["a", "aa", "{t}", "{a}", "\u{266b}", "{artist}", "x{"];
    let inserts = ["", "Q", "{t}", "a\u{f6}"];
    for text in texts {
        for pattern in patterns {
            for insert in inserts {
                assert_eq!(replace(text, pattern, insert), text.replace(pattern, insert));
            }
        }
    }
}

#[test]
fn the_default_config_names_spotify_and_the_note_format() {
    let config = Config::default();
    assert_eq!(config.driver_name(), "spotify-desktop");
    assert_eq!(config.song_format(), "\u{266b} {artist} - {title}");
    let copy = config.clone();
    assert_eq!(copy.driver_name(), "spotify-desktop");
    assert_eq!(copy.song_format(), "\u{266b} {artist} - {title}");
}

#[test]
fn a_config_keeps_what_it_was_given() {
    let config = Config::new("d".to_string(), "f".to_string());
    assert_eq!(config.driver_name(), "d");
    assert_eq!(config.song_format(), "f");
}

#[test]
fn a_missing_config_gives_the_default_and_asks_to_save_it() {
    let (config, save) = Config::or_default(None);
    assert!(save);
    assert_eq!(config.driver_name(), "spotify-desktop");
    let (config, save) = Config::or_default(Some(Config::new("d".to_string(), "f".to_string())));
    assert!(!save);
    assert_eq!(config.driver_name(), "d");
    assert_eq!(config.song_format(), "f");
}

#[test]
fn render_fills_in_artist_and_title() {
    let config = Config::default();
    assert_eq!(config.render(&song("A", "T1")), "\u{266b} A - T1");
    let twice = Config::new("d".to_string(), "{title}/{artist}/{title}".to_string());
    assert_eq!(twice.render(&song("A", "T")), "T/A/T");
    let none = Config::new("d".to_string(), "static".to_string());
    assert_eq!(none.render(&song("A", "T")), "static");
}

#[test]
fn render_escapes_nothing() {
    let config = Config::new("d".to_string(), "{artist} - {title}".to_string());
    assert_eq!(config.render(&song("{title}", "T")), "T - T");
    assert_eq!(config.render(&song("A", "{artist}")), "A - {artist}");
}

#[test]
fn a_colour_packs_red_lowest() {
    assert_eq!(Color::rgb(0, 0, 0).value(), 0);
    assert_eq!(Color::rgb(1, 2, 3).value(), 0x030201);
    assert_eq!(Color::rgb(255, 0, 0).value(), 255);
    assert_eq!(Color::rgb(0, 255, 0).value(), 0xff00);
    assert_eq!(Color::rgb(0, 0, 255).value(), 0xff0000);
    assert_eq!(Color::rgb(255, 255, 255).value(), 0xffffff);
    assert_eq!(u32::from(Color::rgb(16, 32, 48)), 0x302010);
}
