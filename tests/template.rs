use cmus_notify::process_template_placeholders;
use cmus_notify::Track;

fn sample_track() -> Track {
    let mut track = Track::new(String::from("Photograph"));
    track.set_tag(String::from("artist"), String::from("Alex Goot"));
    track.set_tag(String::from("album"), String::from("Alex Goot & Friends, Vol. 3"));
    track.set_tag(String::from("tracknumber"), String::from("8"));
    track.set_tag(String::from("date"), String::from("2014"));
    track
}

#[test]
fn test_process_path_template() {
    let track = sample_track();
    let cover_path_template = String::from("{title}/{artist}/{album}/{tracknumber}");
    let cover_path = process_template_placeholders(&cover_path_template, &track);

    assert_eq!(
        cover_path,
        "Photograph/Alex Goot/Alex Goot & Friends, Vol. 3/8"
    );
}

#[test]
fn title_placeholder_gives_display_name() {
    let track = sample_track();
    assert_eq!(process_template_placeholders(&String::from("{title}"), &track), "Photograph");
}

#[test]
fn unknown_placeholder_gives_empty_string() {
    let track = sample_track();
    assert_eq!(process_template_placeholders(&String::from("{nonexistent}"), &track), "");
}

#[test]
fn text_outside_placeholders_is_kept() {
    let track = sample_track();
    let t = String::from("Now playing: {title} ({date})");
    assert_eq!(process_template_placeholders(&t, &track), "Now playing: Photograph (2014)");
}

#[test]
fn repeated_placeholder_is_replaced_everywhere() {
    let track = sample_track();
    let t = String::from("{artist} - {artist}");
    assert_eq!(process_template_placeholders(&t, &track), "Alex Goot - Alex Goot");
}

#[test]
fn value_holding_a_later_placeholder_is_expanded_again() {
    let mut track = Track::new(String::from("Song"));
    track.set_tag(String::from("a"), String::from("<{b}>"));
    track.set_tag(String::from("b"), String::from("B"));
    let t = String::from("{a}|{b}");
    assert_eq!(process_template_placeholders(&t, &track), "<B>|B");
}

#[test]
fn value_holding_an_earlier_placeholder_is_kept() {
    let mut track = Track::new(String::from("Song"));
    track.set_tag(String::from("a"), String::from("A"));
    track.set_tag(String::from("b"), String::from("<{a}>"));
    let t = String::from("{a}|{b}");
    assert_eq!(process_template_placeholders(&t, &track), "A|<{a}>");
}

#[test]
fn unterminated_brace_is_left_alone() {
    let track = sample_track();
    let t = String::from("{title} {artist");
    assert_eq!(process_template_placeholders(&t, &track), "Photograph {artist");
}

#[test]
fn unmatched_close_brace_uses_current_key() {
    let track = sample_track();
    assert_eq!(process_template_placeholders(&String::from("a{}b}"), &track), "ab}");
    assert_eq!(process_template_placeholders(&String::from("x}"), &track), "x}");
}

#[test]
fn empty_template_renders_empty() {
    let track = sample_track();
    assert_eq!(process_template_placeholders(&String::new(), &track), "");
}

#[test]
fn non_ascii_text_is_kept() {
    let mut track = Track::new(String::from("Étoile"));
    track.set_tag(String::from("artist"), String::from("Björk"));
    let t = String::from("«{title}» – {artist}");
    assert_eq!(process_template_placeholders(&t, &track), "«Étoile» – Björk");
}

#[test]
fn setting_a_tag_twice_keeps_the_last_value() {
    let mut track = Track::new(String::from("Song"));
    track.set_tag(String::from("artist"), String::from("First"));
    track.set_tag(String::from("artist"), String::from("Second"));
    assert_eq!(track.get(&String::from("artist")).map(|s| s.as_str()), Some("Second"));
    assert_eq!(track.get(&String::from("album")), None);
    assert_eq!(track.get_name(), "Song");
}

#[test]
fn characters_after_a_close_brace_are_not_collected() {
    let mut track = Track::new(String::from("Song"));
    track.set_tag(String::from("x"), String::from("{xy}"));
    track.set_tag(String::from("xy"), String::from("Q"));
    let t = String::from("{x}y}");
    assert_eq!(process_template_placeholders(&t, &track), "{xy}y}");
}

#[test]
fn stray_close_brace_reuses_the_held_key() {
    let mut track = Track::new(String::from("Song"));
    track.set_tag(String::from("a"), String::from("{a}"));
    let t = String::from("{a} and }");
    assert_eq!(process_template_placeholders(&t, &track), "{a} and }");
}
