use audiobookroom::{chapter_file_name, music_type_of, parse_decimal_u32, sort_with_number};

fn names(list: &[&str]) -> Vec<String> {
    list.iter().map(|s| s.to_string()).collect()
}

#[test]
fn files_are_ordered_by_first_number() {
    let n = names(&["ch10.ogg", "ch2.ogg", "intro.ogg", "ch2b.ogg", "1.ogg"]);
    assert_eq!(sort_with_number(&n), Some(vec![4, 1, 3, 0]));
}

#[test]
fn extension_digits_count_as_a_number() {
    let n = names(&["ch10.mp3", "intro.mp3", "1.mp3"]);
    assert_eq!(sort_with_number(&n), Some(vec![2, 1, 0]));
}

#[test]
fn only_the_first_run_of_digits_counts() {
    let n = names(&["part2_take9.mp3", "part1_take30.mp3"]);
    assert_eq!(sort_with_number(&n), Some(vec![1, 0]));
}

#[test]
fn names_without_number_are_left_out() {
    let n = names(&["cover.jpg", "notes.txt"]);
    assert_eq!(sort_with_number(&n), Some(vec![]));
    assert_eq!(sort_with_number(&Vec::new()), Some(vec![]));
}

#[test]
fn number_beyond_u32_is_unreadable() {
    let n = names(&["01.mp3", "99999999999.mp3"]);
    assert_eq!(sort_with_number(&n), None);
}

#[test]
fn digits_of_another_script_are_unreadable() {
    // U+0663 is ARABIC-INDIC DIGIT THREE.
    let n = names(&["01.mp3", "\u{663}.mp3"]);
    assert_eq!(sort_with_number(&n), None);
}

#[test]
fn parse_decimal_u32_reads_ascii_digits() {
    assert_eq!(parse_decimal_u32("007"), Some(7));
    assert_eq!(parse_decimal_u32("4294967295"), Some(u32::MAX));
    assert_eq!(parse_decimal_u32("4294967296"), None);
    assert_eq!(parse_decimal_u32(""), None);
    assert_eq!(parse_decimal_u32("12a"), None);
}

#[test]
fn media_types() {
    assert_eq!(music_type_of("mp3"), Some(0));
    assert_eq!(music_type_of("m4a"), Some(1));
    assert_eq!(music_type_of("flac"), None);
    assert_eq!(music_type_of("MP3"), None);
}

#[test]
fn chapter_file_names_are_zero_padded() {
    assert_eq!(chapter_file_name(1, "mp3"), "0001.mp3");
    assert_eq!(chapter_file_name(100, "m4a"), "0100.m4a");
    assert_eq!(chapter_file_name(12345, "mp3"), "12345.mp3");
}

#[test]
fn chapter_rows_take_ordinals_in_order() {
    let rows = audiobookroom::plan_chapters(
        &names(&["Intro", "Part One", "Part Two"]),
        &names(&["a/b/0001.mp3", "a/b/0002.mp3", "a/b/0003.mp3"]),
    );
    assert_eq!(rows.len(), 3);
    assert_eq!(rows[0], audiobookroom::ChapterRow {
        chapter_num: 0,
        chapter_name: "Intro".to_string(),
        chapter_url: "a/b/0001.mp3".to_string(),
    });
    assert_eq!(rows[2].chapter_num, 2);
    assert_eq!(rows[2].chapter_url, "a/b/0003.mp3");
}

#[test]
fn chapter_rows_stop_at_shorter_list() {
    let rows = audiobookroom::plan_chapters(&names(&["x", "y"]), &names(&["u"]));
    assert_eq!(rows.len(), 1);
    assert_eq!(rows[0].chapter_name, "x");
    assert!(audiobookroom::plan_chapters(&Vec::new(), &Vec::new()).is_empty());
}
