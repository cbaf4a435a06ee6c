use watch_cycle::diff::{count_diff, output_diff, same_text, tally, Chunk};

#[test]
fn test_count_diff() {
    let current = "hello world!";
    let old = "hello world";

    let result = count_diff(old, current);

    assert_eq!(result, (1, 0))
}

#[test]
fn test_count_delete_diff() {
    let current = "hello world";
    let old = "hello oorld!";

    let result = count_diff(old, current);

    assert_eq!(result, (1, 2))
}

#[test]
fn equal_texts_differ_in_nothing() {
    assert_eq!(count_diff("", ""), (0, 0));
    assert_eq!(count_diff("same", "same"), (0, 0));
    assert_eq!(count_diff("zwölf Boxkämpfer\n", "zwölf Boxkämpfer\n"), (0, 0));
}

#[test]
fn everything_is_added_to_an_empty_text() {
    assert_eq!(count_diff("", "abc"), (3, 0));
}

#[test]
fn everything_is_removed_towards_an_empty_text() {
    assert_eq!(count_diff("abcd", ""), (0, 4));
}

#[test]
fn counts_are_characters_not_bytes() {
    assert_eq!(count_diff("", "日本語"), (3, 0));
    assert_eq!(count_diff("日本語", ""), (0, 3));
    assert_eq!(count_diff("héllo", "hello"), (1, 1));
    assert_eq!(count_diff("a😀b", "ab"), (0, 1));
}

#[test]
fn a_replaced_word_counts_on_both_sides() {
    assert_eq!(count_diff("load 0.10", "load 0.25"), (2, 2));
}

#[test]
fn tally_of_an_empty_script_is_zero() {
    assert_eq!(tally(&[]), (0, 0));
}

#[test]
fn tally_ignores_unchanged_chunks() {
    assert_eq!(tally(&[Chunk::Equal("hello"), Chunk::Equal(" world")]), (0, 0));
}

#[test]
fn tally_adds_each_side_up() {
    let script = [
        Chunk::Equal("a"),
        Chunk::Insert("bc"),
        Chunk::Delete("déf"),
        Chunk::Insert("日"),
        Chunk::Delete("x"),
    ];
    assert_eq!(tally(&script), (3, 4));
}

#[test]
fn same_text_compares_characters() {
    assert!(same_text("", ""));
    assert!(same_text("héllo", "héllo"));
    assert!(!same_text("hello", "hellp"));
    assert!(!same_text("hello", "hello "));
    assert!(!same_text("", "a"));
}

#[test]
fn output_diff_of_equal_bytes_is_zero() {
    assert_eq!(output_diff(b"", b""), (0, 0));
    assert_eq!(output_diff(b"one\ntwo\n", b"one\ntwo\n"), (0, 0));
    assert_eq!(output_diff(&[0xff, 0xfe], &[0xff, 0xfe]), (0, 0));
}

#[test]
fn output_diff_compares_the_decoded_text() {
    assert_eq!(output_diff(b"abc", b"abd"), (1, 1));
    assert_eq!(output_diff("日本".as_bytes(), "日本語".as_bytes()), (1, 0));
}

#[test]
fn output_diff_reads_invalid_bytes_as_replacement_characters() {
    // 0xff is no UTF-8: it is read as one replacement character.
    assert_eq!(output_diff(&[0xff], &[0xff, b'a']), (1, 0));
    assert_eq!(output_diff(&[], &[0xff]), (1, 0));
    assert_eq!(output_diff(&[0xff], "\u{fffd}".as_bytes()), (0, 0));
}
