use wordcount::counts::{count_text, CountResult};

fn triple(r: &CountResult) -> (u64, u64, u64) {
    (r.char_count, r.word_count, r.line_count)
}

#[test]
fn empty_text_has_no_counts() {
    let r = count_text("empty.txt", "");
    assert_eq!(r.filename, "empty.txt");
    assert_eq!(triple(&r), (0, 0, 0));
}

#[test]
fn one_unterminated_line() {
    let r = count_text("one.txt", "ab cd");
    assert_eq!(r.char_count, 4);
    assert_eq!(r.word_count, 1);
    assert_eq!(r.line_count, 1);
}

#[test]
fn two_files_and_their_totals() {
    let a = count_text("a.txt", "hi\n");
    let b = count_text("b.txt", "yo\n");
    assert_eq!(triple(&a), (2, 1, 1));
    assert_eq!(triple(&b), (2, 1, 1));
    let mut total = CountResult::new("Totals");
    total.increment_by(&a);
    total.increment_by(&b);
    assert_eq!(total.filename, "Totals");
    assert_eq!(total.line_count, 2);
    assert_eq!(total.char_count, 4);
    assert_eq!(total.word_count, 2);
}

#[test]
fn merge_order_does_not_matter() {
    let a = count_text("a.txt", "one two\nthree\n");
    let b = count_text("b.txt", "x\ty z");
    let mut ab = CountResult::new("Totals");
    ab.increment_by(&a);
    ab.increment_by(&b);
    let mut ba = CountResult::new("Totals");
    ba.increment_by(&b);
    ba.increment_by(&a);
    assert_eq!(triple(&ab), triple(&ba));
    assert_eq!(triple(&ab), (14, 5, 3));
}

#[test]
fn every_character_lands_in_one_count() {
    let text = "a\tb\u{A0}c\u{3000}d\r\n\u{2028}ü ß";
    let r = count_text("mixed.txt", text);
    assert_eq!(r.char_count + r.word_count, text.chars().count() as u64);
    assert_eq!(r.char_count, 6);
    assert_eq!(r.word_count, 7);
}

#[test]
fn lines_follow_the_terminators() {
    assert_eq!(count_text("f", "a\nb").line_count, 2);
    assert_eq!(count_text("f", "a\nb\n").line_count, 2);
    assert_eq!(count_text("f", "a\n\n").line_count, 2);
    assert_eq!(count_text("f", "\n").line_count, 1);
    assert_eq!(count_text("f", "no terminator").line_count, 1);
    assert_eq!(count_text("f", "\r\r").line_count, 1);
}

#[test]
fn new_result_is_zero() {
    let r = CountResult::new("notes.md");
    assert_eq!(r.filename, "notes.md");
    assert_eq!(triple(&r), (0, 0, 0));
}

#[test]
fn count_line_adds_one_line() {
    let mut r = CountResult::new("f");
    r.count_line("hello world\n");
    assert_eq!(triple(&r), (10, 2, 1));
    r.count_line("");
    assert_eq!(triple(&r), (10, 2, 2));
    assert_eq!(r.filename, "f");
}

#[test]
fn line_by_line_matches_whole_text() {
    let text = "first line\n  second\tline \n\nlast";
    let mut r = CountResult::new("f");
    for line in text.split_inclusive('\n') {
        r.count_line(line);
    }
    let whole = count_text("f", text);
    assert_eq!(triple(&r), triple(&whole));
    assert_eq!(triple(&whole), (23, 8, 4));
}

#[test]
fn increment_by_adds_each_count() {
    let mut total = CountResult::new("Totals");
    total.char_count = 5;
    total.line_count = 7;
    total.word_count = 11;
    let mut other = CountResult::new("x");
    other.char_count = 100;
    other.line_count = 20;
    other.word_count = 3;
    total.increment_by(&other);
    assert_eq!(triple(&total), (105, 14, 27));
    assert_eq!(total.filename, "Totals");
}
