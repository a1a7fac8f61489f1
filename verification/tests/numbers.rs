use audiobud::numbers::format_numbers;
use audiobud::language::TextPipelineLanguage;

fn en() -> TextPipelineLanguage {
    TextPipelineLanguage::english()
}


#[test]
fn cardinals_basic() {
    assert_eq!(format_numbers("twenty five", &en()), "25");
    assert_eq!(format_numbers("one hundred", &en()), "100");
    assert_eq!(format_numbers("one hundred twenty five", &en()), "125");
    assert_eq!(format_numbers("one hundred and five", &en()), "105");
    assert_eq!(format_numbers("two thousand", &en()), "2000");
    assert_eq!(format_numbers("one thousand two hundred fifty", &en()), "1250");
    assert_eq!(format_numbers("two hundred thousand", &en()), "200000");
    assert_eq!(
        format_numbers("two million five hundred thousand", &en()),
        "2500000"
    );
    assert_eq!(format_numbers("fifteen hundred", &en()), "1500");
}

#[test]
fn cardinals_hyphenated() {
    assert_eq!(format_numbers("twenty-five", &en()), "25");
    assert_eq!(format_numbers("one hundred twenty-five", &en()), "125");
}

#[test]
fn cardinals_in_a_sentence() {
    assert_eq!(
        format_numbers("I have twenty three unread messages", &en()),
        "I have 23 unread messages"
    );
    assert_eq!(
        format_numbers("we ordered fifty pizzas today", &en()),
        "we ordered 50 pizzas today"
    );
}

#[test]
fn a_and_an_as_one_before_scale() {
    assert_eq!(format_numbers("a hundred dollars", &en()), "$100");
    assert_eq!(format_numbers("a thousand times", &en()), "1000 times");
    // "a"/"an" as an article is untouched.
    assert_eq!(format_numbers("a dog and a cat", &en()), "a dog and a cat");
    assert_eq!(format_numbers("an apple", &en()), "an apple");
}

#[test]
fn currency_dollars() {
    assert_eq!(format_numbers("five dollars", &en()), "$5");
    assert_eq!(format_numbers("twenty five dollars", &en()), "$25");
    assert_eq!(format_numbers("one dollar", &en()), "$1");
    assert_eq!(
        format_numbers("it costs twenty five dollars total", &en()),
        "it costs $25 total"
    );
    assert_eq!(format_numbers("five bucks", &en()), "$5");
}

#[test]
fn currency_dollars_and_cents() {
    assert_eq!(format_numbers("ten dollars and fifty cents", &en()), "$10.50");
    assert_eq!(
        format_numbers("twenty five dollars and five cents", &en()),
        "$25.05"
    );
    assert_eq!(format_numbers("three dollars ninety nine cents", &en()), "$3.99");
}

#[test]
fn currency_preserves_trailing_punctuation() {
    assert_eq!(
        format_numbers("that will be five dollars, please", &en()),
        "that will be $5, please"
    );
    assert_eq!(format_numbers("I paid ten dollars.", &en()), "I paid $10.");
}

#[test]
fn standalone_cents_stay_words() {
    assert_eq!(format_numbers("fifty cents", &en()), "50 cents");
}

#[test]
fn percent() {
    assert_eq!(format_numbers("ten percent", &en()), "10%");
    assert_eq!(
        format_numbers("up by twenty five percent this year", &en()),
        "up by 25% this year"
    );
    assert_eq!(format_numbers("one percent", &en()), "1%");
}

#[test]
fn decimals() {
    assert_eq!(format_numbers("three point five", &en()), "3.5");
    assert_eq!(format_numbers("three point one four", &en()), "3.14");
    assert_eq!(format_numbers("twenty five point five", &en()), "25.5");
    // "point" without a numeric fraction is left as a word.
    assert_eq!(
        format_numbers("that is the whole point here", &en()),
        "that is the whole point here"
    );
}

#[test]
fn bare_one_is_kept_as_a_word() {
    assert_eq!(format_numbers("no one is here", &en()), "no one is here");
    assert_eq!(format_numbers("one of them", &en()), "one of them");
    assert_eq!(
        format_numbers("which one do you want", &en()),
        "which one do you want"
    );
    // But "one" as part of a larger number or before a unit converts.
    assert_eq!(format_numbers("twenty one", &en()), "21");
    assert_eq!(format_numbers("one hundred", &en()), "100");
    assert_eq!(format_numbers("one dollar", &en()), "$1");
    assert_eq!(format_numbers("one percent", &en()), "1%");
}

#[test]
fn invalid_combinations_split_rather_than_mis_add() {
    // "twenty twenty" must never become "40".
    assert_eq!(format_numbers("twenty twenty", &en()), "20 20");
    assert_eq!(format_numbers("five six seven", &en()), "5 6 7");
}

#[test]
fn non_numbers_are_untouched() {
    assert_eq!(format_numbers("the quick brown fox", &en()), "the quick brown fox");
    assert_eq!(
        format_numbers("twenty-something people", &en()),
        "twenty-something people"
    );
    assert_eq!(format_numbers("", &en()), "");
}

#[test]
fn punctuation_around_numbers() {
    assert_eq!(format_numbers("(twenty-five)", &en()), "(25)");
    assert_eq!(format_numbers("wait, twenty five!", &en()), "wait, 25!");
}

#[test]
fn zero_converts() {
    assert_eq!(format_numbers("zero", &en()), "0");
    assert_eq!(format_numbers("zero dollars", &en()), "$0");
}

#[test]
fn cardinal_before_ordinal_is_left_as_words() {
    // A cardinal directly before an ordinal reads as a compound ordinal; half-converting it to
    // "20 first" is worse than leaving it, so the cardinal stays a word.
    assert_eq!(format_numbers("July twenty first", &en()), "July twenty first");
    assert_eq!(
        format_numbers("the twenty first century", &en()),
        "the twenty first century"
    );
    assert_eq!(
        format_numbers("on the twenty second of June", &en()),
        "on the twenty second of June"
    );
    // Hyphenated ordinals were already safe (never a cardinal token).
    assert_eq!(
        format_numbers("the twenty-first amendment", &en()),
        "the twenty-first amendment"
    );
    // The plural time unit is a cardinal + noun, not an ordinal, and still converts.
    assert_eq!(format_numbers("wait twenty seconds", &en()), "wait 20 seconds");
    // A one-second duration also stays coherent (bare "one" kept).
    assert_eq!(format_numbers("give me one second", &en()), "give me one second");
}

#[test]
fn decimal_spoken_zero() {
    assert_eq!(format_numbers("version one point oh", &en()), "version 1.0");
    assert_eq!(format_numbers("one point oh five", &en()), "1.05");
    assert_eq!(format_numbers("three point o", &en()), "3.0");
}

#[test]
fn point_without_a_fraction_keeps_bare_one() {
    // "point" is not a real decimal here, so the bare "one" must survive rather than becoming
    // "1 point blank".
    assert_eq!(
        format_numbers("one point blank range", &en()),
        "one point blank range"
    );
}

// #65: a spoken time is one of the things the reporter listed, and it was the one
// the group converter left as two numbers ("3 30 pm").
#[test]
fn clock_time_with_meridiem_is_stitched() {
    assert_eq!(
        format_numbers("meet me at three thirty pm", &en()),
        "meet me at 3:30 pm"
    );
    assert_eq!(format_numbers("three thirty PM", &en()), "3:30 PM");
    assert_eq!(format_numbers("eleven forty five a.m.", &en()), "11:45 a.m.");
}

// Without the two-digit width rule this reads as 3:05, inventing a leading zero the
// speaker never said. Two single-digit groups are not a time.
#[test]
fn two_single_digit_groups_are_not_a_time() {
    assert_eq!(format_numbers("three five pm", &en()), "3 5 pm");
}

// One o'clock cannot stitch, and it is worth pinning so the next reader finds a
// recorded decision rather than what looks like a bug. Two correct rules meet here:
// a bare "one" stays a word because it is so often non-numeric, which means the hour
// never becomes a digit for the stitcher to use. Reaching 1:30 would mean punching
// through that carve-out, a worse trade in a module that would rather miss a rewrite
// than make a wrong one.
#[test]
fn one_oclock_does_not_stitch_because_bare_one_stays_a_word() {
    assert_eq!(format_numbers("one thirty pm", &en()), "one 30 pm");
    // Every other hour is unaffected, including the neighbouring twelve.
    assert_eq!(format_numbers("twelve thirty am", &en()), "12:30 am");
    assert_eq!(format_numbers("two thirty pm", &en()), "2:30 pm");
}

#[test]
fn stitched_minute_keeps_two_digits() {
    // "oh eight" is not a number group, so the minute never forms; the hour still
    // converts and the rest is left alone rather than guessed at.
    assert_eq!(format_numbers("nine oh eight pm", &en()), "9 oh 8 pm");
}

// The meridiem is the whole license for the rewrite. Without it the same shape is
// ordinary prose far more often than it is a time.
#[test]
fn two_numbers_without_a_meridiem_are_left_apart() {
    assert_eq!(format_numbers("three thirty", &en()), "3 30");
    assert_eq!(format_numbers("at three thirty", &en()), "at 3 30");
    assert_eq!(
        format_numbers("three thirty inch monitors", &en()),
        "3 30 inch monitors"
    );
}

#[test]
fn out_of_range_pairs_are_not_times() {
    // 13 is not an hour on a spoken clock, and 74 is not a minute.
    assert_eq!(format_numbers("thirteen thirty pm", &en()), "13 30 pm");
    assert_eq!(format_numbers("three seventy four pm", &en()), "3 74 pm");
}

#[test]
fn punctuation_between_the_parts_blocks_the_stitch() {
    // A comma makes it a list. The hour is not a bare token any more.
    assert_eq!(format_numbers("three, thirty pm", &en()), "3, 30 pm");
}

#[test]
fn opening_punctuation_around_a_time_survives() {
    assert_eq!(format_numbers("(three thirty pm)", &en()), "(3:30 pm)");
    assert_eq!(
        format_numbers("she said \"three thirty pm\" clearly", &en()),
        "she said \"3:30 pm\" clearly"
    );
    assert_eq!(
        format_numbers("meet at [three thirty pm]", &en()),
        "meet at [3:30 pm]"
    );
}

#[test]
fn trailing_punctuation_after_the_meridiem_survives() {
    assert_eq!(
        format_numbers("call at four fifteen pm.", &en()),
        "call at 4:15 pm."
    );
}

#[test]
fn a_single_hour_before_a_meridiem_is_untouched() {
    // Nothing to stitch: one group, and "3 pm" already reads correctly.
    assert_eq!(format_numbers("three pm", &en()), "3 pm");
}
