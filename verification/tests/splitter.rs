use discord_gateway::split::{char_is_whitespace, split_msg, str_is_blank, MESSAGE_LIMIT};

fn chunks(msg: &str) -> Vec<String> {
    split_msg(msg).into_iter().map(|c| c.into_owned()).collect()
}

#[test]
fn short_text_is_one_chunk() {
    assert_eq!(chunks("hello"), vec!["hello".to_string()]);
    assert_eq!(chunks(""), vec!["".to_string()]);
    assert_eq!(chunks("a\nb\r\nc\n"), vec!["a\nb\r\nc\n".to_string()]);
}

#[test]
fn text_of_exactly_the_limit_is_one_chunk() {
    let msg = "x".repeat(MESSAGE_LIMIT);
    assert_eq!(chunks(&msg), vec![msg.clone()]);
}

#[test]
fn lines_are_packed_up_to_the_limit() {
    let a = "a".repeat(1500);
    let b = "b".repeat(499);
    let c = "c".repeat(10);
    let msg = format!("{}\n{}\n{}", a, b, c);
    let out = chunks(&msg);
    assert_eq!(out, vec![format!("{}\n{}", a, b), c.clone()]);
    assert_eq!(out[0].len(), 2000);
    assert_eq!(out.join("\n"), msg);
}

#[test]
fn line_that_would_overflow_starts_a_chunk() {
    let a = "a".repeat(1500);
    let b = "b".repeat(500);
    let msg = format!("{}\n{}", a, b);
    assert_eq!(chunks(&msg), vec![a.clone(), b.clone()]);
}

#[test]
fn long_line_is_cut_into_full_pieces() {
    let msg = "z".repeat(4500);
    let out = chunks(&msg);
    assert_eq!(out.len(), 3);
    assert_eq!(out[0], "z".repeat(2000));
    assert_eq!(out[1], "z".repeat(2000));
    assert_eq!(out[2], "z".repeat(500));
}

#[test]
fn long_line_closes_the_chunk_before_and_after() {
    let long = "z".repeat(2001);
    let msg = format!("head\n{}\ntail", long);
    let out = chunks(&msg);
    assert_eq!(out, vec!["head".to_string(), "z".repeat(2000), "z".to_string(), "tail".to_string()]);
}

#[test]
fn pieces_of_wide_characters_stay_within_the_limit() {
    // 'é' takes two bytes, '€' three: 999 + 1 wide characters cannot share 2000 bytes.
    let msg = format!("{}{}", "é".repeat(999), "€".repeat(400));
    let out = chunks(&msg);
    for chunk in &out {
        assert!(chunk.len() <= MESSAGE_LIMIT);
        assert!(!chunk.trim().is_empty());
    }
    assert_eq!(out[0], "é".repeat(999));
    assert_eq!(out[1], "€".repeat(400));
    assert_eq!(out.concat(), msg);
}

#[test]
fn blank_chunk_becomes_a_full_stop() {
    let msg = " ".repeat(4001);
    let out = chunks(&msg);
    assert_eq!(out, vec![".".to_string(), ".".to_string(), ".".to_string()]);
    let msg = format!("\n{}", "q".repeat(2000));
    assert_eq!(chunks(&msg), vec![".".to_string(), "q".repeat(2000)]);
}

#[test]
fn every_chunk_fits_and_is_not_blank() {
    let mut msg = String::new();
    for i in 0..400 {
        msg.push_str(&"w".repeat(i % 37));
        msg.push_str(if i % 5 == 0 { "\r\n" } else { "\n" });
        if i % 97 == 0 {
            msg.push_str(&"L".repeat(2500));
            msg.push('\n');
        }
    }
    let out = chunks(&msg);
    assert!(out.len() > 1);
    for chunk in &out {
        assert!(chunk.len() <= MESSAGE_LIMIT);
        assert!(!chunk.trim().is_empty());
    }
}

#[test]
fn rejoining_gives_the_text_back() {
    let mut lines: Vec<String> = Vec::new();
    for i in 0..300 {
        lines.push(format!("line {} {}", i, "x".repeat(i % 50)));
    }
    let msg = lines.join("\n");
    assert!(msg.len() > MESSAGE_LIMIT);
    let out = chunks(&msg);
    assert!(out.len() > 1);
    assert_eq!(out.join("\n"), msg);
}

#[test]
fn line_endings_are_not_part_of_a_line() {
    let body = "k".repeat(1990);
    let msg = format!("{}\r\nabc\r\ndefghijkl\n", body);
    let out = chunks(&msg);
    assert_eq!(out, vec![format!("{}\nabc", body), "defghijkl".to_string()]);
}

#[test]
fn lone_carriage_return_at_the_end_stays() {
    let msg = format!("{}\nabc\r", "k".repeat(2000));
    assert_eq!(chunks(&msg), vec!["k".repeat(2000), "abc\r".to_string()]);
}

#[test]
fn lines_agree_with_std() {
    // After a line over the limit every short line packs into one chunk, so that
    // chunk, taken apart at its line feeds, shows the lines that were read.
    let texts = ["a\nb", "a\r\nb\r\n", "x\r", "one\n\ntwo\n", "\rx\n\r\r\ny", "q\n\n"];
    for t in texts {
        let msg = format!("{}\n{}", "p".repeat(2001), t);
        let expected: Vec<&str> = msg.lines().skip(1).collect();
        let out = chunks(&msg);
        assert_eq!(out.len(), 3, "text {:?}", t);
        let got: Vec<&str> = out[2].split('\n').collect();
        assert_eq!(got, expected, "text {:?}", t);
    }
}

#[test]
fn white_space_is_what_std_says() {
    let mut c = 0u32;
    while c <= 0x10FFFF {
        if let Some(ch) = char::from_u32(c) {
            assert_eq!(char_is_whitespace(ch), ch.is_whitespace(), "U+{:04X}", c);
        }
        c += 1;
    }
}

#[test]
fn blank_is_empty_after_trim() {
    for t in ["", " ", "\n\t \u{3000}", "a", " . ", "\u{200B}"] {
        assert_eq!(str_is_blank(t), t.trim().is_empty(), "{:?}", t);
    }
}
