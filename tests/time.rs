use hexchat::lists::Timestamp;
use hexchat::reply::{RPL_CREATED, RPL_TIME};
use hexchat::time::{parse_datetime, pick_datetime};

fn words(line: &str) -> (Vec<String>, Vec<String>) {
    let parts: Vec<&str> = line.split(' ').collect();
    let mut word = vec![String::new()];
    let mut word_eol = vec![String::new()];
    for i in 0..parts.len() {
        word.push(parts[i].to_string());
        word_eol.push(parts[i..].join(" "));
    }
    while word.len() < 32 {
        word.push(String::new());
        word_eol.push(String::new());
    }
    (word, word_eol)
}

#[test]
fn first_reading_that_found_a_time_wins() {
    let tries = vec![None, Some(5), Some(9)];
    assert_eq!(pick_datetime("x".to_string(), &tries), Ok(Timestamp { seconds: 5 }));
    assert_eq!(pick_datetime("x".to_string(), &vec![None, None]), Err("x".to_string()));
    assert_eq!(pick_datetime("y".to_string(), &Vec::new()), Err("y".to_string()));
}

#[test]
fn dates_in_each_format() {
    assert_eq!(
        parse_datetime("12:34:56 Jan 15 2020".to_string()),
        Ok(Timestamp { seconds: 1579091696 })
    );
    assert_eq!(
        parse_datetime("Mon, 01 Jan 2018 00:00:00 +0000".to_string()),
        Ok(Timestamp { seconds: 1514764800 })
    );
    assert_eq!(
        parse_datetime("2018-01-01T01:00:00+01:00".to_string()),
        Ok(Timestamp { seconds: 1514764800 })
    );
    assert_eq!(parse_datetime("not a date".to_string()), Err("not a date".to_string()));
}

#[test]
fn server_time_reply() {
    let (w, e) = words(":srv 391 me irc.example.net :Mon, 01 Jan 2018 00:00:00 +0000");
    let rpl = RPL_TIME::create(&w, &e).unwrap();
    assert_eq!(rpl.rpl_server(), "irc.example.net");
    assert_eq!(rpl.time(), &Ok(Timestamp { seconds: 1514764800 }));
    assert_eq!(rpl.server().0, "srv");
    assert_eq!(RPL_TIME::id(), "391");
}

#[test]
fn server_creation_reply() {
    let (w, e) = words(":srv 003 me :This server was created 12:34:56 Jan 15 2020");
    let rpl = RPL_CREATED::create(&w, &e).unwrap();
    assert_eq!(rpl.date(), &Ok(Timestamp { seconds: 1579091696 }));
    assert_eq!(rpl.target().0, "me");
    let (w, e) = words(":srv 003 me :This server was created sometime");
    assert_eq!(RPL_CREATED::create(&w, &e).unwrap().date(), &Err("sometime".to_string()));
}
