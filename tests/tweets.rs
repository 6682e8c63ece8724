use block_guardian::{send_tweet, send_tweet_now, ErrorCode, Identity, SendTweet, Tweet};

fn blank(author: u8) -> SendTweet {
    SendTweet {
        tweet: Tweet { author: Identity::new([0u8; 32]), timestamp: 0, content: String::new() },
        author: Identity::new([author; 32]),
    }
}

#[test]
fn tweet_account_size() {
    assert_eq!(Tweet::LEN, 8 + 32 + 8 + 4 + 1120);
}

#[test]
fn tweet_is_written() {
    let mut ctx = blank(4);
    assert_eq!(send_tweet(&mut ctx, "gm".to_string(), Some(77)), Ok(()));
    assert!(ctx.tweet.author.same_as(&Identity::new([4u8; 32])));
    assert_eq!(ctx.tweet.timestamp, 77);
    assert_eq!(ctx.tweet.content, "gm");
}

#[test]
fn tweet_of_280_characters_is_accepted() {
    let mut ctx = blank(4);
    let text: String = "é".repeat(280);
    assert_eq!(send_tweet(&mut ctx, text.clone(), Some(1)), Ok(()));
    assert_eq!(ctx.tweet.content, text);
}

#[test]
fn tweet_of_281_characters_is_rejected() {
    let mut ctx = blank(4);
    assert_eq!(send_tweet(&mut ctx, "a".repeat(281), Some(1)), Err(ErrorCode::ContentTooLong));
    assert_eq!(ctx.tweet.content, "");
    assert_eq!(
        ErrorCode::ContentTooLong.message(),
        "The provided content should be 280 characters long maximum."
    );
}

#[test]
fn tweet_without_clock_is_rejected() {
    let mut ctx = blank(4);
    assert_eq!(send_tweet(&mut ctx, "hi".to_string(), None), Err(ErrorCode::ClockUnavailable));
    assert_eq!(send_tweet_now(&mut ctx, "hi".to_string()), Err(ErrorCode::ClockUnavailable));
    assert_eq!(ctx.tweet.timestamp, 0);
}
