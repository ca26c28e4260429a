use rust_basics::basics::{_reverse, five, is_match, plus_one};
use rust_basics::enums::{
    plus_one as plus_one_option, value_in_cents, value_in_cents_state, Coin, CoinState, UsState,
};
use rust_basics::summary::{returns_summarizable, Pair};
use rust_basics::{NewsArticle, Summary, Tweet};

#[test]
fn substring_match() {
    assert!(is_match("foo", "foobar"));
    assert!(is_match("bar", "foobar"));
    assert!(is_match("", "foobar"));
    assert!(is_match("", ""));
    assert!(!is_match("baz", "foobar"));
    assert!(!is_match("foobarx", "foobar"));
    assert!(is_match("ö", "wörld"));
}

#[test]
fn swapped_pair() {
    assert_eq!(_reverse((3, true)), (true, 3));
}

#[test]
fn small_numbers() {
    assert_eq!(five(), 5);
    assert_eq!(plus_one(5), 6);
    assert_eq!(plus_one(-1), 0);
}

#[test]
fn coin_values() {
    assert_eq!(value_in_cents(Coin::Penny), 1);
    assert_eq!(value_in_cents(Coin::Nickel), 5);
    assert_eq!(value_in_cents(Coin::Dime), 10);
    assert_eq!(value_in_cents(Coin::Quarter), 25);
    assert_eq!(value_in_cents_state(CoinState::Penny), 1);
    assert_eq!(value_in_cents_state(CoinState::Dime), 10);
    assert_eq!(value_in_cents_state(CoinState::Quarter(UsState::Arizona)), 25);
}

#[test]
fn option_plus_one() {
    assert_eq!(plus_one_option(Some(5)), Some(6));
    assert_eq!(plus_one_option(None), None);
}

#[test]
fn tweet_summaries() {
    let tweet = Tweet {
        username: String::from("horse_ebooks"),
        content: String::from("of course, as you probably already know, people"),
        reply: false,
        retweet: false,
    };
    assert_eq!(tweet.summarize_author(), "@horse_ebooks");
    assert_eq!(
        tweet.summarize(),
        "horse_ebooks: of course, as you probably already know, people"
    );
}

#[test]
fn article_summaries() {
    let article = NewsArticle {
        headline: String::from("It's Over!!!!!"),
        location: String::from("Mars"),
        author: String::from("Morack"),
        content: String::from("Sports"),
    };
    assert_eq!(article.summarize_author(), "It's Over!!!!!, by Morack (Mars)");
    assert_eq!(
        article.summarize(),
        "(Read more from It's Over!!!!!, by Morack (Mars)...)"
    );
}

#[test]
fn summarizable_value() {
    assert_eq!(returns_summarizable().summarize_author(), "@horse_ebooks");
}

#[test]
fn pair_members() {
    let p = Pair::new(3, 7);
    assert_eq!((p.x, p.y), (3, 7));
    assert!(!p.x_is_largest());
    assert!(Pair::new(7, 3).x_is_largest());
    assert!(Pair::new(4, 4).x_is_largest());
}
