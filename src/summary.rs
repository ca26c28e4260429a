//! Traits: a shared summary behaviour for news articles and tweets, and a
//! generic pair.

use vstd::prelude::*;
use vstd::string::*;

verus! {

/// Something that can describe itself in one line.
pub trait Summary {
    /// What `summarize_author` returns.
    spec fn author_view(&self) -> Seq<char>;

    /// Who wrote the item, in a form that fits in a sentence.
    fn summarize_author(&self) -> (r: String)
        ensures
            r@ == self.author_view(),
    ;

    /// A one-line summary; unless a type says otherwise, a pointer to the author.
    fn summarize(&self) -> (r: String)
        default_ensures
            r@ == "(Read more from "@ + self.author_view() + "...)"@,
    {
        let mut r = String::from_str("(Read more from ");
        let author = self.summarize_author();
        r.append(author.as_str());
        r.append("...)");
        r
    }
}

/// A news article.
pub struct NewsArticle {
    pub headline: String,
    pub location: String,
    pub author: String,
    pub content: String,
}

impl Summary for NewsArticle {
    /// "headline, by author (location)".
    open spec fn author_view(&self) -> Seq<char> {
        self.headline@ + ", by "@ + self.author@ + " ("@ + self.location@ + ")"@
    }

    fn summarize_author(&self) -> (r: String) {
        let mut r = self.headline.clone();
        r.append(", by ");
        r.append(self.author.as_str());
        r.append(" (");
        r.append(self.location.as_str());
        r.append(")");
        r
    }
}

/// A short post.
pub struct Tweet {
    pub username: String,
    pub content: String,
    pub reply: bool,
    pub retweet: bool,
}

impl Summary for Tweet {
    /// "@username".
    open spec fn author_view(&self) -> Seq<char> {
        "@"@ + self.username@
    }

    fn summarize_author(&self) -> (r: String) {
        let mut r = String::from_str("@");
        r.append(self.username.as_str());
        r
    }

    /// "username: content".
    fn summarize(&self) -> (r: String)
        ensures
            r@ == self.username@ + ": "@ + self.content@,
    {
        let mut r = self.username.clone();
        r.append(": ");
        r.append(self.content.as_str());
        r
    }
}

/// A value of a type that implements `Summary`: a tweet.
pub fn returns_summarizable() -> (r: impl Summary)
    ensures
        r.author_view() == "@"@ + "horse_ebooks"@,
{
    Tweet {
        username: String::from_str("horse_ebooks"),
        content: String::from_str("of course, as you probably already know, people"),
        reply: false,
        retweet: false,
    }
}

/// Two values of one type.
pub struct Pair<T> {
    pub x: T,
    pub y: T,
}

impl<T> Pair<T> {
    /// A pair of `x` and `y`.
    pub fn new(x: T, y: T) -> (r: Self)
        ensures
            r.x == x,
            r.y == y,
    {
        Self { x, y }
    }
}

impl Pair<i32> {
    /// Whether `x` is the largest member (ties go to `x`).
    pub fn x_is_largest(&self) -> (r: bool)
        ensures
            r == (self.x >= self.y),
    {
        self.x >= self.y
    }
}

} // verus!
